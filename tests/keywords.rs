use render_pool::keywords::{check_boundaries, find_matches, is_word_char, keyword_patterns, MatcherCache};

fn strings(v: &[&str]) -> Vec<String> {
    v.iter().map(|s| s.to_string()).collect()
}

fn sorted(mut v: Vec<String>) -> Vec<String> {
    v.sort();
    v
}

#[test]
fn word_chars() {
    assert!(is_word_char('a'));
    assert!(is_word_char('Z'));
    assert!(is_word_char('7'));
    assert!(is_word_char('_'));
    assert!(!is_word_char('-'));
    assert!(!is_word_char(' '));
    assert!(!is_word_char('é'));
}

#[test]
fn boundaries() {
    let s = "a cat sat";
    assert!(check_boundaries(s, 2, 5));
    assert!(!check_boundaries(s, 1, 4));
    assert!(check_boundaries(s, 0, 1));
    assert!(check_boundaries(s, 6, 9));
    assert!(!check_boundaries(s, 6, 10));
    let u = "écat";
    assert!(!check_boundaries(u, 1, 5));
    assert!(check_boundaries(u, 2, 5));
}

#[test]
fn patterns_include_possessive() {
    let (p, o) = keyword_patterns(&strings(&["bob", "eve"]));
    assert_eq!(p, strings(&["bob", "bob's", "eve", "eve's"]));
    assert_eq!(o, strings(&["bob", "bob", "eve", "eve"]));
}

#[test]
fn finds_whole_words_case_insensitively() {
    let mut cache = MatcherCache::new();
    let r = find_matches(&mut cache, "g1".to_string(), "Hello BOB, meet bobby and eve's cat".to_string(), strings(&["bob", "eve", "zed"])).unwrap();
    assert_eq!(sorted(r), strings(&["bob", "eve"]));
}

#[test]
fn reports_each_keyword_once() {
    let mut cache = MatcherCache::new();
    let r = find_matches(&mut cache, "g".to_string(), "cat cat cat's".to_string(), strings(&["cat"])).unwrap();
    assert_eq!(r, strings(&["cat"]));
}

#[test]
fn rebuilds_when_keywords_change() {
    let mut cache = MatcherCache::new();
    let text = "alpha beta".to_string();
    let r = find_matches(&mut cache, "g".to_string(), text.clone(), strings(&["alpha"])).unwrap();
    assert_eq!(r, strings(&["alpha"]));
    let r = find_matches(&mut cache, "g".to_string(), text.clone(), strings(&["beta"])).unwrap();
    assert_eq!(r, strings(&["beta"]));
    let r = find_matches(&mut cache, "h".to_string(), text, strings(&[])).unwrap();
    assert!(r.is_empty());
}

#[test]
fn no_match_inside_words() {
    let mut cache = MatcherCache::new();
    let r = find_matches(&mut cache, "g".to_string(), "scatter_cat cat9".to_string(), strings(&["cat"])).unwrap();
    assert!(r.is_empty());
}
