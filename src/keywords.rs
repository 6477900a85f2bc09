use vstd::prelude::*;
use vstd::string::*;
use vstd::utf8::is_char_boundary;

verus! {

/// The automaton type of the `aho-corasick` crate, carried opaquely.
#[verifier::external_type_specification]
#[verifier::external_body]
pub struct ExAhoCorasick(aho_corasick::AhoCorasick);

/// The error of building an automaton, carried opaquely.
#[verifier::external_type_specification]
#[verifier::external_body]
pub struct ExBuildError(aho_corasick::BuildError);

/// Relies on `AhoCorasickBuilder::build` with ASCII case folding and
/// leftmost-first match semantics; nothing is assumed of the automaton.
#[verifier::external_body]
fn build_automaton(patterns: &Vec<String>) -> (r: Result<aho_corasick::AhoCorasick, aho_corasick::BuildError>) {
    aho_corasick::AhoCorasick::builder()
        .ascii_case_insensitive(true)
        .match_kind(aho_corasick::MatchKind::LeftmostFirst)
        .build(patterns)
}

/// Relies on `AhoCorasick::find_iter`: each match is a byte span of the
/// haystack and the index of the pattern found there.
#[verifier::external_body]
fn find_spans(ac: &aho_corasick::AhoCorasick, haystack: &str) -> (r: Vec<(usize, usize, usize)>)
    ensures
        forall|i: int| 0 <= i < r@.len() ==> (#[trigger] r@[i]).0 <= r@[i].1 <= haystack.spec_bytes().len(),
{
    ac.find_iter(haystack).map(|m| (m.start(), m.end(), m.pattern().as_usize())).collect()
}

pub open spec fn is_word(c: char) -> bool {
    ('0' <= c && c <= '9') || ('a' <= c && c <= 'z') || ('A' <= c && c <= 'Z') || c == '_'
}

/// A byte that is the encoding of a word character. Every byte of a
/// multi-byte character is above the ASCII range, so the character next to
/// a boundary is a word character exactly when its nearest byte is one.
pub open spec fn is_word_byte(b: u8) -> bool {
    (48 <= b <= 57) || (97 <= b <= 122) || (65 <= b <= 90) || b == 95
}

/// Whether the span `start..end` of `bytes` lies on character boundaries
/// and has no word character directly before or after it.
pub open spec fn at_word_boundaries(bytes: Seq<u8>, start: int, end: int) -> bool {
    &&& is_char_boundary(bytes, start)
    &&& is_char_boundary(bytes, end)
    &&& 0 <= start <= bytes.len()
    &&& 0 <= end <= bytes.len()
    &&& (start == 0 || !is_word_byte(bytes[start - 1]))
    &&& (end == bytes.len() || !is_word_byte(bytes[end]))
}

/// ASCII letters, digits and `_`.
pub fn is_word_char(c: char) -> (r: bool)
    ensures
        r == is_word(c),
{
    ('0' <= c && c <= '9') || ('a' <= c && c <= 'z') || ('A' <= c && c <= 'Z') || c == '_'
}

fn is_word_u8(b: u8) -> (r: bool)
    ensures
        r == is_word_byte(b),
{
    (48 <= b && b <= 57) || (97 <= b && b <= 122) || (65 <= b && b <= 90) || b == 95
}

/// Whether a match at bytes `start..end` of `content` is a whole word.
pub fn check_boundaries(content: &str, start: usize, end: usize) -> (r: bool)
    ensures
        r == at_word_boundaries(content.spec_bytes(), start as int, end as int),
{
    if !content.is_char_boundary(start) || !content.is_char_boundary(end) {
        return false;
    }
    let bytes = content.as_bytes();
    let n = bytes.len();
    if start > n || end > n {
        return false;
    }
    let left_ok = start == 0 || !is_word_u8(bytes[start - 1]);
    if !left_ok {
        return false;
    }
    end == n || !is_word_u8(bytes[end])
}

/// The character sequences of a list of strings.
pub open spec fn strs(v: Seq<String>) -> Seq<Seq<char>> {
    v.map_values(|s: String| s@)
}

/// Each keyword followed by its possessive form.
pub open spec fn pattern_list(kws: Seq<Seq<char>>) -> Seq<Seq<char>> {
    Seq::new(2 * kws.len(), |i: int| if i % 2 == 0 { kws[i / 2] } else { kws[i / 2] + "'s"@ })
}

/// For each pattern of `pattern_list(kws)`, the keyword it stands for.
pub open spec fn pattern_owner(kws: Seq<Seq<char>>) -> Seq<Seq<char>> {
    Seq::new(2 * kws.len(), |i: int| kws[i / 2])
}

/// Builds the patterns searched for `keywords`, and the keyword each stands for.
pub fn keyword_patterns(keywords: &Vec<String>) -> (r: (Vec<String>, Vec<String>))
    ensures
        strs(r.0@) == pattern_list(strs(keywords@)),
        strs(r.1@) == pattern_owner(strs(keywords@)),
{
    let mut patterns: Vec<String> = Vec::new();
    let mut owners: Vec<String> = Vec::new();
    let ghost kws = strs(keywords@);
    let mut i: usize = 0;
    while i < keywords.len()
        invariant
            i <= keywords@.len(),
            kws == strs(keywords@),
            strs(patterns@) == pattern_list(kws.take(i as int)),
            strs(owners@) == pattern_owner(kws.take(i as int)),
        decreases keywords@.len() - i,
    {
        let kw = &keywords[i];
        let ghost i0 = i as int;
        let ghost p0 = strs(patterns@);
        let ghost o0 = strs(owners@);
        let mut possessive = kw.clone();
        possessive.append("'s");
        patterns.push(kw.clone());
        patterns.push(possessive);
        owners.push(kw.clone());
        owners.push(kw.clone());
        i = i + 1;
        proof {
            let t0 = kws.take(i0);
            let t1 = kws.take(i0 + 1);
            assert(kws[i0] == kw@);
            assert(strs(patterns@) =~= p0.push(kw@).push(kw@ + "'s"@));
            assert(strs(owners@) =~= o0.push(kw@).push(kw@));
            assert forall|j: int| 0 <= j < 2 * (i0 + 1) implies strs(patterns@)[j] == pattern_list(t1)[j]
                && strs(owners@)[j] == pattern_owner(t1)[j] by {
                if j < 2 * i0 {
                    assert(t1[j / 2] == t0[j / 2]);
                } else {
                    assert(j / 2 == i0);
                }
            }
            assert(strs(patterns@) =~= pattern_list(t1));
            assert(strs(owners@) =~= pattern_owner(t1));
        }
    }
    assert(kws.take(i as int) =~= kws);
    (patterns, owners)
}

/// Whether span `k` of `spans` is a whole-word match of a known pattern
/// whose keyword is `x`.
pub open spec fn found_at(bytes: Seq<u8>, spans: Seq<(usize, usize, usize)>, owners: Seq<Seq<char>>, k: int, x: Seq<char>) -> bool {
    &&& 0 <= k < spans.len()
    &&& spans[k].2 < owners.len()
    &&& at_word_boundaries(bytes, spans[k].0 as int, spans[k].1 as int)
    &&& owners[spans[k].2 as int] == x
}

fn contains_str(v: &Vec<String>, s: &String) -> (r: bool)
    ensures
        r == strs(v@).contains(s@),
{
    let mut i: usize = 0;
    while i < v.len()
        invariant
            i <= v@.len(),
            forall|j: int| 0 <= j < i ==> v@[j]@ != s@,
        decreases v@.len() - i,
    {
        if v[i] == *s {
            assert(strs(v@)[i as int] == s@);
            return true;
        }
        i = i + 1;
    }
    proof {
        if strs(v@).contains(s@) {
            let j = choose|j: int| 0 <= j < strs(v@).len() && strs(v@)[j] == s@;
            assert(v@[j]@ == s@);
        }
    }
    false
}

/// The keywords of the whole-word matches among `spans`, each once, in the
/// order of their first match.
pub fn collect_keywords(content: &str, spans: &Vec<(usize, usize, usize)>, owners: &Vec<String>) -> (r: Vec<String>)
    ensures
        strs(r@).no_duplicates(),
        forall|x: Seq<char>| strs(r@).contains(x)
            <==> exists|k: int| found_at(content.spec_bytes(), spans@, strs(owners@), k, x),
{
    let ghost bytes = content.spec_bytes();
    let ghost os = strs(owners@);
    let mut found: Vec<String> = Vec::new();
    let mut i: usize = 0;
    while i < spans.len()
        invariant
            i <= spans@.len(),
            bytes == content.spec_bytes(),
            os == strs(owners@),
            strs(found@).no_duplicates(),
            forall|x: Seq<char>| strs(found@).contains(x)
                <==> exists|k: int| 0 <= k < i && #[trigger] found_at(bytes, spans@, os, k, x),
        decreases spans@.len() - i,
    {
        let (start, end, p) = spans[i];
        let ghost prev = strs(found@);
        let ghost ii = i as int;
        if p < owners.len() && check_boundaries(content, start, end) {
            let kw = &owners[p];
            assert(os[p as int] == kw@);
            if !contains_str(&found, kw) {
                found.push(kw.clone());
                proof {
                    assert(strs(found@) =~= prev.push(kw@));
                    assert forall|a: int, b: int| 0 <= a < b < strs(found@).len() implies strs(found@)[a] != strs(found@)[b] by {
                        if b == prev.len() {
                            assert(prev[a] == strs(found@)[a]);
                            assert(prev.contains(prev[a]));
                        }
                    }
                }
            }
            proof {
                assert forall|x: Seq<char>| strs(found@).contains(x)
                    <==> (prev.contains(x) || found_at(bytes, spans@, os, ii, x)) by {
                    if strs(found@).contains(x) && !prev.contains(x) {
                        let j = choose|j: int| 0 <= j < strs(found@).len() && strs(found@)[j] == x;
                        assert(j == prev.len());
                    }
                    if found_at(bytes, spans@, os, ii, x) && !prev.contains(x) {
                        assert(strs(found@)[strs(found@).len() - 1] == x);
                    }
                    if prev.contains(x) {
                        let j = choose|j: int| 0 <= j < prev.len() && prev[j] == x;
                        assert(strs(found@)[j] == x);
                    }
                }
            }
        } else {
            proof {
                assert forall|x: Seq<char>| strs(found@).contains(x)
                    <==> (prev.contains(x) || found_at(bytes, spans@, os, ii, x)) by {}
            }
        }
        proof {
            assert forall|x: Seq<char>| strs(found@).contains(x)
                implies exists|k: int| 0 <= k < ii + 1 && #[trigger] found_at(bytes, spans@, os, k, x) by {
                if prev.contains(x) {
                    let k = choose|k: int| 0 <= k < ii && #[trigger] found_at(bytes, spans@, os, k, x);
                    assert(0 <= k < ii + 1 && found_at(bytes, spans@, os, k, x));
                } else {
                    assert(found_at(bytes, spans@, os, ii, x));
                }
            }
            assert forall|x: Seq<char>| (exists|k: int| 0 <= k < ii + 1 && #[trigger] found_at(bytes, spans@, os, k, x))
                implies strs(found@).contains(x) by {
                let k = choose|k: int| 0 <= k < ii + 1 && #[trigger] found_at(bytes, spans@, os, k, x);
                if k < ii {
                    assert(exists|k: int| 0 <= k < ii && #[trigger] found_at(bytes, spans@, os, k, x));
                    assert(prev.contains(x));
                } else {
                    assert(found_at(bytes, spans@, os, ii, x));
                }
            }
        }
        i = i + 1;
    }
    assert forall|x: Seq<char>| (exists|k: int| found_at(bytes, spans@, os, k, x))
        implies strs(found@).contains(x) by {
        let k = choose|k: int| found_at(bytes, spans@, os, k, x);
        assert(0 <= k < i && found_at(bytes, spans@, os, k, x));
    }
    found
}

/// Why `find_matches` produced no result.
#[derive(Clone, Copy, Debug, PartialEq, Eq, Structural)]
pub enum MatchError {
    /// The automaton for the keywords could not be built.
    BuildFailed,
}

/// A compiled automaton for one guild's keywords.
pub struct GuildMatcher {
    ac: aho_corasick::AhoCorasick,
    keywords: Vec<String>,
    pattern_to_keyword: Vec<String>,
}

/// Automata per guild, rebuilt when a guild's keyword list changes.
pub struct MatcherCache {
    guild_ids: Vec<String>,
    matchers: Vec<GuildMatcher>,
}

impl MatcherCache {
    pub closed spec fn wf(&self) -> bool {
        &&& self.guild_ids@.len() == self.matchers@.len()
        &&& strs(self.guild_ids@).no_duplicates()
        &&& forall|i: int| 0 <= i < self.matchers@.len()
            ==> strs((#[trigger] self.matchers@[i]).pattern_to_keyword@) == pattern_owner(strs(self.matchers@[i].keywords@))
    }

    /// The keyword list cached for each guild.
    pub closed spec fn view(&self) -> Map<Seq<char>, Seq<Seq<char>>> {
        Map::new(
            |g: Seq<char>| strs(self.guild_ids@).contains(g),
            |g: Seq<char>| strs(self.matchers@[strs(self.guild_ids@).index_of(g)].keywords@),
        )
    }

    pub fn new() -> (c: MatcherCache)
        ensures
            c.wf(),
            c.view() == Map::<Seq<char>, Seq<Seq<char>>>::empty(),
    {
        let c = MatcherCache { guild_ids: Vec::new(), matchers: Vec::new() };
        assert(c.view() =~= Map::<Seq<char>, Seq<Seq<char>>>::empty());
        c
    }

    fn position(&self, g: &String) -> (r: Option<usize>)
        requires
            self.wf(),
        ensures
            r matches Some(i) ==> i < self.guild_ids@.len() && strs(self.guild_ids@)[i as int] == g@
                && strs(self.guild_ids@).index_of(g@) == i,
            r is None ==> !strs(self.guild_ids@).contains(g@),
    {
        let mut i: usize = 0;
        while i < self.guild_ids.len()
            invariant
                self.wf(),
                i <= self.guild_ids@.len(),
                forall|j: int| 0 <= j < i ==> self.guild_ids@[j]@ != g@,
            decreases self.guild_ids@.len() - i,
        {
            if self.guild_ids[i] == *g {
                proof {
                    let ids = strs(self.guild_ids@);
                    assert(ids[i as int] == g@);
                    assert(ids.contains(g@));
                    let k = ids.index_of(g@);
                    assert(ids[k] == g@);
                    assert(ids.no_duplicates());
                    if k < i {
                        assert(ids[k] != ids[i as int]);
                    } else if k > i {
                        assert(ids[i as int] != ids[k]);
                    }
                }
                return Some(i);
            }
            i = i + 1;
        }
        proof {
            let ids = strs(self.guild_ids@);
            if ids.contains(g@) {
                let j = choose|j: int| 0 <= j < ids.len() && ids[j] == g@;
                assert(self.guild_ids@[j]@ == g@);
            }
        }
        None
    }
}

fn same_keywords(a: &Vec<String>, b: &Vec<String>) -> (r: bool)
    ensures
        r == (strs(a@) == strs(b@)),
{
    if a.len() != b.len() {
        assert(strs(a@).len() != strs(b@).len());
        return false;
    }
    let mut i: usize = 0;
    while i < a.len()
        invariant
            i <= a@.len(),
            a@.len() == b@.len(),
            forall|j: int| 0 <= j < i ==> a@[j]@ == b@[j]@,
        decreases a@.len() - i,
    {
        if a[i] != b[i] {
            assert(strs(a@)[i as int] != strs(b@)[i as int]);
            return false;
        }
        i = i + 1;
    }
    assert(strs(a@) =~= strs(b@));
    true
}

/// The keywords of `keywords` that occur in `content` as whole words, or in
/// their possessive form, compared without regard to ASCII case; each is
/// reported once. The guild's automaton is built on first use and rebuilt
/// whenever its keyword list differs from the cached one.
pub fn find_matches(cache: &mut MatcherCache, guild_id: String, content: String, keywords: Vec<String>) -> (r: Result<Vec<String>, MatchError>)
    requires
        old(cache).wf(),
    ensures
        final(cache).wf(),
        old(cache).view().contains_key(guild_id@) && old(cache).view()[guild_id@] == strs(keywords@) ==> r is Ok,
        r is Ok ==> final(cache).view() == old(cache).view().insert(guild_id@, strs(keywords@)),
        r is Err ==> final(cache).view() == old(cache).view()
            && !(old(cache).view().contains_key(guild_id@) && old(cache).view()[guild_id@] == strs(keywords@)),
        r matches Ok(v) ==> strs(v@).no_duplicates()
            && forall|x: Seq<char>| strs(v@).contains(x) ==> strs(keywords@).contains(x),
{
    let ghost kws = strs(keywords@);
    let ghost old_view = cache.view();
    let pos = cache.position(&guild_id);
    let rebuild = match pos {
        Some(i) => !same_keywords(&cache.matchers[i].keywords, &keywords),
        None => true,
    };
    let idx: usize;
    if rebuild {
        let (patterns, owners) = keyword_patterns(&keywords);
        let ac = match build_automaton(&patterns) {
            Ok(a) => a,
            Err(_) => {
                return Err(MatchError::BuildFailed);
            },
        };
        let m = GuildMatcher { ac, keywords: keywords, pattern_to_keyword: owners };
        let ghost ids = strs(cache.guild_ids@);
        match pos {
            Some(i) => {
                cache.matchers.set(i, m);
                idx = i;
            },
            None => {
                cache.guild_ids.push(guild_id.clone());
                cache.matchers.push(m);
                idx = cache.matchers.len() - 1;
                proof {
                    assert(strs(cache.guild_ids@) =~= ids.push(guild_id@));
                    assert forall|a: int, b: int| 0 <= a < b < strs(cache.guild_ids@).len()
                        implies strs(cache.guild_ids@)[a] != strs(cache.guild_ids@)[b] by {
                        if b == ids.len() {
                            assert(ids.contains(ids[a]));
                        }
                    }
                }
            },
        }
        proof {
            let nids = strs(cache.guild_ids@);
            assert(nids[idx as int] == guild_id@);
            assert(nids.contains(guild_id@));
            let k = nids.index_of(guild_id@);
            assert(nids[k] == guild_id@);
            assert(k == idx);
            assert forall|g: Seq<char>| #[trigger] nids.contains(g) && g != guild_id@ implies ids.contains(g)
                && nids.index_of(g) == ids.index_of(g) by {
                let j = choose|j: int| 0 <= j < nids.len() && nids[j] == g;
                assert(ids[j] == g);
                let a = nids.index_of(g);
                let b = ids.index_of(g);
                assert(nids[a] == g);
                assert(ids[b] == g);
                assert(nids[b] == g);
            }
            assert forall|g: Seq<char>| #[trigger] ids.contains(g) implies nids.contains(g) by {
                let j = choose|j: int| 0 <= j < ids.len() && ids[j] == g;
                assert(nids[j] == g);
            }
            assert(cache.view() =~= old_view.insert(guild_id@, kws));
        }
    } else {
        idx = pos.unwrap();
        assert(cache.view() =~= old_view.insert(guild_id@, kws));
    }
    let m = &cache.matchers[idx];
    let text = content.as_str();
    let spans = find_spans(&m.ac, text);
    let found = collect_keywords(text, &spans, &m.pattern_to_keyword);
    proof {
        let os = strs(m.pattern_to_keyword@);
        assert(os == pattern_owner(kws));
        assert forall|x: Seq<char>| strs(found@).contains(x) implies kws.contains(x) by {
            let k = choose|k: int| found_at(text.spec_bytes(), spans@, os, k, x);
            let p = spans@[k].2 as int;
            assert(os[p] == kws[p / 2]);
        }
    }
    Ok(found)
}

} // verus!
