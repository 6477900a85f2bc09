use render_pool::template::{decimal, generate_rank_card_html, RankCardData};

#[test]
fn decimal_text() {
    assert_eq!(decimal(0), "0");
    assert_eq!(decimal(7), "7");
    assert_eq!(decimal(1234), "1234");
    assert_eq!(decimal(-56), "-56");
    assert_eq!(decimal(i64::MAX), "9223372036854775807");
    assert_eq!(decimal(i64::MIN), "-9223372036854775808");
}

fn card(username: &str, color: &str) -> RankCardData {
    RankCardData {
        username: username.to_string(),
        hex_color: color.to_string(),
        avatar_base64: "QUJD".to_string(),
        weekly_xp: 1200,
        all_time_xp: 98765,
        weekly_rank: 3,
        all_time_rank: 42,
    }
}

#[test]
fn markup_fills_fields() {
    let html = generate_rank_card_html(&card("Ann", "#12ab34"));
    assert!(html.contains("border: 2px solid #12ab34;"));
    assert!(html.contains("0 0 60px #12ab3440,"));
    assert!(html.contains("<h1 class=\"display-name\">Ann</h1>"));
    assert!(html.contains("data:image/png;base64,QUJD"));
    assert!(html.contains("<span class=\"pill-value\">1200</span>"));
    assert!(html.contains("<span class=\"pill-value\">98765</span>"));
    assert!(html.contains("<span class=\"pill-value\">#3</span>"));
    assert!(html.contains("<span class=\"pill-value\">#42</span>"));
    assert!(html.contains("@keyframes pulse {"));
    assert!(html.starts_with("\n<!DOCTYPE html>"));
}

#[test]
fn markup_escapes_name_and_falls_back_on_color() {
    let html = generate_rank_card_html(&card("<b>&co</b>", "red"));
    assert!(html.contains("&lt;b&gt;&amp;co&lt;/b&gt;"));
    assert!(!html.contains("<b>&co</b>"));
    assert!(html.contains("border: 2px solid #00d4ff;"));
}

use render_pool::leaderboard::{row_color, truncate_username};

#[test]
fn row_colors() {
    assert_eq!(row_color(1, true), "#823EF0");
    assert_eq!(row_color(1, false), "#FFD700");
    assert_eq!(row_color(2, false), "#E6E8FA");
    assert_eq!(row_color(3, false), "#CD7F32");
    assert_eq!(row_color(4, false), "#36393e");
    assert_eq!(row_color(0, false), "#36393e");
}

#[test]
fn long_names_are_cut() {
    assert_eq!(truncate_username("short"), "short");
    assert_eq!(truncate_username("abcdefghijklmnopqrst"), "abcdefghijklmnopqrst");
    assert_eq!(truncate_username("abcdefghijklmnopqrstu"), "abcdefghijklmnopq...");
    assert_eq!(truncate_username("ééééééééééééééééééééé"), "ééééééééééééééééé...");
    assert_eq!(truncate_username(""), "");
}
