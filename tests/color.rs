use render_pool::color::sanitize_hex;

#[test]
fn keeps_six_digit_code() {
    assert_eq!(sanitize_hex("#a1B2c3"), "#a1B2c3");
    assert_eq!(sanitize_hex("ff00aa"), "#ff00aa");
}

#[test]
fn strips_every_leading_hash() {
    assert_eq!(sanitize_hex("###123456"), "#123456");
}

#[test]
fn falls_back_on_bad_codes() {
    assert_eq!(sanitize_hex(""), "#00d4ff");
    assert_eq!(sanitize_hex("#"), "#00d4ff");
    assert_eq!(sanitize_hex("#12345"), "#00d4ff");
    assert_eq!(sanitize_hex("#1234567"), "#00d4ff");
    assert_eq!(sanitize_hex("#12345g"), "#00d4ff");
    assert_eq!(sanitize_hex("12#456"), "#00d4ff");
    assert_eq!(sanitize_hex("ééé"), "#00d4ff");
    assert_eq!(sanitize_hex("éééééé"), "#00d4ff");
}
