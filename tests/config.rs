use wallpaper::config::setting_value;

#[test]
fn last_matching_line_wins() {
    let c = "a=1\nb=2\na=3";
    assert_eq!(setting_value(c, "a"), Some("3".to_string()));
    assert_eq!(setting_value(c, "b"), Some("2".to_string()));
}

#[test]
fn key_must_open_the_line() {
    assert_eq!(setting_value("xa=1\n a=2", "a"), None);
    assert_eq!(setting_value("ab=1", "a"), None);
    assert_eq!(setting_value("", "a"), None);
}

#[test]
fn empty_value() {
    assert_eq!(setting_value("a=\n", "a"), Some(String::new()));
    assert_eq!(setting_value("a==x", "a"), Some("=x".to_string()));
}
