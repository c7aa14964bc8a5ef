use cyber_tui::session::{config_dir_in, session_path_in, Session, NO_CONFIG_DIR};
use cyber_tui::text::{concat2, concat3, contains_text, is_whitespace, join_path_text, trimmed};

#[test]
fn trimmed_drops_whitespace_at_both_ends() {
    assert_eq!(trimmed("  ciao mondo \n\t"), "ciao mondo");
    assert_eq!(trimmed("\u{3000}x\u{a0}"), "x");
    assert_eq!(trimmed("   "), "");
    assert_eq!(trimmed(""), "");
    assert_eq!(trimmed("a b"), "a b");
}

#[test]
fn trimming_twice_is_trimming_once() {
    for s in ["  a  ", "\t\n", "x", " x y \u{2009}"] {
        let once = trimmed(s);
        assert_eq!(trimmed(&once), once);
    }
}

#[test]
fn whitespace_follows_unicode() {
    assert!(is_whitespace(' '));
    assert!(is_whitespace('\n'));
    assert!(is_whitespace('\u{85}'));
    assert!(is_whitespace('\u{2028}'));
    assert!(!is_whitespace('a'));
    assert!(!is_whitespace('\u{200b}'));
    for c in ['\t', ' ', '\u{a0}', '\u{1680}', '\u{205f}', 'z', '0', '\u{feff}'] {
        assert_eq!(is_whitespace(c), c.is_whitespace());
    }
}

#[test]
fn contains_finds_substrings() {
    assert!(contains_text("HTTP 401 Unauthorized", "401"));
    assert!(contains_text("abc", ""));
    assert!(contains_text("abc", "abc"));
    assert!(!contains_text("ab", "abc"));
    assert!(!contains_text("HTTP 500", "401"));
    assert!(contains_text("èèè401", "401"));
}

#[test]
fn concatenation() {
    assert_eq!(concat2("ab", "cd"), "abcd");
    assert_eq!(concat3("a", "", "c"), "ac");
}

#[test]
fn joined_paths() {
    assert_eq!(join_path_text("/home/u/.config", "cyber-tui"), "/home/u/.config/cyber-tui");
    assert_eq!(join_path_text("/home/u/.config/", "cyber-tui"), "/home/u/.config/cyber-tui");
    assert_eq!(join_path_text("", "session.json"), "session.json");
}

#[test]
fn session_file_under_config_dir() {
    let dir = config_dir_in(Some("/home/u/.config".to_string())).unwrap();
    assert_eq!(dir, "/home/u/.config/cyber-tui");
    assert_eq!(session_path_in(&dir), "/home/u/.config/cyber-tui/session.json");
    assert_eq!(config_dir_in(None), Err(NO_CONFIG_DIR.to_string()));
}

#[test]
fn session_authentication() {
    let empty = Session::default();
    assert!(!empty.is_authenticated());
    assert_eq!(empty.id_token, None);
    assert_eq!(empty.username, None);
    let s = Session { id_token: Some("t".to_string()), refresh_token: None, username: None };
    assert!(s.is_authenticated());
}
