use script_sys::str_map::StrMap;
use script_sys::text::{insert_at, replace_all, rfind, str_eq, to_chars, trim, white_space};

#[test]
fn trim_removes_surrounding_white_space() {
    assert_eq!(trim("  \t a b \n\r"), "a b");
    assert_eq!(trim("\u{3000}x\u{a0}"), "x");
    assert_eq!(trim("   "), "");
    assert_eq!(trim(""), "");
    assert_eq!(trim("a\nb"), "a\nb");
}

#[test]
fn trim_agrees_with_std() {
    for s in ["  x ", "\u{2003}y\u{85}", "\u{200b}z", "w\u{2028}", "plain"] {
        assert_eq!(trim(s), s.trim());
    }
}

#[test]
fn white_space_agrees_with_std() {
    for n in 0u32..0x3100 {
        if let Some(c) = char::from_u32(n) {
            assert_eq!(white_space(c), c.is_whitespace(), "{n:#x}");
        }
    }
}

#[test]
fn rfind_finds_last_occurrence_in_characters() {
    assert_eq!(rfind("abcabc", "bc"), Some(4));
    assert_eq!(rfind("abc", "x"), None);
    assert_eq!(rfind("ab", "abc"), None);
    assert_eq!(rfind("aaa", "aa"), Some(1));
    assert_eq!(rfind("éé\né", "\n"), Some(2));
    assert_eq!(rfind("abc", ""), Some(3));
}

#[test]
fn replace_all_replaces_left_to_right() {
    assert_eq!(replace_all("a\"b\"", "\"", "\\\""), "a\\\"b\\\"");
    assert_eq!(replace_all("aaa", "aa", "b"), "ba");
    assert_eq!(replace_all("x = {};", "{}", "42"), "x = 42;");
    assert_eq!(replace_all("none", "{}", "42"), "none");
    assert_eq!(replace_all("", "{}", "42"), "");
    for (s, p, r) in [("a{}b{}", "{}", "-"), ("ééé", "é", "e"), ("abab", "ab", "")] {
        assert_eq!(replace_all(s, p, r), s.replace(p, r));
    }
}

#[test]
fn insert_at_inserts_before_position() {
    assert_eq!(insert_at("ab\ncd", 3, "x = "), "ab\nx = cd");
    assert_eq!(insert_at("é", 0, "<"), "<é");
    assert_eq!(insert_at("é", 1, ">"), "é>");
}

#[test]
fn characters_and_equality() {
    assert_eq!(to_chars("aé"), vec!['a', 'é']);
    assert!(str_eq("x", "x"));
    assert!(!str_eq("x", "y"));
}

#[test]
fn str_map_insert_and_get() {
    let mut m: StrMap<i32> = StrMap::new();
    assert!(m.is_empty());
    assert_eq!(m.insert("a".to_string(), 1), None);
    assert_eq!(m.insert("b".to_string(), 2), None);
    assert_eq!(m.insert("a".to_string(), 3), Some(1));
    assert_eq!(m.len(), 2);
    assert_eq!(m.get("a"), Some(&3));
    assert_eq!(m.get("b"), Some(&2));
    assert_eq!(m.get("c"), None);
    assert!(m.contains_key("b"));
    assert!(!m.contains_key("c"));
    assert!(!m.is_empty());
    let keys: Vec<&str> = m.entries().iter().map(|(k, _)| k.as_str()).collect();
    assert_eq!(keys, vec!["a", "b"]);
}

#[test]
fn str_map_from_distinct_entries() {
    let m = StrMap::from_distinct(vec![("x".to_string(), 1u8), ("y".to_string(), 2u8)]);
    assert_eq!(m.len(), 2);
    assert_eq!(m.get("y"), Some(&2));
}

#[test]
fn str_eq_compares_characters() {
    assert!(str_eq("", ""));
    assert!(str_eq("é1", "é1"));
    assert!(!str_eq("é", "e"));
    assert!(!str_eq("ab", "a"));
}
