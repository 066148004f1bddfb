use sandbox_research::redirect::{redirect_wide, replace_all_exec, replace_path, starts_with};
use sandbox_research::wide::{decode_u16, decode_utf16_lossy_exec, text_length, to_wide_nul};

fn wide(s: &str) -> Vec<u16> {
    let mut v: Vec<u16> = s.encode_utf16().collect();
    v.push(0);
    v
}

#[test]
fn replace_path_normalises_slashes() {
    assert_eq!(replace_path("C:/Windows/System32".to_string(), None), "C:\\Windows\\System32");
    assert_eq!(
        replace_path("D:/data/x".to_string(), Some("C:\\Users\\bob".to_string())),
        "D:\\data\\x"
    );
}

#[test]
fn replace_path_redirects_profile_paths() {
    assert_eq!(
        replace_path("C:\\Users\\bob\\Desktop\\a.txt".to_string(), Some("C:\\Users\\bob".to_string())),
        "C:\\Users\\bob\\Documents\\BoxedData\\Desktop\\a.txt"
    );
    assert_eq!(
        replace_path("C:/Users/bob/notes.txt".to_string(), Some("C:\\Users\\bob".to_string())),
        "C:\\Users\\bob\\Documents\\BoxedData\\notes.txt"
    );
}

#[test]
fn replace_path_leaves_boxed_paths() {
    let boxed = "C:\\Users\\bob\\Documents\\BoxedData\\x.txt";
    assert_eq!(replace_path(boxed.to_string(), Some("C:\\Users\\bob".to_string())), boxed);
}

#[test]
fn replace_path_replaces_every_occurrence() {
    assert_eq!(
        replace_path("C:\\Users\\bob\\C:\\Users\\bob".to_string(), Some("C:\\Users\\bob".to_string())),
        "C:\\Users\\bob\\Documents\\BoxedData\\C:\\Users\\bob\\Documents\\BoxedData"
    );
}

#[test]
fn replace_path_with_empty_profile_directory() {
    let out = replace_path("ab".to_string(), Some(String::new()));
    assert_eq!(out, "ab".replace("", "\\Documents\\BoxedData"));
}

#[test]
fn redirecting_twice_changes_nothing() {
    let user = Some("C:\\Users\\bob".to_string());
    let once = replace_path("C:/Users/bob/a/b".to_string(), user.clone());
    let twice = replace_path(once.clone(), user);
    assert_eq!(once, twice);
}

#[test]
fn replace_all_matches_std() {
    let cases = [("aaaa", "aa", "b"), ("abcabc", "bc", "XY"), ("abc", "", "-"), ("", "", "-"), ("xyz", "q", "r"), ("ab", "abc", "z")];
    for (s, p, r) in cases {
        let sv: Vec<char> = s.chars().collect();
        let pv: Vec<char> = p.chars().collect();
        let rv: Vec<char> = r.chars().collect();
        let out: String = replace_all_exec(&sv, &pv, &rv).into_iter().collect();
        assert_eq!(out, s.replace(p, r));
    }
}

#[test]
fn starts_with_prefixes() {
    let s: Vec<char> = "hello".chars().collect();
    assert!(starts_with(&s, &['h', 'e']));
    assert!(starts_with(&s, &[]));
    assert!(!starts_with(&s, &['e']));
    assert!(!starts_with(&['h'], &['h', 'i']));
}

#[test]
fn decode_stops_at_first_nul() {
    let mut buf = wide("abc");
    buf.extend_from_slice(&[b'z' as u16, 0]);
    assert_eq!(decode_u16(&buf), "abc");
    assert_eq!(text_length(&buf), 3);
}

#[test]
fn decode_without_nul_is_empty() {
    let buf: Vec<u16> = "abc".encode_utf16().collect();
    assert_eq!(decode_u16(&buf), "");
    assert_eq!(text_length(&buf), 0);
}

#[test]
fn decode_lossy_replaces_unpaired_surrogates() {
    let units = [0x0061u16, 0xD83D, 0xDE00, 0xD800, 0x0062, 0xDC00];
    assert_eq!(decode_utf16_lossy_exec(&units), String::from_utf16_lossy(&units));
    assert_eq!(decode_utf16_lossy_exec(&units), "a😀\u{FFFD}b\u{FFFD}");
}

#[test]
fn wide_encoding_matches_std() {
    for s in ["", "C:\\a", "€ and 😀", "kernel32.dll"] {
        assert_eq!(to_wide_nul(s), wide(s));
    }
}

#[test]
fn redirect_wide_round_trip() {
    let name = wide("C:/Users/bob/f.txt");
    let out = redirect_wide(&name, Some("C:\\Users\\bob".to_string()));
    assert_eq!(out, wide("C:\\Users\\bob\\Documents\\BoxedData\\f.txt"));
    let out = redirect_wide(&name, None);
    assert_eq!(out, wide("C:\\Users\\bob\\f.txt"));
}

#[test]
fn wide_round_trip_reads_back() {
    for s in ["", "C:\\Users\\bob", "naïve 😀 ∑"] {
        assert_eq!(decode_u16(&to_wide_nul(s)), s);
    }
}
