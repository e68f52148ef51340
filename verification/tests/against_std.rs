//! Functions on texts and paths held against those of the standard library, on many
//! small inputs.

use std::path::{Component, Path};

use agent_os::base64::{clip, decode_data_uri};
use agent_os::text::{
    contains, decimal_text, ends_with, is_space_char, less, lines, lower_char, parse_u64, replace,
    signed_text, split_on, split_once, starts_with, strip_prefix, to_upper, trim, trim_end_matches,
    trim_start_matches, words,
};
use agent_os::workspace::local::{
    normalize_relative, resolve_relative, sort_names, ResolveAction, ResolveEvent, Sight, Walk,
};

/// All texts of up to `n` characters over an alphabet.
fn texts(alphabet: &[char], n: usize) -> Vec<String> {
    let mut all = vec![String::new()];
    let mut last = vec![String::new()];
    for _ in 0..n {
        let mut next = Vec::new();
        for t in &last {
            for c in alphabet {
                next.push(format!("{t}{c}"));
            }
        }
        all.extend(next.iter().cloned());
        last = next;
    }
    all
}

#[test]
fn spaces_and_letters_are_those_of_std() {
    for n in 0..=0x10ffffu32 {
        if let Some(c) = char::from_u32(n) {
            assert_eq!(is_space_char(c), c.is_whitespace(), "{n:x}");
            assert_eq!(lower_char(c), c.to_ascii_lowercase(), "{n:x}");
        }
    }
}

#[test]
fn texts_are_trimmed_and_split_as_in_std() {
    for t in texts(&[' ', 'a', '\n', '\r', '\u{3000}'], 5) {
        assert_eq!(trim(&t), t.trim());
        assert_eq!(words(&t), t.split_whitespace().collect::<Vec<_>>());
        assert_eq!(lines(&t), t.lines().collect::<Vec<_>>());
        assert_eq!(split_on(&t, 'a'), t.split('a').collect::<Vec<_>>());
    }
}

#[test]
fn texts_are_searched_as_in_std() {
    let patterns = ["a", "ab", "aa", "aba", "ba"];
    for t in texts(&['a', 'b', 'A', 'é'], 5) {
        assert_eq!(to_upper(&t), t.to_ascii_uppercase());
        for p in patterns {
            assert_eq!(contains(&t, p), t.contains(p));
            assert_eq!(starts_with(&t, p), t.starts_with(p));
            assert_eq!(ends_with(&t, p), t.ends_with(p));
            assert_eq!(strip_prefix(&t, p).as_deref(), t.strip_prefix(p));
            assert_eq!(trim_start_matches(&t, p), t.trim_start_matches(p));
            assert_eq!(trim_end_matches(&t, p), t.trim_end_matches(p));
            assert_eq!(replace(&t, p, "x"), t.replace(p, "x"));
            let once = t.split_once(p).map(|(a, b)| (a.to_string(), b.to_string()));
            assert_eq!(split_once(&t, p), once);
        }
    }
}

#[test]
fn texts_are_ordered_as_in_std() {
    let all = texts(&['a', 'b', '~', 'é', '\u{10000}'], 3);
    for a in &all {
        for b in &all {
            assert_eq!(less(a, b), a < b, "{a} {b}");
        }
    }
    let mut sorted = all.clone();
    sorted.sort();
    assert_eq!(sort_names(all.into_iter().rev().collect()), sorted);
}

#[test]
fn numbers_are_read_as_in_std() {
    for t in texts(&['0', '1', '9', '+', '-', ' '], 4) {
        assert_eq!(parse_u64(&t), t.parse::<u64>().ok(), "{t}");
    }
    for t in ["18446744073709551615", "18446744073709551616", "00018446744073709551615", "99999999999999999999"] {
        assert_eq!(parse_u64(t), t.parse::<u64>().ok(), "{t}");
    }
    for n in [0, 9, 10, 99, 100, 12345, u64::MAX] {
        assert_eq!(decimal_text(n), n.to_string());
    }
    for n in [0, -1, 7, i64::MIN, i64::MAX] {
        assert_eq!(signed_text(n), n.to_string());
    }
}

#[test]
fn paths_are_normalized_as_in_std() {
    for t in texts(&['a', '.', '/', '\\'], 5) {
        let plain = !t.is_empty() && !t.starts_with('/') && !t.contains('\\');
        let parts: Option<Vec<String>> = Path::new(&t)
            .components()
            .map(|c| match c {
                Component::Normal(p) => p.to_str().map(str::to_string),
                _ => None,
            })
            .collect();
        let expected = if plain { parts } else { None };
        assert_eq!(normalize_relative(&t).ok(), expected, "{t}");
    }
}

#[test]
fn paths_stay_below_as_in_std() {
    let paths: Vec<String> =
        texts(&['a', 'b', '/'], 5).into_iter().map(|t| format!("/{t}")).collect();
    for root in ["/", "/a", "/a/b", "/ab"] {
        for path in &paths {
            let expected = Path::new(path).starts_with(Path::new(root));
            let walk = Walk { at: vec!["x".to_string()], tail: Vec::new(), links: 0 };
            let sight = Sight { resolved: Some(path.clone()), link: None };
            let allowed = match resolve_relative(ResolveEvent::Seen { walk, sight }, "x", root) {
                ResolveAction::Done(result) => result.is_ok(),
                other => panic!("not decided: {other:?}"),
            };
            assert_eq!(allowed, expected, "{path} {root}");
        }
    }
}

#[test]
fn texts_are_clipped_at_characters() {
    for t in texts(&['a', 'é', '€', '\u{10000}'], 4) {
        for max in 0..12 {
            let mut end = max.min(t.len());
            while !t.is_char_boundary(end) {
                end -= 1;
            }
            assert_eq!(clip(&t, max), &t[..end]);
        }
    }
    assert_eq!(decode_data_uri(";base64,"), Some(String::new()));
}
