use refer::bounded_add;
use refer::utils::{complete, gcp, starts_with};

fn owned(names: &[&str]) -> Vec<String> {
    names.iter().map(|s| s.to_string()).collect()
}

#[test]
fn gcp_of_two_names() {
    assert_eq!(gcp("./src/main.rs".to_string(), "./src/map.rs".to_string()), "./src/ma");
    assert_eq!(gcp("abc".to_string(), "abc".to_string()), "abc");
    assert_eq!(gcp("abc".to_string(), "abcdef".to_string()), "abc");
    assert_eq!(gcp("abc".to_string(), "xyz".to_string()), "");
    assert_eq!(gcp("".to_string(), "xyz".to_string()), "");
}

#[test]
fn gcp_counts_characters() {
    assert_eq!(gcp("über/a".to_string(), "über/b".to_string()), "über/");
}

#[test]
fn starts_with_agrees_with_std() {
    for (s, p) in [("hello", "he"), ("hello", ""), ("he", "hello"), ("hello", "hx"), ("", "")] {
        assert_eq!(starts_with(s, p), s.starts_with(p));
    }
}

#[test]
fn complete_takes_common_prefix_of_matches() {
    let names = owned(&["./src/input.rs", "./src/io.rs", "./src/main.rs", "./Cargo.toml"]);
    assert_eq!(complete(names.clone(), &"./src/i".to_string()), "./src/i");
    assert_eq!(complete(names.clone(), &"./src/m".to_string()), "./src/main.rs");
    assert_eq!(complete(names.clone(), &"./s".to_string()), "./src/");
    assert_eq!(complete(names, &"./".to_string()), "./");
}

#[test]
fn complete_without_match_returns_prefix() {
    let names = owned(&["./a", "./b"]);
    assert_eq!(complete(names, &"./zzz".to_string()), "./zzz");
    assert_eq!(complete(Vec::new(), &"anything".to_string()), "anything");
}

#[test]
fn bounded_add_stops_at_bound() {
    assert_eq!(bounded_add(0, 1, 3), 1);
    assert_eq!(bounded_add(2, 1, 3), 3);
    assert_eq!(bounded_add(3, 1, 3), 3);
    assert_eq!(bounded_add(5, 1, 3), 5);
    assert_eq!(bounded_add(usize::MAX - 1, 5, usize::MAX), usize::MAX);
    assert_eq!(bounded_add(0, 1, 0), 0);
}
