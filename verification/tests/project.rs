use eliza_supervisor::project::{
    manifest_declares_project, validate_project_directory, DirectorySnapshot, MANIFEST_FILE,
    NAME_FIELD_COMPACT, NAME_FIELD_SPACED, PROJECT_NAME,
};
use eliza_supervisor::text::{contains, to_chars};

fn snapshot(exists: bool, is_directory: bool, manifest: Option<&str>) -> DirectorySnapshot {
    DirectorySnapshot { exists, is_directory, manifest: manifest.map(|m| m.to_string()) }
}

#[test]
fn names_are_the_expected_ones() {
    assert_eq!(PROJECT_NAME, "trading-brain");
    assert_eq!(MANIFEST_FILE, "package.json");
    assert_eq!(NAME_FIELD_SPACED, "\"name\": \"trading-brain\"");
    assert_eq!(NAME_FIELD_COMPACT, "\"name\":\"trading-brain\"");
}

#[test]
fn manifest_with_spaced_name_field_is_accepted() {
    let s = snapshot(true, true, Some("{\n  \"name\": \"trading-brain\",\n  \"version\": \"1.0.0\"\n}"));
    assert!(validate_project_directory(&s));
}

#[test]
fn manifest_with_compact_name_field_is_accepted() {
    let s = snapshot(true, true, Some("{\"name\":\"trading-brain\",\"version\":\"1.0.0\"}"));
    assert!(validate_project_directory(&s));
}

#[test]
fn manifest_that_only_mentions_the_name_is_accepted() {
    let s = snapshot(
        true,
        true,
        Some("{\"name\":\"other\",\"dependencies\":{\"trading-brain\":\"^1\"}}"),
    );
    assert!(validate_project_directory(&s));
}

#[test]
fn manifest_without_the_name_is_rejected() {
    let s = snapshot(true, true, Some("{\"name\":\"trading-brai\",\"x\":\"rading-brain\"}"));
    assert!(!validate_project_directory(&s));
}

#[test]
fn empty_manifest_is_rejected() {
    let s = snapshot(true, true, Some(""));
    assert!(!validate_project_directory(&s));
}

#[test]
fn missing_manifest_is_rejected() {
    let s = snapshot(true, true, None);
    assert!(!validate_project_directory(&s));
}

#[test]
fn missing_path_is_rejected_whatever_the_manifest() {
    let s = snapshot(false, false, Some("\"name\": \"trading-brain\""));
    assert!(!validate_project_directory(&s));
    let s = snapshot(false, true, Some("\"name\": \"trading-brain\""));
    assert!(!validate_project_directory(&s));
}

#[test]
fn plain_file_is_rejected_whatever_the_manifest() {
    let s = snapshot(true, false, Some("\"name\": \"trading-brain\""));
    assert!(!validate_project_directory(&s));
}

#[test]
fn validity_is_the_same_on_every_call() {
    let accepted = snapshot(true, true, Some("trading-brain"));
    let rejected = snapshot(true, true, Some("trading brain"));
    for _ in 0..5 {
        assert!(validate_project_directory(&accepted));
        assert!(!validate_project_directory(&rejected));
    }
    let copy = accepted.clone();
    assert_eq!(validate_project_directory(&accepted), validate_project_directory(&copy));
    assert_eq!(accepted.manifest, copy.manifest);
}

#[test]
fn name_at_either_end_of_the_manifest_is_found() {
    assert!(manifest_declares_project("trading-brain"));
    assert!(manifest_declares_project("trading-brain and more"));
    assert!(manifest_declares_project("more and trading-brain"));
    assert!(!manifest_declares_project("trading-brai"));
    assert!(!manifest_declares_project("rading-brain"));
    assert!(!manifest_declares_project("Trading-Brain"));
    assert!(!manifest_declares_project("trading_brain"));
}

#[test]
fn name_among_other_scripts_is_found() {
    assert!(manifest_declares_project("\u{540d}\u{524d}: trading-brain \u{2713}"));
    assert!(!manifest_declares_project("\u{540d}\u{524d}: trading\u{2010}brain"));
}

#[test]
fn contains_agrees_with_the_standard_search() {
    let hays = ["", "a", "ab", "aab", "abab", "xxabxx", "trading-brain", "aaaaab"];
    let needles = ["", "a", "b", "ab", "ba", "aab", "abc", "xx", "aaab"];
    for hay in hays {
        for needle in needles {
            assert_eq!(
                contains(&to_chars(hay), &to_chars(needle)),
                hay.contains(needle),
                "{:?} in {:?}",
                needle,
                hay
            );
        }
    }
}

#[test]
fn to_chars_gives_every_character_in_order() {
    assert_eq!(to_chars(""), Vec::<char>::new());
    assert_eq!(to_chars("a-b"), vec!['a', '-', 'b']);
    assert_eq!(to_chars("\u{e9}t\u{e9}"), vec!['\u{e9}', 't', '\u{e9}']);
}
