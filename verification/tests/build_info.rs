use leap::build_info::{get, git_hash, BuildEnv};

fn env(authors: &'static str, commit: Option<&'static str>, dirty: Option<bool>) -> BuildEnv {
    BuildEnv {
        pkg_name: "leap-server",
        pkg_version: "0.3.1",
        pkg_authors: authors,
        pkg_homepage: "https://example.org/leap",
        pkg_license: "MIT",
        pkg_repository: "https://example.org/leap.git",
        profile: "release",
        rustc_version: "rustc 1.80.0",
        features: "default",
        git_commit_hash: commit,
        git_dirty: dirty,
    }
}

#[test]
fn authors_are_split_and_trimmed() {
    let info = get(&env(" Alice <a@x.org> :Bob\t: Carol ", None, None));
    assert_eq!(info.authors, vec!["Alice <a@x.org>", "Bob", "Carol"]);
}

#[test]
fn single_author_is_one_entry() {
    let info = get(&env("Alice", None, None));
    assert_eq!(info.authors, vec!["Alice"]);
}

#[test]
fn empty_authors_give_one_empty_entry() {
    let info = get(&env("", None, None));
    assert_eq!(info.authors, vec![""]);
    let info = get(&env("a::b:", None, None));
    assert_eq!(info.authors, vec!["a", "", "b", ""]);
}

#[test]
fn unicode_whitespace_is_trimmed() {
    let info = get(&env("\u{3000}Ünal\u{a0}:\u{2003}Zoë\n", None, None));
    assert_eq!(info.authors, vec!["Ünal", "Zoë"]);
}

#[test]
fn fields_are_copied_from_the_build() {
    let info = get(&env("A", None, None));
    assert_eq!(info.name, "leap-server");
    assert_eq!(info.version, "0.3.1");
    assert_eq!(info.homepage, "https://example.org/leap");
    assert_eq!(info.license, "MIT");
    assert_eq!(info.repository, "https://example.org/leap.git");
    assert_eq!(info.profile, "release");
    assert_eq!(info.rustc_version, "rustc 1.80.0");
    assert_eq!(info.features, "default");
    assert_eq!(info.git_hash, None);
}

#[test]
fn dirty_tree_suffixes_the_hash() {
    assert_eq!(git_hash(Some("abc123"), Some(true)), Some("abc123-dirty".to_string()));
    assert_eq!(git_hash(Some("abc123"), Some(false)), Some("abc123".to_string()));
    assert_eq!(git_hash(Some("abc123"), None), Some("abc123".to_string()));
    assert_eq!(git_hash(None, Some(true)), None);
    let info = get(&env("A", Some("deadbeef"), Some(true)));
    assert_eq!(info.git_hash, Some("deadbeef-dirty".to_string()));
}
