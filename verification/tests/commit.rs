use conventional_commits_types::Commit;
use conventional_commits_types::Footer;
use conventional_commits_types::FooterSeparator;
use std::collections::hash_map::DefaultHasher;
use std::hash::Hash;
use std::hash::Hasher;

fn commit_hash(commit: &Commit<'_>) -> u64 {
    let mut hasher = DefaultHasher::new();
    commit.hash(&mut hasher);
    hasher.finish()
}

fn reviewed() -> Footer<'static> {
    Footer::from("Reviewed-by", FooterSeparator::ColonSpace, "alice")
}

fn fixes() -> Footer<'static> {
    Footer::from("Fixes", FooterSeparator::SpaceHashTag, "123")
}

fn sample<'a>(footers: Vec<Footer<'a>>) -> Commit<'a> {
    Commit::from("feat", Some("parser"), "add support", Some("A longer text."), false, footers)
}

#[test]
fn commit_new_is_the_default() {
    let commit = Commit::new();
    assert_eq!(commit.ty, "");
    assert_eq!(commit.scope, None);
    assert_eq!(commit.desc, "");
    assert_eq!(commit.body, None);
    assert!(!commit.is_breaking_change);
    assert!(commit.footer.is_empty());
    assert_eq!(commit, Commit::default());
}

#[test]
fn commit_from_keeps_the_values_in_their_places() {
    let commit = Commit::from(
        "fix",
        Some("lexer"),
        "handle tabs",
        Some("Tabs were read as spaces."),
        true,
        vec![fixes(), reviewed()],
    );
    assert_eq!(commit.ty, "fix");
    assert_eq!(commit.scope, Some("lexer"));
    assert_eq!(commit.desc, "handle tabs");
    assert_eq!(commit.body, Some("Tabs were read as spaces."));
    assert!(commit.is_breaking_change);
    assert_eq!(commit.footer.len(), 2);
    assert_eq!(commit.footer[0], fixes());
    assert_eq!(commit.footer[1], reviewed());
}

#[test]
fn commit_from_accepts_empty_type_and_description() {
    let commit = Commit::from("", None, "", None, false, Vec::new());
    assert_eq!(commit, Commit::new());
}

#[test]
fn commit_tells_an_absent_scope_from_an_empty_one() {
    let absent = Commit::from("feat", None, "add support", None, false, Vec::new());
    let empty = Commit::from("feat", Some(""), "add support", None, false, Vec::new());
    assert_ne!(absent, empty);
    let empty_body = Commit::from("feat", None, "add support", Some(""), false, Vec::new());
    assert_ne!(absent, empty_body);
}

#[test]
fn commits_built_alike_are_equal_and_the_flag_counts() {
    let first = Commit::from("feat", Some("parser"), "add support", None, false, vec![reviewed()]);
    let description = String::from("add support");
    let second = Commit::from(
        "feat",
        Some("parser"),
        &description,
        None,
        false,
        vec![Footer::from("Reviewed-by", FooterSeparator::ColonSpace, "alice")],
    );
    assert_eq!(first, second);
    let breaking = Commit::from("feat", Some("parser"), "add support", None, true, vec![reviewed()]);
    assert_ne!(first, breaking);
}

#[test]
fn changing_one_field_of_a_commit_breaks_equality() {
    let base = sample(vec![reviewed()]);
    assert_eq!(base, sample(vec![reviewed()]));
    assert_ne!(
        base,
        Commit::from("fix", Some("parser"), "add support", Some("A longer text."), false, vec![reviewed()])
    );
    assert_ne!(
        base,
        Commit::from("feat", Some("lexer"), "add support", Some("A longer text."), false, vec![reviewed()])
    );
    assert_ne!(
        base,
        Commit::from("feat", None, "add support", Some("A longer text."), false, vec![reviewed()])
    );
    assert_ne!(
        base,
        Commit::from("feat", Some("parser"), "drop support", Some("A longer text."), false, vec![reviewed()])
    );
    assert_ne!(
        base,
        Commit::from("feat", Some("parser"), "add support", Some("Another text."), false, vec![reviewed()])
    );
    assert_ne!(
        base,
        Commit::from("feat", Some("parser"), "add support", None, false, vec![reviewed()])
    );
    assert_ne!(
        base,
        Commit::from("feat", Some("parser"), "add support", Some("A longer text."), true, vec![reviewed()])
    );
    assert_ne!(base, sample(vec![fixes()]));
    assert_ne!(base, sample(Vec::new()));
    assert_ne!(base, sample(vec![reviewed(), reviewed()]));
}

#[test]
fn the_order_of_the_footers_counts() {
    let forward = sample(vec![reviewed(), fixes()]);
    let backward = sample(vec![fixes(), reviewed()]);
    assert_ne!(forward, backward);
    assert_eq!(forward, sample(vec![reviewed(), fixes()]));
}

#[test]
fn footers_differing_at_the_last_place_are_found() {
    let long = sample(vec![reviewed(), reviewed(), fixes()]);
    let other = sample(vec![reviewed(), reviewed(), reviewed()]);
    assert_ne!(long, other);
}

#[test]
fn equal_commits_have_equal_hashes() {
    let first = sample(vec![reviewed(), fixes()]);
    let scope = String::from("parser");
    let second = Commit::from(
        "feat",
        Some(&scope),
        "add support",
        Some("A longer text."),
        false,
        vec![reviewed(), fixes()],
    );
    assert_eq!(first, second);
    assert_eq!(commit_hash(&first), commit_hash(&second));
    assert_eq!(commit_hash(&Commit::new()), commit_hash(&Commit::default()));
}

#[test]
fn a_commit_keeps_its_footers_when_the_callers_list_changes() {
    let mut list = vec![reviewed()];
    let commit = sample(list.clone());
    list.push(fixes());
    list[0] = Footer::from("Signed-off-by", FooterSeparator::ColonSpace, "bob");
    assert_eq!(commit.footer.len(), 1);
    assert_eq!(commit.footer[0], reviewed());
    list.clear();
    assert_eq!(commit.footer, vec![reviewed()]);
}

#[test]
fn commit_clone_is_equal_and_independent() {
    let commit = sample(vec![reviewed(), fixes()]);
    let mut copy = commit.clone();
    assert_eq!(copy, commit);
    copy.footer.pop();
    assert_eq!(commit.footer.len(), 2);
    assert_ne!(copy, commit);
}
