use repo_backup::repository::{filter_logins, get_owner_repos, Owner, Repository};

fn owner(login: &str) -> Owner {
    Owner { login: login.to_string() }
}

fn repo(login: &str, name: &str, branch: &str) -> Repository {
    Repository { owner: owner(login), name: name.to_string(), default_branch: branch.to_string() }
}

fn names(list: &[Repository]) -> Vec<String> {
    list.iter().map(|r| r.name.clone()).collect()
}

#[test]
fn filter_keeps_the_owned_in_order() {
    let list = vec![
        repo("alice", "first", "main"),
        repo("bob", "second", "main"),
        repo("alice", "third", "trunk"),
    ];
    let kept = filter_logins(list, owner("alice"));
    assert_eq!(kept, vec![repo("alice", "first", "main"), repo("alice", "third", "trunk")]);
}

#[test]
fn filter_of_an_empty_list_is_empty() {
    let kept = filter_logins(Vec::new(), owner("alice"));
    assert!(kept.is_empty());
}

#[test]
fn filter_drops_all_when_none_is_owned() {
    let list = vec![repo("bob", "a", "main"), repo("carol", "b", "main")];
    assert!(filter_logins(list, owner("alice")).is_empty());
}

#[test]
fn filter_keeps_all_when_all_are_owned() {
    let list = vec![repo("alice", "a", "main"), repo("alice", "b", "dev")];
    let kept = filter_logins(list, owner("alice"));
    assert_eq!(names(&kept), vec!["a".to_string(), "b".to_string()]);
}

#[test]
fn filter_compares_logins_exactly() {
    let list = vec![
        repo("Alice", "upper", "main"),
        repo("alice ", "padded", "main"),
        repo("alic", "short", "main"),
        repo("alice", "exact", "main"),
    ];
    let kept = filter_logins(list, owner("alice"));
    assert_eq!(names(&kept), vec!["exact".to_string()]);
}

#[test]
fn filter_keeps_duplicates() {
    let list = vec![
        repo("alice", "same", "main"),
        repo("bob", "other", "main"),
        repo("alice", "same", "main"),
    ];
    let kept = filter_logins(list, owner("alice"));
    assert_eq!(kept, vec![repo("alice", "same", "main"), repo("alice", "same", "main")]);
}

#[test]
fn filter_result_is_an_ordered_selection() {
    let logins = ["a", "b", "a", "c", "a", "b", "b", "a"];
    let list: Vec<Repository> =
        logins.iter().enumerate().map(|(i, l)| repo(l, &format!("r{}", i), "main")).collect();
    let kept = filter_logins(list.clone(), owner("a"));
    let expected: Vec<Repository> =
        list.iter().filter(|r| r.owner.login == "a").cloned().collect();
    assert_eq!(kept, expected);
    assert_eq!(
        names(&kept),
        vec!["r0".to_string(), "r2".to_string(), "r4".to_string(), "r7".to_string()]
    );
}

#[test]
fn own_repositories_only_by_default() {
    let list = vec![
        repo("alice", "first", "main"),
        repo("bob", "second", "main"),
        repo("alice", "third", "main"),
    ];
    let chosen = get_owner_repos(false, owner("alice"), list);
    assert_eq!(names(&chosen), vec!["first".to_string(), "third".to_string()]);
}

#[test]
fn allowing_others_returns_the_listing_unchanged() {
    let list = vec![
        repo("alice", "first", "main"),
        repo("bob", "second", "main"),
        repo("alice", "third", "main"),
    ];
    let chosen = get_owner_repos(true, owner("alice"), list.clone());
    assert_eq!(chosen, list);
}

#[test]
fn clones_are_equal() {
    let first = repo("alice", "first", "main");
    assert_eq!(first.clone(), first);
    assert_eq!(owner("bob").clone(), owner("bob"));
}
