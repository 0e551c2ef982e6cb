use redmine_new_branch::issue::{IdProperty, Issue, NamedProperty, NamingError};
use redmine_new_branch::client::issue_url;
use redmine_new_branch::resolver::{
    chosen_base, find_branch, find_containing, local_ref_of, resolve, resolve_base, single_remote,
    BaseReason, RemoteError, Resolution,
};

fn branches(names: &[&str]) -> Vec<String> {
    names.iter().map(|n| String::from(*n)).collect()
}

fn sample(parent: Option<i32>) -> Issue {
    Issue {
        id: 42,
        subject: String::from("[Do] stuff \"asap\""),
        assigned_to: NamedProperty { id: 220, name: String::from("Arnold Bcon Tran") },
        fixed_version: NamedProperty { id: 318, name: String::from("8.1.0") },
        custom_fields: vec![],
        parent: parent.map(|id| IdProperty { id }),
    }
}

#[test]
fn head_on_branch_short_circuits() {
    let all = branches(&["origin/master", "origin/wab-8.1", "origin/rd-42-abc-8.1-do-stuff-asap"]);
    let r = resolve_base(&sample(Some(7)), "origin", "refs/heads/rd-42-abc-8.1-do-stuff-asap", &all);
    assert_eq!(r, Ok(Resolution::AlreadyOnBranch));
}

#[test]
fn existing_ticket_branch_short_circuits() {
    let all = branches(&["origin/master", "origin/wab-8.1", "origin/rd-42-xyz", "origin/x42"]);
    let r = resolve_base(&sample(None), "origin", "refs/heads/master", &all);
    assert_eq!(r, Ok(Resolution::TicketBranchExists { existing: String::from("origin/rd-42-xyz") }));
}

#[test]
fn ticket_id_matches_as_substring() {
    let all = branches(&["origin/master", "origin/rd-1421-abc"]);
    let r = resolve_base(&sample(None), "origin", "refs/heads/master", &all);
    assert_eq!(
        r,
        Ok(Resolution::TicketBranchExists { existing: String::from("origin/rd-1421-abc") })
    );
}

#[test]
fn maintenance_branch_is_preferred() {
    let all = branches(&["origin/master", "origin/rd-7-abc", "origin/wab-8.1"]);
    let r = resolve_base(&sample(Some(7)), "origin", "refs/heads/master", &all);
    assert_eq!(
        r,
        Ok(Resolution::Base {
            source: String::from("origin/wab-8.1"),
            why: BaseReason::Maintenance,
        })
    );
}

#[test]
fn maintenance_branch_of_another_version_is_ignored() {
    let all = branches(&["origin/master", "origin/wab-8.0", "origin/wab-8.10"]);
    let r = resolve_base(&sample(None), "origin", "refs/heads/master", &all);
    assert_eq!(
        r,
        Ok(Resolution::Base { source: String::from("origin/master"), why: BaseReason::NoParent })
    );
}

#[test]
fn parent_branch_gives_a_choice() {
    let all = branches(&["origin/master", "origin/rd-7-abc", "origin/rd-17-def"]);
    let r = resolve_base(&sample(Some(7)), "origin", "refs/heads/master", &all);
    assert_eq!(
        r,
        Ok(Resolution::Choice {
            default_base: String::from("origin/master"),
            parent_branch: String::from("origin/rd-7-abc"),
        })
    );
}

#[test]
fn parent_without_branch_keeps_default() {
    let all = branches(&["origin/master", "origin/rd-8-abc"]);
    let r = resolve_base(&sample(Some(7)), "origin", "refs/heads/master", &all);
    assert_eq!(
        r,
        Ok(Resolution::Base {
            source: String::from("origin/master"),
            why: BaseReason::ParentWithoutBranch,
        })
    );
}

#[test]
fn no_parent_keeps_default_even_without_branches() {
    let r = resolve_base(&sample(None), "upstream", "refs/heads/master", &branches(&[]));
    assert_eq!(
        r,
        Ok(Resolution::Base { source: String::from("upstream/master"), why: BaseReason::NoParent })
    );
}

#[test]
fn naming_error_stops_resolution() {
    let mut i = sample(None);
    i.assigned_to.name = String::from("tata");
    let r = resolve_base(&i, "origin", "refs/heads/master", &branches(&["origin/master"]));
    assert_eq!(r, Err(NamingError::UnreadableTrigram));
}

#[test]
fn resolve_on_plain_values() {
    let all = branches(&["o/master", "o/wab-1.2"]);
    assert_eq!(
        resolve("rd-5-abc-1.2-s", 5, None, "1.2", "o", "refs/heads/dev", &all),
        Resolution::Base { source: String::from("o/wab-1.2"), why: BaseReason::Maintenance }
    );
    assert_eq!(
        resolve("rd-5-abc-1.2-s", 5, None, "1.3", "o", "refs/heads/dev", &all),
        Resolution::Base { source: String::from("o/master"), why: BaseReason::NoParent }
    );
    assert_eq!(
        resolve("rd-5-abc-1.2-s", 5, None, "1.2", "o", "rd-5-abc-1.2-s", &all),
        Resolution::AlreadyOnBranch
    );
    assert_eq!(
        resolve("rd-2-abc-1.2-s", 2, None, "1.2", "o", "refs/heads/dev", &all),
        Resolution::TicketBranchExists { existing: String::from("o/wab-1.2") }
    );
    assert_eq!(
        resolve("rd--3-abc-9.9-s", -3, Some(1), "9.9", "o", "refs/heads/dev", &all),
        Resolution::Choice {
            default_base: String::from("o/master"),
            parent_branch: String::from("o/wab-1.2"),
        }
    );
}

#[test]
fn chosen_base_follows_selection() {
    assert_eq!(chosen_base("origin/master", "origin/rd-7", 0), Some(String::from("origin/master")));
    assert_eq!(chosen_base("origin/master", "origin/rd-7", 1), Some(String::from("origin/rd-7")));
    assert_eq!(chosen_base("origin/master", "origin/rd-7", 2), None);
}

#[test]
fn single_remote_wants_exactly_one() {
    assert_eq!(single_remote(&vec![]), Err(RemoteError::NotExactlyOne));
    assert_eq!(
        single_remote(&vec![Some(String::from("a")), Some(String::from("b"))]),
        Err(RemoteError::NotExactlyOne)
    );
    assert_eq!(single_remote(&vec![Some(String::from("upstream"))]), Ok(String::from("upstream")));
    assert_eq!(single_remote(&vec![None]), Ok(String::from("origin")));
}

#[test]
fn find_branch_wants_the_whole_name() {
    let all = branches(&["origin/master2", "origin/master", "origin/master"]);
    assert_eq!(find_branch(&all, &String::from("origin/master")), Some(1));
    assert_eq!(find_branch(&all, &String::from("master")), None);
    assert_eq!(find_branch(&branches(&[]), &String::from("master")), None);
}

#[test]
fn find_containing_gives_the_first() {
    let all = branches(&["origin/master", "origin/rd-12", "origin/rd-1"]);
    let one: Vec<char> = "1".chars().collect();
    let nine: Vec<char> = "9".chars().collect();
    assert_eq!(find_containing(&all, &one), Some(1));
    assert_eq!(find_containing(&all, &nine), None);
}

#[test]
fn local_ref_is_under_heads() {
    assert_eq!(local_ref_of("rd-42-abc-8.1-do-stuff-asap"), "refs/heads/rd-42-abc-8.1-do-stuff-asap");
    assert_eq!(local_ref_of(""), "refs/heads/");
}

#[test]
fn created_branch_short_circuits_next_run() {
    let i = sample(Some(7));
    let name = i.get_branch_name().unwrap();
    let all = branches(&["origin/master", "origin/wab-8.1", "origin/rd-7-abc"]);
    assert_eq!(
        resolve_base(&i, "origin", &local_ref_of(&name), &all),
        Ok(Resolution::AlreadyOnBranch)
    );
}

#[test]
fn issue_url_names_host_and_ticket() {
    assert_eq!(
        issue_url("redmine.corp.wallix.com", 26968),
        "https://redmine.corp.wallix.com/issues/26968.json"
    );
    assert_eq!(issue_url("t", 0), "https://t/issues/0.json");
    assert_eq!(issue_url("t", -5), "https://t/issues/-5.json");
    assert_eq!(
        issue_url("t", i64::MIN),
        "https://t/issues/-9223372036854775808.json"
    );
    assert_eq!(issue_url("t", i64::MAX), "https://t/issues/9223372036854775807.json");
}
