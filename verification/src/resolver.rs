//! Which remote branch a new ticket branch starts from.

use crate::issue::{branch_name, target_version_of, Issue, NamingError};
use crate::text::{chars_of, contains, decimal, decimal_of, ends_with, has_end, has_part};
use vstd::prelude::*;
use vstd::string::StringExecFns;

verus! {

/// What is to be done for a ticket, given the state of the repository.
#[derive(Debug, PartialEq, Eq)]
pub enum Resolution {
    /// HEAD is already on the ticket's branch: nothing to do.
    AlreadyOnBranch,
    /// A remote branch already carries the ticket's id: nothing to do.
    TicketBranchExists { existing: String },
    /// The new branch starts from `source`, for the reason `why`.
    Base { source: String, why: BaseReason },
    /// The ticket has a parent with a branch of its own: the user chooses
    /// between `default_base`, at index 0, and `parent_branch`, at index 1.
    Choice { default_base: String, parent_branch: String },
}

/// Why a base was picked without asking.
#[derive(Debug, Clone, Copy, PartialEq, Eq, Structural)]
pub enum BaseReason {
    /// The maintenance branch of the target version exists.
    Maintenance,
    /// The ticket has no parent: the default base.
    NoParent,
    /// No remote branch carries the parent's id: the default base.
    ParentWithoutBranch,
}

/// A `Resolution` over character sequences.
pub enum ResolutionModel {
    AlreadyOnBranch,
    TicketBranchExists { existing: Seq<char> },
    Base { source: Seq<char>, why: BaseReason },
    Choice { default_base: Seq<char>, parent_branch: Seq<char> },
}

impl View for Resolution {
    type V = ResolutionModel;

    open spec fn view(&self) -> ResolutionModel {
        match *self {
            Resolution::AlreadyOnBranch => ResolutionModel::AlreadyOnBranch,
            Resolution::TicketBranchExists { existing } => ResolutionModel::TicketBranchExists {
                existing: existing@,
            },
            Resolution::Base { source, why } => ResolutionModel::Base { source: source@, why },
            Resolution::Choice { default_base, parent_branch } => ResolutionModel::Choice {
                default_base: default_base@,
                parent_branch: parent_branch@,
            },
        }
    }
}

/// Why no remote can be picked.
#[derive(Debug, Clone, Copy, PartialEq, Eq, Structural)]
pub enum RemoteError {
    /// The repository has no remote, or more than one.
    NotExactlyOne,
}

/// The names of a list of branches.
pub open spec fn names(branches: Seq<String>) -> Seq<Seq<char>> {
    branches.map_values(|b: String| b@)
}

/// The index of the first branch at or after `from` whose name contains
/// `needle`. The needle may stand anywhere in the name: the digits of an id
/// are also found inside a longer number.
pub open spec fn first_containing(branches: Seq<Seq<char>>, needle: Seq<char>, from: int) -> Option<
    int,
>
    decreases branches.len() - from,
{
    if from < 0 || from >= branches.len() {
        None
    } else if contains(branches[from], needle) {
        Some(from)
    } else {
        first_containing(branches, needle, from + 1)
    }
}

/// The index of the first branch at or after `from` whose name is `name`.
pub open spec fn first_named(branches: Seq<Seq<char>>, name: Seq<char>, from: int) -> Option<int>
    decreases branches.len() - from,
{
    if from < 0 || from >= branches.len() {
        None
    } else if branches[from] == name {
        Some(from)
    } else {
        first_named(branches, name, from + 1)
    }
}

/// The default base on a remote: its `master`.
pub open spec fn default_base(remote: Seq<char>) -> Seq<char> {
    remote + "/master"@
}

/// The maintenance branch of a target version on a remote.
pub open spec fn maintenance_branch(remote: Seq<char>, version: Seq<char>) -> Seq<char> {
    remote + "/wab-"@ + version
}

/// The full reference name of a local branch.
pub open spec fn local_ref(name: Seq<char>) -> Seq<char> {
    "refs/heads/"@ + name
}

/// The base when HEAD is elsewhere and no branch carries the ticket's id: the
/// maintenance branch where it exists; else a choice where the parent has a
/// branch; else the default base.
pub open spec fn base_for(
    parent: Option<int>,
    version: Seq<char>,
    remote: Seq<char>,
    branches: Seq<Seq<char>>,
) -> ResolutionModel {
    if first_named(branches, maintenance_branch(remote, version), 0) is Some {
        ResolutionModel::Base {
            source: maintenance_branch(remote, version),
            why: BaseReason::Maintenance,
        }
    } else {
        match parent {
            Some(p) => match first_containing(branches, decimal(p), 0) {
                Some(i) => ResolutionModel::Choice {
                    default_base: default_base(remote),
                    parent_branch: branches[i],
                },
                None => ResolutionModel::Base {
                    source: default_base(remote),
                    why: BaseReason::ParentWithoutBranch,
                },
            },
            None => ResolutionModel::Base {
                source: default_base(remote),
                why: BaseReason::NoParent,
            },
        }
    }
}

/// The resolution for a ticket whose branch is to be called `name`.
pub open spec fn resolution(
    name: Seq<char>,
    id: int,
    parent: Option<int>,
    version: Seq<char>,
    remote: Seq<char>,
    head: Seq<char>,
    branches: Seq<Seq<char>>,
) -> ResolutionModel {
    if ends_with(head, name) {
        ResolutionModel::AlreadyOnBranch
    } else {
        match first_containing(branches, decimal(id), 0) {
            Some(i) => ResolutionModel::TicketBranchExists { existing: branches[i] },
            None => base_for(parent, version, remote, branches),
        }
    }
}

/// What `first_containing` finds is the least position at or after `from`
/// that contains the needle, and it finds none only where there is none.
pub proof fn lemma_first_containing(branches: Seq<Seq<char>>, needle: Seq<char>, from: int)
    requires
        0 <= from,
    ensures
        match first_containing(branches, needle, from) {
            Some(i) => from <= i < branches.len() && contains(branches[i], needle) && forall|
                j: int,
            |
                from <= j < i ==> !contains(#[trigger] branches[j], needle),
            None => forall|j: int|
                from <= j < branches.len() ==> !contains(#[trigger] branches[j], needle),
        },
    decreases branches.len() - from,
{
    if from < branches.len() && !contains(branches[from], needle) {
        lemma_first_containing(branches, needle, from + 1);
    }
}

/// What `first_named` finds is the least position at or after `from` with
/// that name, and it finds none only where there is none.
pub proof fn lemma_first_named(branches: Seq<Seq<char>>, name: Seq<char>, from: int)
    requires
        0 <= from,
    ensures
        match first_named(branches, name, from) {
            Some(i) => from <= i < branches.len() && branches[i] == name && forall|j: int|
                from <= j < i ==> #[trigger] branches[j] != name,
            None => forall|j: int| from <= j < branches.len() ==> #[trigger] branches[j] != name,
        },
    decreases branches.len() - from,
{
    if from < branches.len() && branches[from] != name {
        lemma_first_named(branches, name, from + 1);
    }
}

/// When HEAD already ends with the branch's name, nothing is created,
/// whatever the remote branches are.
pub proof fn lemma_head_on_branch_short_circuits(
    name: Seq<char>,
    id: int,
    parent: Option<int>,
    version: Seq<char>,
    remote: Seq<char>,
    head: Seq<char>,
    branches: Seq<Seq<char>>,
)
    requires
        ends_with(head, name),
    ensures
        resolution(name, id, parent, version, remote, head, branches)
            == ResolutionModel::AlreadyOnBranch,
{
}

/// Once the branch has been created and HEAD set to it, resolving again
/// finds nothing to do.
pub proof fn lemma_created_branch_short_circuits(
    name: Seq<char>,
    id: int,
    parent: Option<int>,
    version: Seq<char>,
    remote: Seq<char>,
    branches: Seq<Seq<char>>,
)
    ensures
        resolution(name, id, parent, version, remote, local_ref(name), branches)
            == ResolutionModel::AlreadyOnBranch,
{
    let head = local_ref(name);
    assert(head.subrange(head.len() - name.len(), head.len() as int) =~= name);
}

/// When some remote branch contains the ticket's id, no base is chosen:
/// either HEAD is already on the branch, or the first such branch is
/// reported.
pub proof fn lemma_ticket_branch_short_circuits(
    name: Seq<char>,
    id: int,
    parent: Option<int>,
    version: Seq<char>,
    remote: Seq<char>,
    head: Seq<char>,
    branches: Seq<Seq<char>>,
    k: int,
)
    requires
        0 <= k < branches.len(),
        contains(branches[k], decimal(id)),
    ensures
        match resolution(name, id, parent, version, remote, head, branches) {
            ResolutionModel::AlreadyOnBranch => ends_with(head, name),
            ResolutionModel::TicketBranchExists { existing } => !ends_with(head, name)
                && contains(existing, decimal(id)),
            _ => false,
        },
{
    lemma_first_containing(branches, decimal(id), 0);
}

/// Where nothing short-circuits and the maintenance branch of the target
/// version is among the remote branches, it is the base, whether or not the
/// ticket has a parent.
pub proof fn lemma_maintenance_branch_preferred(
    name: Seq<char>,
    id: int,
    parent: Option<int>,
    version: Seq<char>,
    remote: Seq<char>,
    head: Seq<char>,
    branches: Seq<Seq<char>>,
    k: int,
)
    requires
        !ends_with(head, name),
        forall|j: int| 0 <= j < branches.len() ==> !contains(#[trigger] branches[j], decimal(id)),
        0 <= k < branches.len(),
        branches[k] == maintenance_branch(remote, version),
    ensures
        resolution(name, id, parent, version, remote, head, branches) == (ResolutionModel::Base {
            source: maintenance_branch(remote, version),
            why: BaseReason::Maintenance,
        }),
{
    lemma_first_containing(branches, decimal(id), 0);
    lemma_first_named(branches, maintenance_branch(remote, version), 0);
}

/// The one remote of a repository, when it has exactly one. A remote whose
/// name cannot be read counts as `origin`.
pub open spec fn remote_of(remotes: Seq<Option<String>>) -> Result<Seq<char>, RemoteError> {
    if remotes.len() != 1 {
        Err(RemoteError::NotExactlyOne)
    } else {
        match remotes[0] {
            Some(n) => Ok(n@),
            None => Ok("origin"@),
        }
    }
}

/// The base chosen at a `Choice`: the default base at index 0, the parent's
/// branch at index 1, none at any other index.
pub open spec fn chosen(default_base: Seq<char>, parent_branch: Seq<char>, selection: int) -> Option<
    Seq<char>,
> {
    if selection == 0 {
        Some(default_base)
    } else if selection == 1 {
        Some(parent_branch)
    } else {
        None
    }
}

/// The position of the first branch whose name contains `needle`.
pub fn find_containing(branches: &Vec<String>, needle: &Vec<char>) -> (r: Option<usize>)
    ensures
        match r {
            Some(i) => i < branches.len() && first_containing(names(branches@), needle@, 0)
                == Some(i as int),
            None => first_containing(names(branches@), needle@, 0) is None,
        },
{
    let mut i: usize = 0;
    while i < branches.len()
        invariant
            i <= branches.len(),
            first_containing(names(branches@), needle@, 0) == first_containing(
                names(branches@),
                needle@,
                i as int,
            ),
        decreases branches.len() - i,
    {
        let hay = chars_of(branches[i].as_str());
        assert(names(branches@)[i as int] == hay@);
        if has_part(&hay, needle) {
            return Some(i);
        }
        i += 1;
    }
    None
}

/// The position of the first branch whose name is `name`.
pub fn find_branch(branches: &Vec<String>, name: &String) -> (r: Option<usize>)
    ensures
        match r {
            Some(i) => i < branches.len() && first_named(names(branches@), name@, 0) == Some(
                i as int,
            ),
            None => first_named(names(branches@), name@, 0) is None,
        },
{
    let mut i: usize = 0;
    while i < branches.len()
        invariant
            i <= branches.len(),
            first_named(names(branches@), name@, 0) == first_named(
                names(branches@),
                name@,
                i as int,
            ),
        decreases branches.len() - i,
    {
        assert(names(branches@)[i as int] == branches@[i as int]@);
        if branches[i] == *name {
            return Some(i);
        }
        i += 1;
    }
    None
}

/// The one remote of a repository.
pub fn single_remote(remotes: &Vec<Option<String>>) -> (r: Result<String, RemoteError>)
    ensures
        match remote_of(remotes@) {
            Ok(name) => r matches Ok(n) && n@ == name,
            Err(e) => r == Err::<String, RemoteError>(e),
        },
{
    if remotes.len() != 1 {
        return Err(RemoteError::NotExactlyOne);
    }
    match &remotes[0] {
        Some(n) => Ok(n.clone()),
        None => Ok(String::from_str("origin")),
    }
}

/// Decides what is to be done for a ticket whose branch is to be called
/// `name`, from HEAD's reference name and the remote branches.
pub fn resolve(
    name: &str,
    id: i32,
    parent: Option<i32>,
    version: &str,
    remote: &str,
    head: &str,
    branches: &Vec<String>,
) -> (r: Resolution)
    ensures
        r@ == resolution(
            name@,
            id as int,
            match parent {
                Some(p) => Some(p as int),
                None => None,
            },
            version@,
            remote@,
            head@,
            names(branches@),
        ),
{
    let head_chars = chars_of(head);
    let name_chars = chars_of(name);
    if has_end(&head_chars, &name_chars) {
        return Resolution::AlreadyOnBranch;
    }
    let id_text = decimal_of(id as i64);
    if let Some(i) = find_containing(branches, &id_text) {
        return Resolution::TicketBranchExists { existing: branches[i].clone() };
    }
    let mut maintenance = String::from_str(remote);
    maintenance.append("/wab-");
    maintenance.append(version);
    if find_branch(branches, &maintenance).is_some() {
        return Resolution::Base { source: maintenance, why: BaseReason::Maintenance };
    }
    let mut master = String::from_str(remote);
    master.append("/master");
    match parent {
        Some(p) => {
            let parent_text = decimal_of(p as i64);
            match find_containing(branches, &parent_text) {
                Some(i) => Resolution::Choice {
                    default_base: master,
                    parent_branch: branches[i].clone(),
                },
                None => Resolution::Base { source: master, why: BaseReason::ParentWithoutBranch },
            }
        },
        None => Resolution::Base { source: master, why: BaseReason::NoParent },
    }
}

/// Decides what is to be done for an issue: derives its branch name and
/// target version, then resolves.
pub fn resolve_base(issue: &Issue, remote: &str, head: &str, branches: &Vec<String>) -> (r: Result<
    Resolution,
    NamingError,
>)
    ensures
        match branch_name(issue@) {
            Ok(name) => r matches Ok(res) && res@ == resolution(
                name,
                issue@.id,
                issue@.parent,
                target_version_of(issue@.version).unwrap(),
                remote@,
                head@,
                names(branches@),
            ),
            Err(e) => r == Err::<Resolution, NamingError>(e),
        },
{
    let name = match issue.get_branch_name() {
        Ok(n) => n,
        Err(e) => {
            return Err(e);
        },
    };
    let version = match issue.target_version() {
        Ok(v) => v,
        Err(e) => {
            return Err(e);
        },
    };
    let parent = match &issue.parent {
        Some(p) => Some(p.id),
        None => None,
    };
    Ok(resolve(name.as_str(), issue.id, parent, version.as_str(), remote, head, branches))
}

/// The reference name under which a new local branch is checked out and
/// made HEAD.
pub fn local_ref_of(name: &str) -> (r: String)
    ensures
        r@ == local_ref(name@),
{
    let mut r = String::from_str("refs/heads/");
    r.append(name);
    r
}

/// The base the user chose at a `Choice`.
pub fn chosen_base(default_base: &str, parent_branch: &str, selection: usize) -> (r: Option<String>)
    ensures
        match chosen(default_base@, parent_branch@, selection as int) {
            Some(base) => r matches Some(s) && s@ == base,
            None => r is None,
        },
{
    if selection == 0 {
        Some(String::from_str(default_base))
    } else if selection == 1 {
        Some(String::from_str(parent_branch))
    } else {
        None
    }
}

} // verus!
