//! Tracker issues and the branch name derived from one.

use crate::outside::{
    diacritics_removed, lowercase, regex_accepts, regex_replace_all, regex_replaced,
    remove_diacritics, white_space,
};
use crate::text::{chars_of, decimal, decimal_of, string_of};
use vstd::prelude::*;
use vstd::string::StringExecFns;

verus! {

/// A reference to another record of the tracker.
#[derive(Debug, PartialEq, Eq)]
pub struct IdProperty {
    pub id: i32,
}

/// A record of the tracker with its display name.
#[derive(Debug, PartialEq, Eq)]
pub struct NamedProperty {
    pub id: i32,
    pub name: String,
}

/// A custom field of an issue; its value may be absent.
#[derive(Debug, PartialEq, Eq)]
pub struct NamedPropertyWithOptionValue {
    pub id: i32,
    pub name: String,
    pub value: Option<String>,
}

/// One issue as the tracker reports it.
#[derive(Debug, PartialEq, Eq)]
pub struct Issue {
    pub id: i32,
    pub subject: String,
    pub fixed_version: NamedProperty,
    pub assigned_to: NamedProperty,
    pub custom_fields: Vec<NamedPropertyWithOptionValue>,
    pub parent: Option<IdProperty>,
}

/// The envelope in which the tracker delivers an issue.
#[derive(Debug, PartialEq, Eq)]
pub struct Ticket {
    pub issue: Issue,
}

/// Why no branch name can be derived from an issue.
#[derive(Debug, Clone, Copy, PartialEq, Eq, Structural)]
pub enum NamingError {
    /// The assignee's name does not give one character, a space, and two
    /// more characters of a second word.
    UnreadableTrigram,
    /// The fixed version's name has fewer than three characters.
    VersionTooShort,
    /// The regular expression engine refused one of the cleanup patterns.
    PatternRejected,
}

/// What the naming and resolution rules read of an issue.
pub struct IssueModel {
    pub id: int,
    pub subject: Seq<char>,
    pub version: Seq<char>,
    pub assignee: Seq<char>,
    pub parent: Option<int>,
}

impl View for Issue {
    type V = IssueModel;

    open spec fn view(&self) -> IssueModel {
        IssueModel {
            id: self.id as int,
            subject: self.subject@,
            version: self.fixed_version.name@,
            assignee: self.assigned_to.name@,
            parent: match self.parent {
                Some(p) => Some(p.id as int),
                None => None,
            },
        }
    }
}

/// `s` without its leading and trailing whitespace.
pub open spec fn trimmed(s: Seq<char>) -> Seq<char>
    decreases s.len(),
{
    if s.len() == 0 {
        s
    } else if white_space(s[0]) {
        trimmed(s.drop_first())
    } else if white_space(s.last()) {
        trimmed(s.drop_last())
    } else {
        s
    }
}

/// A space becomes a hyphen and a colon an equals sign; any other character
/// stays.
pub open spec fn swapped(c: char) -> char {
    if c == ' ' {
        '-'
    } else if c == ':' {
        '='
    } else {
        c
    }
}

/// `s` with every character swapped.
pub open spec fn hyphenated(s: Seq<char>) -> Seq<char> {
    s.map_values(|c: char| swapped(c))
}

/// The pattern of a run of hyphens.
pub open spec fn hyphen_run() -> Seq<char> {
    "-+"@
}

/// The pattern of a run of brackets, quotes and parentheses.
pub open spec fn forbidden_run() -> Seq<char> {
    "[\\[\\]\"'\\)\\()]*"@
}

/// Whether the regular expression engine compiles both cleanup patterns.
pub open spec fn patterns_accepted() -> bool {
    regex_accepts(hyphen_run()) && regex_accepts(forbidden_run())
}

/// The last three steps of the cleanup, on text that is already trimmed,
/// hyphenated and lowercased: the regular expression engine replaces what
/// matches the hyphen-run pattern by one hyphen, then what matches the
/// forbidden-run pattern by nothing, and the diacritics are removed from
/// what is left.
pub open spec fn scrubbed(s: Seq<char>) -> Seq<char> {
    diacritics_removed(
        regex_replaced(forbidden_run(), regex_replaced(hyphen_run(), s, "-"@), ""@),
    )
}

/// The cleaned form of a subject: trimmed, hyphenated, lowercased, scrubbed.
pub open spec fn cleaned_subject(s: Seq<char>) -> Seq<char> {
    scrubbed(lowercase(hyphenated(trimmed(s))))
}

/// Whether no step of the cleanup changes `s`.
pub open spec fn settled(s: Seq<char>) -> bool {
    &&& trimmed(s) == s
    &&& hyphenated(s) == s
    &&& lowercase(s) == s
    &&& regex_replaced(hyphen_run(), s, "-"@) == s
    &&& regex_replaced(forbidden_run(), s, ""@) == s
    &&& diacritics_removed(s) == s
}

/// The number of characters of `s` before its first space.
pub open spec fn first_word_len(s: Seq<char>) -> nat
    decreases s.len(),
{
    if s.len() == 0 || s[0] == ' ' {
        0
    } else {
        1 + first_word_len(s.drop_first())
    }
}

/// The three characters a trigram is made of: the first of the first word
/// and the first two of the word after the first space. `None` where the
/// name has no space, starts with one, or has fewer than two characters
/// between its first space and the next.
pub open spec fn trigram_letters(name: Seq<char>) -> Option<Seq<char>> {
    let sp = first_word_len(name) as int;
    if 1 <= sp && sp + 2 < name.len() && name[sp + 1] != ' ' && name[sp + 2] != ' ' {
        Some(seq![name[0], name[sp + 1], name[sp + 2]])
    } else {
        None
    }
}

/// The target version of a fixed version's name: its first three characters.
pub open spec fn target_version_of(version: Seq<char>) -> Option<Seq<char>> {
    if version.len() >= 3 {
        Some(version.take(3))
    } else {
        None
    }
}

/// Whether an issue gives a trigram and a target version.
pub open spec fn nameable(m: IssueModel) -> bool {
    trigram_letters(m.assignee) is Some && target_version_of(m.version) is Some
}

/// The parts of a branch name put together.
pub open spec fn composed(
    id: int,
    trigram: Seq<char>,
    version: Seq<char>,
    subject: Seq<char>,
) -> Seq<char> {
    seq!['r', 'd', '-'] + decimal(id) + seq!['-'] + trigram + seq!['-'] + version + seq!['-']
        + subject
}

/// The branch name of an issue, or the reason why it has none. A trigram
/// that cannot be read is reported before a version that is too short, and
/// that before a refused pattern.
pub open spec fn branch_name(m: IssueModel) -> Result<Seq<char>, NamingError> {
    match (trigram_letters(m.assignee), target_version_of(m.version)) {
        (None, _) => Err(NamingError::UnreadableTrigram),
        (Some(_), None) => Err(NamingError::VersionTooShort),
        (Some(letters), Some(version)) => if patterns_accepted() {
            Ok(composed(m.id, lowercase(letters), version, cleaned_subject(m.subject)))
        } else {
            Err(NamingError::PatternRejected)
        },
    }
}

/// A name whose characters before position `i` are no spaces, and which ends
/// or has a space there, has a first word of `i` characters.
proof fn lemma_first_word_len(s: Seq<char>, i: int)
    requires
        0 <= i <= s.len(),
        forall|k: int| 0 <= k < i ==> s[k] != ' ',
        i == s.len() || s[i] == ' ',
    ensures
        first_word_len(s) == i,
    decreases i,
{
    if i > 0 {
        lemma_first_word_len(s.drop_first(), i - 1);
    }
}

/// Trimmed text neither starts nor ends with whitespace.
pub proof fn lemma_trimmed_ends(s: Seq<char>)
    ensures
        trimmed(s).len() > 0 ==> !white_space(trimmed(s)[0]) && !white_space(trimmed(s).last()),
    decreases s.len(),
{
    if s.len() == 0 {
    } else if white_space(s[0]) {
        lemma_trimmed_ends(s.drop_first());
    } else if white_space(s.last()) {
        lemma_trimmed_ends(s.drop_last());
    }
}

/// Trimming twice gives what trimming once gives.
pub proof fn lemma_trimmed_idempotent(s: Seq<char>)
    ensures
        trimmed(trimmed(s)) == trimmed(s),
{
    lemma_trimmed_ends(s);
}

/// Hyphenating twice gives what hyphenating once gives, and hyphenated text
/// holds neither a space nor a colon.
pub proof fn lemma_hyphenated_idempotent(s: Seq<char>)
    ensures
        hyphenated(hyphenated(s)) == hyphenated(s),
        forall|i: int|
            0 <= i < s.len() ==> (#[trigger] hyphenated(s)[i]) != ' ' && hyphenated(s)[i] != ':',
{
    assert(hyphenated(hyphenated(s)) =~= hyphenated(s));
}

/// Cleaning a settled subject leaves it as it is.
pub proof fn lemma_cleanup_keeps_settled(s: Seq<char>)
    requires
        settled(s),
    ensures
        cleaned_subject(s) == s,
{
}

/// Cleaning twice gives what cleaning once gives, wherever the first result
/// is settled.
pub proof fn lemma_cleanup_idempotent_where_settled(s: Seq<char>)
    requires
        settled(cleaned_subject(s)),
    ensures
        cleaned_subject(cleaned_subject(s)) == cleaned_subject(s),
{
    lemma_cleanup_keeps_settled(cleaned_subject(s));
}

/// A name made of a first word, a space, and text that starts with two
/// characters other than a space gives the first character of the word and
/// those two.
pub proof fn lemma_trigram_of_first_and_last(first: Seq<char>, last: Seq<char>)
    requires
        first.len() >= 1,
        forall|k: int| 0 <= k < first.len() ==> first[k] != ' ',
        last.len() >= 2,
        last[0] != ' ',
        last[1] != ' ',
    ensures
        trigram_letters(first + seq![' '] + last) == Some(seq![first[0], last[0], last[1]]),
{
    let name = first + seq![' '] + last;
    lemma_first_word_len(name, first.len() as int);
    assert(trigram_letters(name)->0 =~= seq![first[0], last[0], last[1]]);
}

/// A branch name is owed exactly to a nameable issue, provided the cleanup
/// patterns are accepted; each error has its own cause.
pub proof fn lemma_branch_name_owed(m: IssueModel)
    ensures
        branch_name(m) is Ok <==> nameable(m) && patterns_accepted(),
        branch_name(m) == Err::<Seq<char>, NamingError>(NamingError::UnreadableTrigram)
            <==> trigram_letters(m.assignee) is None,
        branch_name(m) == Err::<Seq<char>, NamingError>(NamingError::VersionTooShort) <==> (
        trigram_letters(m.assignee) is Some && m.version.len() < 3),
        branch_name(m) == Err::<Seq<char>, NamingError>(NamingError::PatternRejected) <==> (
        nameable(m) && !patterns_accepted()),
{
}

/// The bounds of `v` without its leading and trailing whitespace.
fn trim_bounds(v: &Vec<char>) -> (r: (usize, usize))
    ensures
        r.0 <= r.1 <= v.len(),
        v@.subrange(r.0 as int, r.1 as int) == trimmed(v@),
{
    let n: usize = v.len();
    let mut i: usize = 0;
    assert(v@.subrange(0, n as int) =~= v@);
    while i < n && v[i].is_whitespace()
        invariant
            i <= n == v.len(),
            trimmed(v@) == trimmed(v@.subrange(i as int, n as int)),
        decreases n - i,
    {
        assert(v@.subrange(i as int, n as int).drop_first() =~= v@.subrange(i + 1, n as int));
        i += 1;
    }
    let mut j: usize = n;
    while j > i && v[j - 1].is_whitespace()
        invariant
            i <= j <= n == v.len(),
            i < n ==> !white_space(v@[i as int]),
            trimmed(v@) == trimmed(v@.subrange(i as int, j as int)),
        decreases j - i,
    {
        assert(v@.subrange(i as int, j as int).drop_last() =~= v@.subrange(i as int, j - 1));
        j -= 1;
    }
    (i, j)
}

/// The characters `v[from..to]`, each swapped.
fn hyphenate(v: &Vec<char>, from: usize, to: usize) -> (out: Vec<char>)
    requires
        from <= to <= v.len(),
    ensures
        out@ == hyphenated(v@.subrange(from as int, to as int)),
{
    let mut out: Vec<char> = Vec::new();
    let mut i: usize = from;
    while i < to
        invariant
            from <= i <= to <= v.len(),
            out.len() == i - from,
            forall|k: int| 0 <= k < out.len() ==> out@[k] == swapped(v@[from + k]),
        decreases to - i,
    {
        let c = v[i];
        let d = if c == ' ' {
            '-'
        } else if c == ':' {
            '='
        } else {
            c
        };
        out.push(d);
        i += 1;
    }
    assert(out@ =~= hyphenated(v@.subrange(from as int, to as int)));
    out
}

/// Scrubs text that is already trimmed, hyphenated and lowercased. Fails
/// exactly when a cleanup pattern is refused.
pub fn scrub(text: &str) -> (r: Result<String, NamingError>)
    ensures
        r is Ok <==> patterns_accepted(),
        r matches Ok(out) ==> out@ == scrubbed(text@),
        r matches Err(e) ==> e == NamingError::PatternRejected,
{
    match regex_replace_all("-+", text, "-") {
        None => Err(NamingError::PatternRejected),
        Some(single) => match regex_replace_all("[\\[\\]\"'\\)\\()]*", single.as_str(), "") {
            None => Err(NamingError::PatternRejected),
            Some(stripped) => Ok(remove_diacritics(stripped.as_str())),
        },
    }
}

/// Puts the parts of a branch name together:
/// `rd-<id>-<trigram>-<version>-<subject>`.
pub fn compose(id: i32, trigram: &str, version: &str, subject: &str) -> (name: String)
    ensures
        name@ == composed(id as int, trigram@, version@, subject@),
{
    let number = decimal_of(id as i64);
    let mut name = String::from_str("rd-");
    proof {
        reveal_strlit("rd-");
        reveal_strlit("-");
        assert("rd-"@ =~= seq!['r', 'd', '-']);
        assert("-"@ =~= seq!['-']);
    }
    name.append(string_of(&number, 0, number.len()).as_str());
    name.append("-");
    name.append(trigram);
    name.append("-");
    name.append(version);
    name.append("-");
    name.append(subject);
    assert(number@.subrange(0, number@.len() as int) =~= number@);
    name
}

/// The trigram of an assignee's name: the lowercased first character of the
/// first word and first two characters of the second.
pub fn trigram(name: &str) -> (r: Option<String>)
    ensures
        match trigram_letters(name@) {
            Some(letters) => r matches Some(t) && t@ == lowercase(letters),
            None => r is None,
        },
{
    let v = chars_of(name);
    let n: usize = v.len();
    let mut sp: usize = 0;
    while sp < n && v[sp] != ' '
        invariant
            sp <= n == v.len(),
            forall|k: int| 0 <= k < sp ==> v@[k] != ' ',
        decreases n - sp,
    {
        sp += 1;
    }
    proof {
        lemma_first_word_len(v@, sp as int);
    }
    if sp < 1 || n < 3 || sp >= n - 2 {
        return None;
    }
    if v[sp + 1] == ' ' || v[sp + 2] == ' ' {
        return None;
    }
    let mut letters = String::new();
    letters.push(v[0]);
    letters.push(v[sp + 1]);
    letters.push(v[sp + 2]);
    assert(letters@ =~= seq![v@[0], v@[sp + 1], v@[sp + 2]]);
    Some(letters.as_str().to_lowercase())
}

impl Issue {
    /// The `major.minor` prefix of the fixed version: its first three
    /// characters.
    pub fn target_version(&self) -> (r: Result<String, NamingError>)
        ensures
            match target_version_of(self@.version) {
                Some(version) => r matches Ok(t) && t@ == version,
                None => r == Err::<String, NamingError>(NamingError::VersionTooShort),
            },
    {
        let v = chars_of(self.fixed_version.name.as_str());
        if v.len() < 3 {
            return Err(NamingError::VersionTooShort);
        }
        Ok(string_of(&v, 0, 3))
    }

    /// Cleans a subject for use in a branch name. Fails exactly when a
    /// cleanup pattern is refused.
    pub fn cleanup_subject(subject: &String) -> (r: Result<String, NamingError>)
        ensures
            r is Ok <==> patterns_accepted(),
            r matches Ok(out) ==> out@ == cleaned_subject(subject@),
            r matches Err(e) ==> e == NamingError::PatternRejected,
    {
        let v = chars_of(subject.as_str());
        let (from, to) = trim_bounds(&v);
        let swapped = hyphenate(&v, from, to);
        let lowered = string_of(&swapped, 0, swapped.len()).as_str().to_lowercase();
        assert(swapped@.subrange(0, swapped@.len() as int) =~= swapped@);
        scrub(lowered.as_str())
    }

    /// The branch name of this issue.
    pub fn get_branch_name(&self) -> (r: Result<String, NamingError>)
        ensures
            match branch_name(self@) {
                Ok(name) => r matches Ok(out) && out@ == name,
                Err(e) => r == Err::<String, NamingError>(e),
            },
    {
        let letters = match trigram(self.assigned_to.name.as_str()) {
            Some(t) => t,
            None => {
                return Err(NamingError::UnreadableTrigram);
            },
        };
        let version = match self.target_version() {
            Ok(v) => v,
            Err(e) => {
                return Err(e);
            },
        };
        let subject = match Issue::cleanup_subject(&self.subject) {
            Ok(s) => s,
            Err(e) => {
                return Err(e);
            },
        };
        Ok(compose(self.id, letters.as_str(), version.as_str(), subject.as_str()))
    }
}

} // verus!
