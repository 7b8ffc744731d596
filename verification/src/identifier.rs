//! Project identifiers and the identifiers of the records that live in a
//! project.
//!
//! A project identifier is woven into issue identifiers (`LIF-42`) and page
//! identifiers (`LIF-DOC-1`; `DOC-1` for a page outside any project), so
//! its grammar keeps those strings unambiguous: one to five characters,
//! upper-case ASCII letters and digits only, starting with a letter, and
//! never the reserved page marker `DOC`.

use vstd::prelude::*;
use vstd::string::*;

use crate::error::LificError;
use crate::text::{
    decimal_int, decimal_string, is_ascii_digit, is_ascii_upper, lemma_decimal_int_injective,
    lemma_decimal_int_shape, str_eq,
};

verus! {

/// The longest identifier accepted, counted in characters.
pub open spec fn max_identifier_chars() -> nat {
    5
}

/// Starts with an upper-case ASCII letter; all later characters are
/// upper-case ASCII letters or ASCII digits.
pub open spec fn follows_identifier_grammar(s: Seq<char>) -> bool {
    &&& s.len() > 0
    &&& is_ascii_upper(s[0])
    &&& forall|i: int| 1 <= i < s.len() ==> is_ascii_upper(s[i]) || is_ascii_digit(s[i])
}

/// The marker that identifies pages (`DOC-1`, `LIF-DOC-1`).
pub open spec fn page_marker() -> Seq<char> {
    seq!['D', 'O', 'C']
}

/// The message with which an identifier is refused, checked in this order:
/// emptiness, length, grammar, the reserved page marker. `None` when the
/// identifier is accepted.
pub open spec fn identifier_error(s: Seq<char>) -> Option<Seq<char>> {
    if s.len() == 0 {
        Some("identifier must not be empty"@)
    } else if s.len() > max_identifier_chars() {
        Some("identifier must be 5 characters or fewer"@)
    } else if !follows_identifier_grammar(s) {
        Some(
            "identifier must be uppercase letters/digits starting with a letter (e.g. LIF, PRO2)"@,
        )
    } else if s == page_marker() {
        Some("identifier 'DOC' is reserved for page identifiers"@)
    } else {
        None
    }
}

pub open spec fn is_valid_identifier(s: Seq<char>) -> bool {
    identifier_error(s) is None
}

/// `LIF-42`: a project identifier, a hyphen and the issue's sequence number.
pub open spec fn issue_identifier(project: Seq<char>, sequence: int) -> Seq<char> {
    project + seq!['-'] + decimal_int(sequence)
}

/// `LIF-DOC-1`: a page that belongs to a project.
pub open spec fn project_page_identifier(project: Seq<char>, sequence: int) -> Seq<char> {
    project + seq!['-'] + page_marker() + seq!['-'] + decimal_int(sequence)
}

/// `DOC-1`: a page outside any project.
pub open spec fn workspace_page_identifier(sequence: int) -> Seq<char> {
    page_marker() + seq!['-'] + decimal_int(sequence)
}

/// An identifier is accepted exactly when it has one to five characters,
/// starts with a letter `A` to `Z`, has only letters `A` to `Z` and digits
/// `0` to `9`, and is not `DOC`: a lower-case letter, a hyphen or any other
/// character anywhere in it refuses it.
pub proof fn law_valid_identifier_alphabet(s: Seq<char>)
    ensures
        is_valid_identifier(s) <==> {
            &&& 1 <= s.len() <= 5
            &&& 'A' <= s[0] && s[0] <= 'Z'
            &&& forall|i: int|
                0 <= i < s.len() ==> ('A' <= #[trigger] s[i] && s[i] <= 'Z') || ('0' <= s[i] && s[i]
                    <= '9')
            &&& s != seq!['D', 'O', 'C']
        },
{
}

/// Checks a project identifier, refusing it with `BadRequest` and the
/// message of the first rule it breaks.
pub fn validate_identifier(identifier: &str) -> (res: Result<(), LificError>)
    ensures
        match identifier_error(identifier@) {
            None => res is Ok,
            Some(msg) => res matches Err(LificError::BadRequest(m)) && m@ == msg,
        },
{
    if identifier.is_empty() {
        return Err(LificError::BadRequest(String::from_str("identifier must not be empty")));
    }
    let n: usize = identifier.unicode_len();
    if n > 5 {
        return Err(
            LificError::BadRequest(String::from_str("identifier must be 5 characters or fewer")),
        );
    }
    let first = identifier.get_char(0);
    let first_ok = 'A' <= first && first <= 'Z';
    let mut rest_ok = true;
    let mut i: usize = 1;
    while i < n
        invariant
            n == identifier@.len(),
            1 <= i <= n,
            rest_ok == (forall|j: int|
                1 <= j < i ==> is_ascii_upper(identifier@[j]) || is_ascii_digit(identifier@[j])),
        decreases n - i,
    {
        let c = identifier.get_char(i);
        rest_ok = rest_ok && (('A' <= c && c <= 'Z') || ('0' <= c && c <= '9'));
        i = i + 1;
    }
    if !first_ok || !rest_ok {
        return Err(
            LificError::BadRequest(
                String::from_str(
                    "identifier must be uppercase letters/digits starting with a letter (e.g. LIF, PRO2)",
                ),
            ),
        );
    }
    proof {
        reveal_strlit("DOC");
        assert("DOC"@ =~= page_marker());
    }
    if str_eq(identifier, "DOC") {
        return Err(
            LificError::BadRequest(
                String::from_str("identifier 'DOC' is reserved for page identifiers"),
            ),
        );
    }
    Ok(())
}

/// Builds `LIF-42` from a project identifier and an issue's sequence number.
pub fn format_issue_identifier(project: &str, sequence: i64) -> (id: String)
    ensures
        id@ == issue_identifier(project@, sequence as int),
{
    let mut id = String::from_str(project);
    proof {
        reveal_strlit("-");
    }
    id.append("-");
    let digits = decimal_string(sequence);
    id.append(digits.as_str());
    id
}

/// Builds `LIF-DOC-1` from a project identifier and a page's sequence number.
pub fn format_project_page_identifier(project: &str, sequence: i64) -> (id: String)
    ensures
        id@ == project_page_identifier(project@, sequence as int),
{
    let mut id = String::from_str(project);
    proof {
        reveal_strlit("-DOC-");
        assert("-DOC-"@ =~= seq!['-'] + page_marker() + seq!['-']);
    }
    id.append("-DOC-");
    let digits = decimal_string(sequence);
    id.append(digits.as_str());
    proof {
        assert(id@ =~= project_page_identifier(project@, sequence as int));
    }
    id
}

/// Builds `DOC-1` from the sequence number of a page outside any project.
pub fn format_workspace_page_identifier(sequence: i64) -> (id: String)
    ensures
        id@ == workspace_page_identifier(sequence as int),
{
    proof {
        reveal_strlit("DOC-");
        assert("DOC-"@ =~= page_marker() + seq!['-']);
    }
    let mut id = String::from_str("DOC-");
    let digits = decimal_string(sequence);
    id.append(digits.as_str());
    id
}

/// `k` is the position of the first hyphen in `x`.
pub open spec fn first_hyphen_at(x: Seq<char>, k: int) -> bool {
    &&& 0 <= k < x.len()
    &&& x[k] == '-'
    &&& forall|i: int| 0 <= i < k ==> x[i] != '-'
}

proof fn lemma_first_hyphen_unique(x: Seq<char>, k1: int, k2: int)
    requires
        first_hyphen_at(x, k1),
        first_hyphen_at(x, k2),
    ensures
        k1 == k2,
{
}

/// No accepted project identifier contains a hyphen, so the first hyphen of
/// any identifier built from it ends the project part.
pub proof fn law_valid_identifier_has_no_hyphen(s: Seq<char>)
    requires
        is_valid_identifier(s),
    ensures
        forall|i: int| 0 <= i < s.len() ==> s[i] != '-',
{
    assert forall|i: int| 0 <= i < s.len() implies s[i] != '-' by {
        if i > 0 {
            assert(is_ascii_upper(s[i]) || is_ascii_digit(s[i]));
        }
    }
}

/// Splitting an issue identifier at its first hyphen gives back the project
/// identifier and the decimal sequence number.
pub proof fn law_issue_identifier_splits_at_first_hyphen(project: Seq<char>, sequence: int)
    requires
        is_valid_identifier(project),
    ensures
        first_hyphen_at(issue_identifier(project, sequence), project.len() as int),
        issue_identifier(project, sequence).take(project.len() as int) == project,
        issue_identifier(project, sequence).skip(project.len() as int + 1) == decimal_int(sequence),
{
    law_valid_identifier_has_no_hyphen(project);
    let x = issue_identifier(project, sequence);
    assert(x.take(project.len() as int) =~= project);
    assert(x.skip(project.len() as int + 1) =~= decimal_int(sequence));
    assert forall|i: int| 0 <= i < project.len() implies x[i] != '-' by {
        assert(x[i] == project[i]);
    }
}

/// Splitting a project page identifier at its first hyphen gives back the
/// project identifier, followed by `DOC-` and the decimal sequence number.
pub proof fn law_project_page_identifier_splits_at_first_hyphen(project: Seq<char>, sequence: int)
    requires
        is_valid_identifier(project),
    ensures
        first_hyphen_at(project_page_identifier(project, sequence), project.len() as int),
        project_page_identifier(project, sequence).take(project.len() as int) == project,
        project_page_identifier(project, sequence).skip(project.len() as int + 1) == page_marker()
            + seq!['-'] + decimal_int(sequence),
{
    law_valid_identifier_has_no_hyphen(project);
    let x = project_page_identifier(project, sequence);
    assert(x.take(project.len() as int) =~= project);
    assert(x.skip(project.len() as int + 1) =~= page_marker() + seq!['-'] + decimal_int(sequence));
    assert forall|i: int| 0 <= i < project.len() implies x[i] != '-' by {
        assert(x[i] == project[i]);
    }
}

proof fn lemma_workspace_page_first_hyphen(sequence: int)
    ensures
        first_hyphen_at(workspace_page_identifier(sequence), 3),
        workspace_page_identifier(sequence).take(3) == page_marker(),
        workspace_page_identifier(sequence).skip(4) == decimal_int(sequence),
{
    let x = workspace_page_identifier(sequence);
    assert(x.take(3) =~= page_marker());
    assert(x.skip(4) =~= decimal_int(sequence));
}

/// Issue identifiers, project page identifiers and workspace page
/// identifiers never coincide, whatever the (accepted) project identifiers
/// and sequence numbers.
pub proof fn law_identifier_kinds_disjoint(p1: Seq<char>, n1: int, p2: Seq<char>, n2: int)
    requires
        is_valid_identifier(p1),
        is_valid_identifier(p2),
    ensures
        issue_identifier(p1, n1) != workspace_page_identifier(n2),
        project_page_identifier(p1, n1) != workspace_page_identifier(n2),
        issue_identifier(p1, n1) != project_page_identifier(p2, n2),
{
    law_issue_identifier_splits_at_first_hyphen(p1, n1);
    law_project_page_identifier_splits_at_first_hyphen(p1, n1);
    law_project_page_identifier_splits_at_first_hyphen(p2, n2);
    lemma_workspace_page_first_hyphen(n2);
    if issue_identifier(p1, n1) == workspace_page_identifier(n2) {
        lemma_first_hyphen_unique(issue_identifier(p1, n1), p1.len() as int, 3);
    }
    if project_page_identifier(p1, n1) == workspace_page_identifier(n2) {
        lemma_first_hyphen_unique(project_page_identifier(p1, n1), p1.len() as int, 3);
    }
    if issue_identifier(p1, n1) == project_page_identifier(p2, n2) {
        let x = issue_identifier(p1, n1);
        lemma_first_hyphen_unique(x, p1.len() as int, p2.len() as int);
        lemma_decimal_int_shape(n1);
        assert(x.skip(p1.len() as int + 1)[0] == decimal_int(n1)[0]);
        assert(x.skip(p2.len() as int + 1)[0] == 'D');
    }
}

/// Distinct issues have distinct identifiers: the identifier determines the
/// project identifier and the sequence number.
pub proof fn law_issue_identifier_injective(p1: Seq<char>, n1: int, p2: Seq<char>, n2: int)
    requires
        is_valid_identifier(p1),
        is_valid_identifier(p2),
        issue_identifier(p1, n1) == issue_identifier(p2, n2),
    ensures
        p1 == p2,
        n1 == n2,
{
    law_issue_identifier_splits_at_first_hyphen(p1, n1);
    law_issue_identifier_splits_at_first_hyphen(p2, n2);
    lemma_first_hyphen_unique(issue_identifier(p1, n1), p1.len() as int, p2.len() as int);
    lemma_decimal_int_injective(n1, n2);
}

/// Distinct pages have distinct identifiers.
pub proof fn law_page_identifiers_injective(p1: Seq<char>, n1: int, p2: Seq<char>, n2: int)
    requires
        is_valid_identifier(p1),
        is_valid_identifier(p2),
    ensures
        project_page_identifier(p1, n1) == project_page_identifier(p2, n2) ==> p1 == p2 && n1 == n2,
        workspace_page_identifier(n1) == workspace_page_identifier(n2) ==> n1 == n2,
{
    law_project_page_identifier_splits_at_first_hyphen(p1, n1);
    law_project_page_identifier_splits_at_first_hyphen(p2, n2);
    lemma_workspace_page_first_hyphen(n1);
    lemma_workspace_page_first_hyphen(n2);
    if project_page_identifier(p1, n1) == project_page_identifier(p2, n2) {
        let x = project_page_identifier(p1, n1);
        lemma_first_hyphen_unique(x, p1.len() as int, p2.len() as int);
        let tail = x.skip(p1.len() as int + 1);
        assert(tail.skip(4) =~= decimal_int(n1));
        assert(tail.skip(4) =~= decimal_int(n2));
        lemma_decimal_int_injective(n1, n2);
    }
    if workspace_page_identifier(n1) == workspace_page_identifier(n2) {
        lemma_decimal_int_injective(n1, n2);
    }
}

} // verus!
