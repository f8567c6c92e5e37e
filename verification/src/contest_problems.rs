use vstd::prelude::*;

use crate::auth::{AuthUser, UserType};
use crate::contests::{ContestStatus, ScopeStep, Timestamp, status_name, status_named, can_read_all, contest_not_found, contest_not_found_error, reads_all};
use crate::error::{AppError, ErrorKind, coded_error, validation_error};
use crate::text::{
    chars_of, is_ascii_digit, is_ascii_lower, is_ascii_upper, seq_ascii_upper, str_eq, trim,
    trimmed, trimmed_upper,
};

verus! {

pub const MAX_REORDER_ENTRIES: usize = 1000;

pub const MAX_DISPLAY_ORDER: i32 = 1000;

pub const MAX_ALIAS_CHARS: usize = 8;

pub const MAX_COLOR_CHARS: usize = 16;

pub open spec fn lang_error() -> AppError {
    validation_error("lang", "must be a language tag such as en or zh-CN")
}

pub open spec fn alias_error() -> AppError {
    validation_error("alias", "must contain 1 to 8 uppercase ASCII letters or digits")
}

pub open spec fn order_error() -> AppError {
    validation_error("displayOrder", "must contain a value between 1 and 1000")
}

pub open spec fn color_error() -> AppError {
    validation_error("color", "must contain between 1 and 16 characters")
}

pub open spec fn problem_id_error() -> AppError {
    validation_error("problemId", "must be positive")
}

/// A language tag: two lower-case ASCII letters, optionally followed by a
/// hyphen and two upper-case ASCII letters (`en`, `zh-CN`).
pub open spec fn is_lang_code(s: Seq<char>) -> bool {
    &&& (s.len() == 2 || s.len() == 5)
    &&& is_ascii_lower(s[0])
    &&& is_ascii_lower(s[1])
    &&& s.len() == 5 ==> s[2] == '-' && is_ascii_upper(s[3]) && is_ascii_upper(s[4])
}

pub fn validate_lang_code(value: String) -> (r: Result<String, AppError>)
    ensures
        is_lang_code(value@) ==> (r matches Ok(v) && v@ == value@),
        !is_lang_code(value@) ==> r == Err::<String, AppError>(lang_error()),
{
    let v = chars_of(value.as_str());
    let n = v.len();
    let valid = (n == 2 || n == 5) && v[0] >= 'a' && v[0] <= 'z' && v[1] >= 'a' && v[1] <= 'z' && (
    n == 2 || (v[2] == '-' && v[3] >= 'A' && v[3] <= 'Z' && v[4] >= 'A' && v[4] <= 'Z'));
    if valid {
        Ok(value)
    } else {
        Err(AppError::validation("lang", "must be a language tag such as en or zh-CN"))
    }
}

/// A problem alias as stored: trimmed and upper-cased, 1 to 8 upper-case
/// ASCII letters or digits.
pub open spec fn alias_of(value: Seq<char>) -> Option<Seq<char>> {
    let a = seq_ascii_upper(trim(value));
    if 0 < a.len() <= MAX_ALIAS_CHARS && forall|i: int|
        0 <= i < a.len() ==> is_ascii_upper(#[trigger] a[i]) || is_ascii_digit(a[i]) {
        Some(a)
    } else {
        None
    }
}

pub fn validate_alias(value: String) -> (r: Result<String, AppError>)
    ensures
        match alias_of(value@) {
            Some(a) => r matches Ok(v) && v@ == a,
            None => r == Err::<String, AppError>(alias_error()),
        },
{
    let alias = trimmed_upper(value.as_str());
    let v = chars_of(alias.as_str());
    if v.len() == 0 || v.len() > MAX_ALIAS_CHARS {
        return Err(AppError::validation("alias", "must contain 1 to 8 uppercase ASCII letters or digits"));
    }
    let mut k: usize = 0;
    while k < v.len()
        invariant
            k <= v.len(),
            v@ == alias@,
            alias@ == seq_ascii_upper(trim(value@)),
            forall|i: int| 0 <= i < k ==> is_ascii_upper(#[trigger] v@[i]) || is_ascii_digit(v@[i]),
        decreases v.len() - k,
    {
        let c = v[k];
        if !((c >= 'A' && c <= 'Z') || (c >= '0' && c <= '9')) {
            assert(!(is_ascii_upper(v@[k as int]) || is_ascii_digit(v@[k as int])));
            return Err(AppError::validation("alias", "must contain 1 to 8 uppercase ASCII letters or digits"));
        }
        k += 1;
    }
    Ok(alias)
}

pub open spec fn order_is_valid(value: i32) -> bool {
    1 <= value <= MAX_DISPLAY_ORDER
}

pub fn validate_order(value: i32) -> (r: Result<i32, AppError>)
    ensures
        r == if order_is_valid(value) {
            Ok::<i32, AppError>(value)
        } else {
            Err(order_error())
        },
{
    if value >= 1 && value <= MAX_DISPLAY_ORDER {
        Ok(value)
    } else {
        Err(AppError::validation("displayOrder", "must contain a value between 1 and 1000"))
    }
}

/// A balloon colour as stored: trimmed, 1 to 16 characters.
pub open spec fn color_of(value: Seq<char>) -> Option<Seq<char>> {
    if 0 < trim(value).len() <= MAX_COLOR_CHARS {
        Some(trim(value))
    } else {
        None
    }
}

pub fn validate_color(value: String) -> (r: Result<String, AppError>)
    ensures
        match color_of(value@) {
            Some(c) => r matches Ok(v) && v@ == c,
            None => r == Err::<String, AppError>(color_error()),
        },
{
    let color = trimmed(value.as_str());
    let n = chars_of(color.as_str()).len();
    if n == 0 || n > MAX_COLOR_CHARS {
        Err(AppError::validation("color", "must contain between 1 and 16 characters"))
    } else {
        Ok(color)
    }
}

/// The language preferred for problem statements in a listing.
pub struct ContestProblemListQuery {
    pub lang: Option<String>,
}

impl ContestProblemListQuery {
    pub fn validate(self) -> (r: Result<Option<String>, AppError>)
        ensures
            match self.lang {
                None => r == Ok::<Option<String>, AppError>(None),
                Some(l) => if is_lang_code(l@) {
                    r matches Ok(Some(v)) && v@ == l@
                } else {
                    r == Err::<Option<String>, AppError>(lang_error())
                },
            },
    {
        match self.lang {
            None => Ok(None),
            Some(l) => match validate_lang_code(l) {
                Ok(v) => Ok(Some(v)),
                Err(e) => Err(e),
            },
        }
    }
}

/// A problem to assign to a contest, as a client submits it.
pub struct AssignProblemRequest {
    pub problem_id: i64,
    pub alias: String,
    pub display_order: i32,
    pub color: Option<String>,
}

/// Changes to an assignment, as a client submits them.
pub struct UpdateContestProblemRequest {
    pub alias: Option<String>,
    pub display_order: Option<i32>,
    pub color: Option<String>,
}

/// One entry of a new problem order.
pub struct ReorderEntry {
    pub problem_id: i64,
    pub display_order: i32,
}

#[derive(Debug)]
pub struct ValidatedReorderEntry {
    pub problem_id: i64,
    pub display_order: i32,
}

#[derive(Debug)]
pub struct ValidatedAssignment {
    pub problem_id: i64,
    pub alias: String,
    pub display_order: i32,
    pub color: Option<String>,
}

#[derive(Debug)]
pub struct ValidatedAssignmentUpdate {
    pub alias: Option<String>,
    pub display_order: Option<i32>,
    pub color: Option<String>,
}

/// The colour a request gives: absent, valid (trimmed), or invalid.
pub open spec fn optional_color(color: Option<String>) -> Result<Option<Seq<char>>, AppError> {
    match color {
        None => Ok(None),
        Some(c) => match color_of(c@) {
            Some(v) => Ok(Some(v)),
            None => Err(color_error()),
        },
    }
}

pub open spec fn same_optional_text(a: Option<String>, b: Option<Seq<char>>) -> bool {
    match (a, b) {
        (None, None) => true,
        (Some(x), Some(y)) => x@ == y,
        _ => false,
    }
}

fn validate_optional_color(color: Option<String>) -> (r: Result<Option<String>, AppError>)
    ensures
        match optional_color(color) {
            Ok(v) => r matches Ok(c) && same_optional_text(c, v),
            Err(e) => r == Err::<Option<String>, AppError>(e),
        },
{
    match color {
        None => Ok(None),
        Some(c) => match validate_color(c) {
            Ok(v) => Ok(Some(v)),
            Err(e) => Err(e),
        },
    }
}

impl AssignProblemRequest {
    /// The problem id must be positive; then alias, order and colour are
    /// checked, in that order.
    pub fn validate(self) -> (r: Result<ValidatedAssignment, AppError>)
        ensures
            self.problem_id <= 0 ==> r == Err::<ValidatedAssignment, AppError>(problem_id_error()),
            self.problem_id > 0 ==> match alias_of(self.alias@) {
                None => r == Err::<ValidatedAssignment, AppError>(alias_error()),
                Some(a) => if !order_is_valid(self.display_order) {
                    r == Err::<ValidatedAssignment, AppError>(order_error())
                } else {
                    match optional_color(self.color) {
                        Err(e) => r == Err::<ValidatedAssignment, AppError>(e),
                        Ok(c) => r matches Ok(v) && v.problem_id == self.problem_id && v.alias@
                            == a && v.display_order == self.display_order && same_optional_text(
                            v.color,
                            c,
                        ),
                    }
                },
            },
    {
        if self.problem_id <= 0 {
            return Err(AppError::validation("problemId", "must be positive"));
        }
        let alias = validate_alias(self.alias)?;
        let display_order = validate_order(self.display_order)?;
        let color = validate_optional_color(self.color)?;
        Ok(ValidatedAssignment { problem_id: self.problem_id, alias, display_order, color })
    }
}

pub open spec fn no_change_error() -> AppError {
    validation_error("request", "must include at least one change")
}

impl UpdateContestProblemRequest {
    /// An update must change something; each given field is then checked:
    /// alias, order, colour.
    pub fn validate(self) -> (r: Result<ValidatedAssignmentUpdate, AppError>)
        ensures
            (self.alias is None && self.display_order is None && self.color is None) ==> r == Err::<
                ValidatedAssignmentUpdate,
                AppError,
            >(no_change_error()),
            !(self.alias is None && self.display_order is None && self.color is None) ==> {
                let alias = match self.alias {
                    None => Ok(None),
                    Some(a) => match alias_of(a@) {
                        Some(v) => Ok(Some(v)),
                        None => Err(alias_error()),
                    },
                };
                match alias {
                    Err(e) => r == Err::<ValidatedAssignmentUpdate, AppError>(e),
                    Ok(a) => if self.display_order matches Some(o) && !order_is_valid(o) {
                        r == Err::<ValidatedAssignmentUpdate, AppError>(order_error())
                    } else {
                        match optional_color(self.color) {
                            Err(e) => r == Err::<ValidatedAssignmentUpdate, AppError>(e),
                            Ok(c) => r matches Ok(v) && same_optional_text(v.alias, a)
                                && v.display_order == self.display_order && same_optional_text(
                                v.color,
                                c,
                            ),
                        }
                    },
                }
            },
    {
        if self.alias.is_none() && self.display_order.is_none() && self.color.is_none() {
            return Err(AppError::validation("request", "must include at least one change"));
        }
        let alias = match self.alias {
            None => None,
            Some(a) => Some(validate_alias(a)?),
        };
        let display_order = match self.display_order {
            None => None,
            Some(o) => Some(validate_order(o)?),
        };
        let color = validate_optional_color(self.color)?;
        Ok(ValidatedAssignmentUpdate { alias, display_order, color })
    }
}

pub open spec fn reorder_count_error() -> AppError {
    validation_error("request", "must contain between 1 and 1000 reorder entries")
}

pub open spec fn duplicate_problem_error() -> AppError {
    validation_error("problemId", "must not contain duplicates")
}

pub open spec fn duplicate_order_error() -> AppError {
    validation_error("displayOrder", "must not contain duplicates")
}

/// How entry `i` of a reorder is judged, once every entry before it passed.
pub open spec fn reorder_entry_check(entries: Seq<ReorderEntry>, i: int) -> Option<AppError> {
    let e = entries[i];
    if e.problem_id <= 0 {
        Some(problem_id_error())
    } else if !order_is_valid(e.display_order) {
        Some(order_error())
    } else if exists|j: int| 0 <= j < i && #[trigger] entries[j].problem_id == e.problem_id {
        Some(duplicate_problem_error())
    } else if exists|j: int| 0 <= j < i && #[trigger] entries[j].display_order == e.display_order {
        Some(duplicate_order_error())
    } else {
        None
    }
}

/// The first error among the entries from index `i` on.
pub open spec fn reorder_check_from(entries: Seq<ReorderEntry>, i: int) -> Result<(), AppError>
    decreases entries.len() - i,
{
    if i < 0 || i >= entries.len() {
        Ok(())
    } else {
        match reorder_entry_check(entries, i) {
            Some(e) => Err(e),
            None => reorder_check_from(entries, i + 1),
        }
    }
}

/// How a reorder request is judged.
pub open spec fn reorder_check(entries: Seq<ReorderEntry>) -> Result<(), AppError> {
    if entries.len() == 0 || entries.len() > MAX_REORDER_ENTRIES {
        Err(reorder_count_error())
    } else {
        reorder_check_from(entries, 0)
    }
}

/// Validates a new problem order: 1 to 1000 entries, each with a positive
/// problem id and an order in 1..=1000, no problem and no order twice. The
/// first failing entry decides the error.
pub fn validate_reorder(entries: Vec<ReorderEntry>) -> (r: Result<Vec<ValidatedReorderEntry>, AppError>)
    ensures
        match reorder_check(entries@) {
            Err(e) => r == Err::<Vec<ValidatedReorderEntry>, AppError>(e),
            Ok(_) => r matches Ok(v) && v.len() == entries.len() && forall|i: int|
                0 <= i < v.len() ==> (#[trigger] v@[i]).problem_id == entries@[i].problem_id
                    && v@[i].display_order == entries@[i].display_order,
        },
{
    broadcast use vstd::std_specs::hash::group_hash_axioms;

    if entries.len() == 0 || entries.len() > MAX_REORDER_ENTRIES {
        return Err(AppError::validation("request", "must contain between 1 and 1000 reorder entries"));
    }
    let mut problem_ids: std::collections::HashSet<i64> = std::collections::HashSet::new();
    let mut orders: std::collections::HashSet<i32> = std::collections::HashSet::new();
    let mut out: Vec<ValidatedReorderEntry> = Vec::new();
    let mut k: usize = 0;
    while k < entries.len()
        invariant
            k <= entries.len() <= MAX_REORDER_ENTRIES,
            0 < entries.len(),
            reorder_check_from(entries@, 0) == reorder_check_from(entries@, k as int),
            forall|x: i64| problem_ids@.contains(x) <==> exists|j: int| 0 <= j < k && #[trigger] entries@[j].problem_id == x,
            forall|x: i32| orders@.contains(x) <==> exists|j: int| 0 <= j < k && #[trigger] entries@[j].display_order == x,
            out.len() == k,
            forall|i: int|
                0 <= i < k ==> (#[trigger] out@[i]).problem_id == entries@[i].problem_id
                    && out@[i].display_order == entries@[i].display_order,
        decreases entries.len() - k,
    {
        let id = entries[k].problem_id;
        let order = entries[k].display_order;
        if id <= 0 {
            return Err(AppError::validation("problemId", "must be positive"));
        }
        let display_order = validate_order(order)?;
        if !problem_ids.insert(id) {
            assert(exists|j: int| 0 <= j < k && #[trigger] entries@[j].problem_id == id);
            return Err(AppError::validation("problemId", "must not contain duplicates"));
        }
        if !orders.insert(display_order) {
            assert(exists|j: int| 0 <= j < k && #[trigger] entries@[j].display_order == order);
            return Err(AppError::validation("displayOrder", "must not contain duplicates"));
        }
        assert(reorder_entry_check(entries@, k as int) is None);
        out.push(ValidatedReorderEntry { problem_id: id, display_order });
        assert forall|x: i64| problem_ids@.contains(x) implies exists|j: int|
            0 <= j < k + 1 && #[trigger] entries@[j].problem_id == x by {
            if x != id {
                let j = choose|j: int| 0 <= j < k && #[trigger] entries@[j].problem_id == x;
                assert(entries@[j].problem_id == x);
            } else {
                assert(entries@[k as int].problem_id == x);
            }
        }
        assert forall|x: i32| orders@.contains(x) implies exists|j: int|
            0 <= j < k + 1 && #[trigger] entries@[j].display_order == x by {
            if x != display_order {
                let j = choose|j: int| 0 <= j < k && #[trigger] entries@[j].display_order == x;
                assert(entries@[j].display_order == x);
            } else {
                assert(entries@[k as int].display_order == x);
            }
        }
        k += 1;
    }
    Ok(out)
}

/// An accepted reorder names each problem once and uses each position once,
/// all of them positive and in range.
pub proof fn accepted_reorders_are_distinct(entries: Seq<ReorderEntry>)
    requires
        reorder_check(entries) is Ok,
    ensures
        forall|i: int, j: int|
            0 <= i < j < entries.len() ==> entries[i].problem_id != entries[j].problem_id
                && entries[i].display_order != entries[j].display_order,
        forall|i: int|
            0 <= i < entries.len() ==> (#[trigger] entries[i]).problem_id > 0 && order_is_valid(
                entries[i].display_order,
            ),
{
    lemma_reorder_suffix(entries, 0);
    assert forall|i: int, j: int| 0 <= i < j < entries.len() implies entries[i].problem_id
        != entries[j].problem_id && entries[i].display_order != entries[j].display_order by {
        assert(reorder_entry_check(entries, j) is None);
        if entries[i].problem_id == entries[j].problem_id {
            assert(exists|m: int| 0 <= m < j && #[trigger] entries[m].problem_id == entries[j].problem_id);
        }
        if entries[i].display_order == entries[j].display_order {
            assert(exists|m: int| 0 <= m < j && #[trigger] entries[m].display_order == entries[j].display_order);
        }
    }
    assert forall|i: int| 0 <= i < entries.len() implies (#[trigger] entries[i]).problem_id > 0
        && order_is_valid(entries[i].display_order) by {
        assert(reorder_entry_check(entries, i) is None);
    }
}

proof fn lemma_reorder_suffix(entries: Seq<ReorderEntry>, k: int)
    requires
        0 <= k <= entries.len(),
        reorder_check_from(entries, k) is Ok,
    ensures
        forall|i: int| k <= i < entries.len() ==> reorder_entry_check(entries, i) is None,
    decreases entries.len() - k,
{
    if k < entries.len() {
        lemma_reorder_suffix(entries, k + 1);
    }
}

pub open spec fn reorder_mismatch_error() -> AppError {
    coded_error(
        ErrorKind::Conflict,
        "CONTEST_PROBLEM_REORDER_SET_MISMATCH",
        "Reorder request must contain every assigned problem exactly once",
    )
}

/// The problem ids of a reorder, in order.
pub open spec fn reorder_ids(entries: Seq<ValidatedReorderEntry>) -> Seq<i64> {
    entries.map_values(|e: ValidatedReorderEntry| e.problem_id)
}

/// A reorder must name exactly the problems assigned to the contest.
pub fn reorder_covers_assignment(requested: &Vec<ValidatedReorderEntry>, stored: &Vec<i64>) -> (r: Result<(), AppError>)
    ensures
        r == if reorder_ids(requested@).to_set() == stored@.to_set() {
            Ok::<(), AppError>(())
        } else {
            Err(reorder_mismatch_error())
        },
{
    broadcast use vstd::std_specs::hash::group_hash_axioms;

    let ghost ids = reorder_ids(requested@);
    let mut requested_ids: std::collections::HashSet<i64> = std::collections::HashSet::new();
    let mut k: usize = 0;
    while k < requested.len()
        invariant
            k <= requested.len(),
            ids == reorder_ids(requested@),
            forall|x: i64| requested_ids@.contains(x) <==> ids.subrange(0, k as int).contains(x),
        decreases requested.len() - k,
    {
        let id = requested[k].problem_id;
        requested_ids.insert(id);
        assert(ids.subrange(0, k + 1) =~= ids.subrange(0, k as int).push(id));
        assert forall|x: i64| requested_ids@.contains(x) <==> ids.subrange(0, k + 1).contains(x) by {
            if ids.subrange(0, k as int).contains(x) {
                let j = choose|j: int| 0 <= j < k && ids.subrange(0, k as int)[j] == x;
                assert(ids.subrange(0, k + 1)[j] == x);
            }
            if x == id {
                assert(ids.subrange(0, k + 1)[k as int] == x);
            }
        }
        k += 1;
    }
    assert(ids.subrange(0, requested.len() as int) =~= ids);
    let mut stored_ids: std::collections::HashSet<i64> = std::collections::HashSet::new();
    let mut m: usize = 0;
    while m < stored.len()
        invariant
            m <= stored.len(),
            ids == reorder_ids(requested@),
            forall|x: i64| requested_ids@.contains(x) <==> ids.contains(x),
            forall|x: i64| stored_ids@.contains(x) <==> stored@.subrange(0, m as int).contains(x),
            forall|j: int| 0 <= j < m ==> ids.contains(#[trigger] stored@[j]),
        decreases stored.len() - m,
    {
        let id = stored[m];
        if !requested_ids.contains(&id) {
            assert(stored@.to_set().contains(id));
            assert(!ids.to_set().contains(id));
            return Err(AppError::conflict(
                "CONTEST_PROBLEM_REORDER_SET_MISMATCH",
                "Reorder request must contain every assigned problem exactly once",
            ));
        }
        stored_ids.insert(id);
        assert(stored@.subrange(0, m + 1) =~= stored@.subrange(0, m as int).push(id));
        assert forall|x: i64| stored_ids@.contains(x) <==> stored@.subrange(0, m + 1).contains(x) by {
            if stored@.subrange(0, m as int).contains(x) {
                let j = choose|j: int| 0 <= j < m && stored@.subrange(0, m as int)[j] == x;
                assert(stored@.subrange(0, m + 1)[j] == x);
            }
            if x == id {
                assert(stored@.subrange(0, m + 1)[m as int] == x);
            }
        }
        m += 1;
    }
    assert(stored@.subrange(0, stored.len() as int) =~= stored@);
    let mut k: usize = 0;
    while k < requested.len()
        invariant
            k <= requested.len(),
            ids == reorder_ids(requested@),
            forall|x: i64| stored_ids@.contains(x) <==> stored@.contains(x),
            forall|j: int| 0 <= j < stored.len() ==> ids.contains(#[trigger] stored@[j]),
            forall|i: int| 0 <= i < k ==> stored@.contains(#[trigger] ids[i]),
        decreases requested.len() - k,
    {
        let id = requested[k].problem_id;
        if !stored_ids.contains(&id) {
            assert(ids[k as int] == id);
            assert(ids.to_set().contains(id));
            assert(!stored@.to_set().contains(id));
            return Err(AppError::conflict(
                "CONTEST_PROBLEM_REORDER_SET_MISMATCH",
                "Reorder request must contain every assigned problem exactly once",
            ));
        }
        k += 1;
    }
    assert(ids.to_set() =~= stored@.to_set()) by {
        assert forall|x: i64| ids.to_set().contains(x) implies stored@.to_set().contains(x) by {
            let i = choose|i: int| 0 <= i < ids.len() && ids[i] == x;
            assert(stored@.contains(ids[i]));
        }
        assert forall|x: i64| stored@.to_set().contains(x) implies ids.to_set().contains(x) by {
            let j = choose|j: int| 0 <= j < stored.len() && stored@[j] == x;
            assert(ids.contains(stored@[j]));
        }
    }
    Ok(())
}

pub fn require_positive_contest_id(contest_id: i64) -> (r: Result<(), AppError>)
    ensures
        r == if contest_id > 0 {
            Ok::<(), AppError>(())
        } else {
            Err(validation_error("contestId", "must be positive"))
        },
{
    if contest_id > 0 {
        Ok(())
    } else {
        Err(AppError::validation("contestId", "must be positive"))
    }
}

pub fn require_ids(contest_id: i64, problem_id: i64) -> (r: Result<(), AppError>)
    ensures
        r == if contest_id <= 0 {
            Err(validation_error("contestId", "must be positive"))
        } else if problem_id <= 0 {
            Err(problem_id_error())
        } else {
            Ok::<(), AppError>(())
        },
{
    require_positive_contest_id(contest_id)?;
    if problem_id > 0 {
        Ok(())
    } else {
        Err(AppError::validation("problemId", "must be positive"))
    }
}

pub open spec fn assignment_not_found_error() -> AppError {
    coded_error(ErrorKind::NotFound, "CONTEST_PROBLEM_NOT_FOUND", "Contest problem assignment was not found")
}

pub fn assignment_not_found() -> (e: AppError)
    ensures
        e == assignment_not_found_error(),
{
    AppError::not_found("CONTEST_PROBLEM_NOT_FOUND", "Contest problem assignment was not found")
}

/// The answer to a failed assignment write, given the database constraint
/// it broke, if any.
pub open spec fn assignment_write_error(constraint: Option<Seq<char>>) -> AppError {
    match constraint {
        Some(c) => if c == "contest_problems_pkey"@ {
            coded_error(ErrorKind::Conflict, "PROBLEM_ALREADY_ASSIGNED", "Problem is already assigned to this contest")
        } else if c == "contest_problems_contest_id_alias_key"@ {
            coded_error(ErrorKind::Conflict, "CONTEST_PROBLEM_ALIAS_TAKEN", "Problem alias is already used in this contest")
        } else if c == "contest_problems_contest_id_display_order_key"@ {
            coded_error(ErrorKind::Conflict, "CONTEST_PROBLEM_ORDER_TAKEN", "Display order is already used in this contest")
        } else {
            coded_error(ErrorKind::Internal, "INTERNAL_ERROR", "write contest problem assignment")
        },
        None => coded_error(ErrorKind::Internal, "INTERNAL_ERROR", "write contest problem assignment"),
    }
}

pub fn map_assignment_write_error(constraint: Option<&str>) -> (e: AppError)
    ensures
        e == assignment_write_error(
            match constraint {
                Some(c) => Some(c@),
                None => None,
            },
        ),
{
    match constraint {
        Some(c) => if str_eq(c, "contest_problems_pkey") {
            AppError::conflict("PROBLEM_ALREADY_ASSIGNED", "Problem is already assigned to this contest")
        } else if str_eq(c, "contest_problems_contest_id_alias_key") {
            AppError::conflict("CONTEST_PROBLEM_ALIAS_TAKEN", "Problem alias is already used in this contest")
        } else if str_eq(c, "contest_problems_contest_id_display_order_key") {
            AppError::conflict("CONTEST_PROBLEM_ORDER_TAKEN", "Display order is already used in this contest")
        } else {
            AppError::internal("write contest problem assignment")
        },
        None => AppError::internal("write contest problem assignment"),
    }
}

pub open spec fn config_frozen_error() -> AppError {
    coded_error(
        ErrorKind::Conflict,
        "CONTEST_PROBLEM_CONFIG_FROZEN",
        "Contest problem configuration can be changed only in DRAFT",
    )
}

/// Whether a contest's problem set may change: the contest must exist
/// (`status` is its stored status), the actor must manage it, and it must
/// still be a draft.
pub fn configurable_contest(status: Option<&str>, may_manage: bool) -> (r: Result<(), AppError>)
    ensures
        r == match status {
            None => Err(contest_not_found_error()),
            Some(s) => if !may_manage {
                Err(contest_not_found_error())
            } else if s@ != "DRAFT"@ {
                Err(config_frozen_error())
            } else {
                Ok::<(), AppError>(())
            },
        },
{
    match status {
        None => Err(contest_not_found()),
        Some(s) => {
            if !may_manage {
                return Err(contest_not_found());
            }
            if !str_eq(s, "DRAFT") {
                return Err(AppError::conflict(
                    "CONTEST_PROBLEM_CONFIG_FROZEN",
                    "Contest problem configuration can be changed only in DRAFT",
                ));
            }
            Ok(())
        },
    }
}

/// Who may change a contest's problem set: super administrators, and
/// anyone assigned to manage the contest.
pub fn problem_manage_scope(actor: &AuthUser) -> (s: ScopeStep)
    ensures
        s == if actor.super_admin() {
            ScopeStep::Granted
        } else {
            ScopeStep::CheckAssignment
        },
{
    if actor.is_super_admin() {
        ScopeStep::Granted
    } else {
        ScopeStep::CheckAssignment
    }
}

/// Whether a stored contest status lets teams see the problem set.
pub open spec fn team_visible_status(status: Seq<char>) -> bool {
    status == "RUNNING"@ || status == "PAUSED"@ || status == "ENDED"@ || status == "ARCHIVED"@
}

/// Teams see a contest's problem set once the contest has started: in
/// every lifecycle state but DRAFT and FROZEN_CONFIG, which are exactly the
/// states whose schedule may still change. A status that names no
/// lifecycle state hides it.
pub proof fn teams_see_problems_once_the_contest_starts(status: ContestStatus, stored: Seq<char>)
    ensures
        team_visible_status(status_name(status)@) <==> !(status == ContestStatus::Draft || status
            == ContestStatus::FrozenConfig),
        status_named(stored) is None ==> !team_visible_status(stored),
{
    reveal_strlit("DRAFT");
    reveal_strlit("FROZEN_CONFIG");
    reveal_strlit("RUNNING");
    reveal_strlit("PAUSED");
    reveal_strlit("ENDED");
    reveal_strlit("ARCHIVED");
    assert("DRAFT"@[0] != "ENDED"@[0]);
    match status {
        ContestStatus::Draft => assert(!team_visible_status("DRAFT"@)),
        ContestStatus::FrozenConfig => {
            assert("FROZEN_CONFIG"@.len() == 13);
            assert(!team_visible_status("FROZEN_CONFIG"@));
        },
        ContestStatus::Running => assert(team_visible_status("RUNNING"@)),
        ContestStatus::Paused => assert(team_visible_status("PAUSED"@)),
        ContestStatus::Ended => assert(team_visible_status("ENDED"@)),
        ContestStatus::Archived => assert(team_visible_status("ARCHIVED"@)),
    }
}

/// Who may read a contest's problems: a team only once the contest has
/// started and only if it is on the roster; staff with read-all access
/// always; other staff only when assigned to the contest.
pub fn problem_read_scope(status: &str, actor: &AuthUser) -> (s: ScopeStep)
    ensures
        s == if actor.user_type == UserType::Team {
            if team_visible_status(status@) {
                ScopeStep::CheckRoster
            } else {
                ScopeStep::Hidden
            }
        } else if reads_all(actor) {
            ScopeStep::Granted
        } else {
            ScopeStep::CheckAssignment
        },
{
    if actor.user_type == UserType::Team {
        if str_eq(status, "RUNNING") || str_eq(status, "PAUSED") || str_eq(status, "ENDED") || str_eq(
            status,
            "ARCHIVED",
        ) {
            ScopeStep::CheckRoster
        } else {
            ScopeStep::Hidden
        }
    } else if can_read_all(actor) {
        ScopeStep::Granted
    } else {
        ScopeStep::CheckAssignment
    }
}

pub open spec fn has_submissions_error() -> AppError {
    coded_error(
        ErrorKind::Conflict,
        "CONTEST_PROBLEM_HAS_SUBMISSIONS",
        "A problem with submissions cannot be removed from the contest",
    )
}

/// A problem leaves a contest only while nobody submitted to it; the
/// removal must then have found the assignment (`rows_removed`).
pub fn removal_outcome(has_submissions: bool, rows_removed: u64) -> (r: Result<(), AppError>)
    ensures
        r == if has_submissions {
            Err(has_submissions_error())
        } else if rows_removed == 0 {
            Err(assignment_not_found_error())
        } else {
            Ok::<(), AppError>(())
        },
{
    if has_submissions {
        return Err(AppError::conflict(
            "CONTEST_PROBLEM_HAS_SUBMISSIONS",
            "A problem with submissions cannot be removed from the contest",
        ));
    }
    if rows_removed == 0 {
        return Err(assignment_not_found());
    }
    Ok(())
}

/// The strings of a JSON array of strings, as `serde_json` reads `text`, if
/// it reads one.
pub uninterp spec fn json_string_list(text: Seq<char>) -> Option<Seq<Seq<char>>>;

/// The views of a list of strings.
pub open spec fn string_views(v: Seq<String>) -> Seq<Seq<char>> {
    v.map_values(|s: String| s@)
}

/// `serde_json::from_str::<Vec<String>>(text)`; what it accepts is named,
/// not stated.
#[verifier::external_body]
fn parse_string_list(text: &str) -> (r: Option<Vec<String>>)
    ensures
        match r {
            Some(v) => json_string_list(text@) == Some(string_views(v@)),
            None => json_string_list(text@) is None,
        },
{
    serde_json::from_str::<Vec<String>>(text).ok()
}

/// The languages of a problem from their stored JSON text; text that is
/// not a JSON list of strings is an internal error.
pub fn decode_languages(text: &str) -> (r: Result<Vec<String>, AppError>)
    ensures
        match json_string_list(text@) {
            Some(l) => r matches Ok(v) && string_views(v@) == l,
            None => r == Err::<Vec<String>, AppError>(
                coded_error(ErrorKind::Internal, "INTERNAL_ERROR", "decode contest problem languages"),
            ),
        },
{
    match parse_string_list(text) {
        Some(v) => Ok(v),
        None => Err(AppError::internal("decode contest problem languages")),
    }
}

/// A problem's published statement, rendered.
#[derive(Debug)]
pub struct PublishedStatementResponse {
    pub lang_code: String,
    pub rendered_html: String,
    pub updated_at: Timestamp,
}

/// A problem of a contest with its limits, languages and statement.
#[derive(Debug)]
pub struct ContestProblemDetailResponse {
    pub contest_id: i64,
    pub problem_id: i64,
    pub alias: String,
    pub display_order: i32,
    pub color: Option<String>,
    pub slug: String,
    pub title: String,
    pub time_limit_ms: i32,
    pub memory_limit_mb: i32,
    pub output_limit_kb: i32,
    pub languages: Vec<String>,
    pub statement: Option<PublishedStatementResponse>,
}

/// A stored contest problem joined with its problem and statement; the
/// languages are JSON text, and the statement columns are all set or all
/// empty.
pub struct ContestProblemDetailRow {
    pub contest_id: i64,
    pub problem_id: i64,
    pub alias: String,
    pub display_order: i32,
    pub color: Option<String>,
    pub slug: String,
    pub title: String,
    pub time_limit_ms: i32,
    pub memory_limit_mb: i32,
    pub output_limit_kb: i32,
    pub languages: String,
    pub statement_lang_code: Option<String>,
    pub statement_body: Option<String>,
    pub statement_updated_at: Option<Timestamp>,
}

/// Whether `response` carries the row's own columns unchanged.
pub open spec fn detail_columns_kept(row: ContestProblemDetailRow, response: ContestProblemDetailResponse) -> bool {
    &&& response.contest_id == row.contest_id
    &&& response.problem_id == row.problem_id
    &&& response.alias == row.alias
    &&& response.display_order == row.display_order
    &&& response.color == row.color
    &&& response.slug == row.slug
    &&& response.title == row.title
    &&& response.time_limit_ms == row.time_limit_ms
    &&& response.memory_limit_mb == row.memory_limit_mb
    &&& response.output_limit_kb == row.output_limit_kb
}

impl ContestProblemDetailRow {
    /// The response for the row. `rendered_html` is the rendering of
    /// `statement_body`, used where the row has a statement. Languages that
    /// do not decode, and statement columns set only in part, are internal
    /// errors, in that order.
    pub fn response(self, rendered_html: String) -> (r: Result<ContestProblemDetailResponse, AppError>)
        ensures
            match json_string_list(self.languages@) {
                None => r == Err::<ContestProblemDetailResponse, AppError>(
                    coded_error(ErrorKind::Internal, "INTERNAL_ERROR", "decode contest problem languages"),
                ),
                Some(l) => match (self.statement_lang_code, self.statement_body, self.statement_updated_at) {
                    (Some(lang_code), Some(_), Some(updated_at)) => r matches Ok(v) && {
                        &&& detail_columns_kept(self, v)
                        &&& string_views(v.languages@) == l
                        &&& v.statement == Some(PublishedStatementResponse { lang_code, rendered_html, updated_at })
                    },
                    (None, None, None) => r matches Ok(v) && {
                        &&& detail_columns_kept(self, v)
                        &&& string_views(v.languages@) == l
                        &&& v.statement is None
                    },
                    _ => r == Err::<ContestProblemDetailResponse, AppError>(
                        coded_error(ErrorKind::Internal, "INTERNAL_ERROR", "decode contest problem statement"),
                    ),
                },
            },
    {
        let languages = match decode_languages(self.languages.as_str()) {
            Ok(v) => v,
            Err(e) => return Err(e),
        };
        let ContestProblemDetailRow {
            contest_id, problem_id, alias, display_order, color, slug, title, time_limit_ms,
            memory_limit_mb, output_limit_kb, languages: _, statement_lang_code, statement_body,
            statement_updated_at,
        } = self;
        let statement = match (statement_lang_code, statement_body, statement_updated_at) {
            (Some(lang_code), Some(_), Some(updated_at)) => Some(
                PublishedStatementResponse { lang_code, rendered_html, updated_at },
            ),
            (None, None, None) => None,
            _ => return Err(AppError::internal("decode contest problem statement")),
        };
        Ok(ContestProblemDetailResponse {
            contest_id,
            problem_id,
            alias,
            display_order,
            color,
            slug,
            title,
            time_limit_ms,
            memory_limit_mb,
            output_limit_kb,
            languages,
            statement,
        })
    }
}

/// A problem can be assigned only while it exists.
pub fn assigned_problem_exists(problem_exists: bool) -> (r: Result<(), AppError>)
    ensures
        r == if problem_exists {
            Ok::<(), AppError>(())
        } else {
            Err(coded_error(ErrorKind::NotFound, "PROBLEM_NOT_FOUND", "Problem was not found"))
        },
{
    if problem_exists {
        Ok(())
    } else {
        Err(AppError::not_found("PROBLEM_NOT_FOUND", "Problem was not found"))
    }
}

} // verus!
