//! What each request is answered, decided from the request's fields and
//! from what the store reported: the checks on new feedback links, rubric
//! packs and revisions, and the outcome of each write.

use vstd::prelude::*;

use crate::error::{
    internal_message, outcome, refusal, verdict, ApiError, CONFLICT, GONE, INTERNAL_SERVER_ERROR,
    NOT_FOUND, UNPROCESSABLE_ENTITY,
};
use crate::text::{same_text, string_from_chars, trimmed};
use crate::validate::{clean_optional, clean_required, optional_text, required_text, text_or_empty};

verus! {

/// How long a link lives when the teacher picks nothing: the free 30 days.
pub const FREE_RETENTION_DAYS: i64 = 30;

/// A new feedback link, checked: what is stored for it, and whether it needs
/// a Studio license (it does when it is kept longer than the free 30 days).
pub struct LoopPlan {
    pub assignment_title: String,
    pub student_label: String,
    pub teacher_note: String,
    pub rubric_ids: Vec<i64>,
    pub retention_days: i64,
    pub needs_studio: bool,
}

/// A checked feedback link as plain values.
pub struct LoopPlanView {
    pub assignment_title: Seq<char>,
    pub student_label: Seq<char>,
    pub teacher_note: Seq<char>,
    pub rubric_ids: Seq<i64>,
    pub retention_days: i64,
    pub needs_studio: bool,
}

impl View for LoopPlan {
    type V = LoopPlanView;

    open spec fn view(&self) -> LoopPlanView {
        LoopPlanView {
            assignment_title: self.assignment_title@,
            student_label: self.student_label@,
            teacher_note: self.teacher_note@,
            rubric_ids: self.rubric_ids@,
            retention_days: self.retention_days,
            needs_studio: self.needs_studio,
        }
    }
}

/// The retention a link is given: the one asked for, else the free 30 days.
pub open spec fn effective_retention(retention_days: Option<i64>) -> i64 {
    match retention_days {
        Some(d) => d,
        None => FREE_RETENTION_DAYS,
    }
}

/// The checks on a new feedback link, in the order they are made.
pub open spec fn loop_plan(
    assignment_title: Seq<char>,
    student_label: Seq<char>,
    teacher_note: Seq<char>,
    rubric_ids: Seq<i64>,
    retention_days: Option<i64>,
) -> Result<LoopPlanView, (u16, Seq<char>)> {
    match required_text("Assignment title"@, assignment_title, 2, 120) {
        Err(e) => Err(e),
        Ok(title) => match optional_text(student_label, 80) {
            Err(e) => Err(e),
            Ok(label) => match optional_text(teacher_note, 800) {
                Err(e) => Err(e),
                Ok(note) => if rubric_ids.len() == 0 || rubric_ids.len() > 12 {
                    Err(refusal(UNPROCESSABLE_ENTITY, "Choose between 1 and 12 rubric codes."@))
                } else {
                    let retention = effective_retention(retention_days);
                    if !(7 <= retention <= 365) {
                        Err(
                            refusal(
                                UNPROCESSABLE_ENTITY,
                                "Retention must be between 7 and 365 days."@,
                            ),
                        )
                    } else {
                        Ok(
                            LoopPlanView {
                                assignment_title: title,
                                student_label: label,
                                teacher_note: note,
                                rubric_ids,
                                retention_days: retention,
                                needs_studio: retention > FREE_RETENTION_DAYS,
                            },
                        )
                    }
                },
            },
        },
    }
}

/// Checks a request for a new feedback link: title, optional student label
/// and teacher note, 1 to 12 rubric codes and a retention of 7 to 365 days
/// (30 when none is given).
pub fn plan_loop(
    assignment_title: &str,
    student_label: Option<&str>,
    teacher_note: Option<&str>,
    rubric_ids: Vec<i64>,
    retention_days: Option<i64>,
) -> (r: Result<LoopPlan, ApiError>)
    ensures
        outcome(r) == loop_plan(
            assignment_title@,
            text_or_empty(student_label),
            text_or_empty(teacher_note),
            rubric_ids@,
            retention_days,
        ),
        r matches Ok(p) ==> {
            &&& p.rubric_ids@ == rubric_ids@
            &&& p.assignment_title@ == trimmed(assignment_title@)
            &&& p.student_label@ == trimmed(text_or_empty(student_label))
            &&& p.teacher_note@ == trimmed(text_or_empty(teacher_note))
            &&& p.retention_days == (match retention_days {
                Some(d) => d,
                None => 30i64,
            })
            &&& p.needs_studio == (p.retention_days > 30)
        },
{
    let title = clean_required("Assignment title", assignment_title, 2, 120)?;
    let label_text: &str = match student_label {
        Some(s) => s,
        None => {
            proof {
                reveal_strlit("");
            }
            ""
        },
    };
    let label = clean_optional(label_text, 80)?;
    let note_text: &str = match teacher_note {
        Some(s) => s,
        None => {
            proof {
                reveal_strlit("");
            }
            ""
        },
    };
    let note = clean_optional(note_text, 800)?;
    if rubric_ids.len() == 0 || rubric_ids.len() > 12 {
        return Err(ApiError::validation("Choose between 1 and 12 rubric codes."));
    }
    let retention = match retention_days {
        Some(d) => d,
        None => FREE_RETENTION_DAYS,
    };
    if !(7 <= retention && retention <= 365) {
        return Err(ApiError::validation("Retention must be between 7 and 365 days."));
    }
    assert(label_text@ == text_or_empty(student_label));
    assert(note_text@ == text_or_empty(teacher_note));
    assert(optional_text(text_or_empty(student_label), 80) == Ok::<Seq<char>, (u16, Seq<char>)>(label@));
    assert(retention == effective_retention(retention_days));
    Ok(
        LoopPlan {
            assignment_title: title,
            student_label: label,
            teacher_note: note,
            rubric_ids,
            retention_days: retention,
            needs_studio: retention > FREE_RETENTION_DAYS,
        },
    )
}

/// The parameter list of an SQL `IN (...)` clause for `n` values:
/// `n` question marks separated by commas.
pub open spec fn placeholder_list(n: nat) -> Seq<char>
    decreases n,
{
    if n == 0 {
        Seq::empty()
    } else if n == 1 {
        seq!['?']
    } else {
        placeholder_list((n - 1) as nat) + seq![',', '?']
    }
}

/// The SQL parameter list for `n` values.
pub fn sql_placeholders(n: usize) -> (s: String)
    ensures
        s@ == placeholder_list(n as nat),
{
    let mut v: Vec<char> = Vec::new();
    let mut i: usize = 0;
    while i < n
        invariant
            i <= n,
            v@ == placeholder_list(i as nat),
        decreases n - i,
    {
        if i > 0 {
            v.push(',');
        }
        v.push('?');
        i = i + 1;
        proof {
            if i > 1 {
                assert(v@ =~= placeholder_list((i - 1) as nat) + seq![',', '?']);
            } else {
                assert(v@ =~= seq!['?']);
            }
        }
    }
    string_from_chars(&v)
}

/// The error when some of the chosen rubric codes are not in the workspace.
pub open spec fn missing_rubrics_message() -> Seq<char> {
    "One or more rubric codes no longer exist."@
}

/// Every chosen rubric code must still exist in the workspace: the store
/// found `found` of the `requested` ones.
pub fn rubrics_found(found: i64, requested: usize) -> (r: Result<(), ApiError>)
    ensures
        verdict(r) == (if found == requested {
            Ok(())
        } else {
            Err(refusal(UNPROCESSABLE_ENTITY, missing_rubrics_message()))
        }),
{
    if (found as i128) != (requested as i128) {
        return Err(ApiError::validation("One or more rubric codes no longer exist."));
    }
    Ok(())
}

/// A rubric pack holds 1 to 100 codes.
pub fn check_pack_size(count: usize) -> (r: Result<(), ApiError>)
    ensures
        verdict(r) == (if 1 <= count <= 100 {
            Ok(())
        } else {
            Err(
                refusal(
                    UNPROCESSABLE_ENTITY,
                    "Choose between 1 and 100 rubric codes for a team pack."@,
                ),
            )
        }),
{
    if count == 0 || count > 100 {
        return Err(ApiError::validation("Choose between 1 and 100 rubric codes for a team pack."));
    }
    Ok(())
}

/// What the store reported for a write.
#[derive(Debug, Clone, Copy)]
pub enum StoreWrite {
    /// The write was made: how many rows it changed, and the id of the row
    /// it inserted last.
    Done { rows_affected: u64, last_insert_id: i64 },
    /// A uniqueness constraint refused the write.
    UniqueViolation,
    /// A foreign key constraint refused the write.
    ForeignKeyViolation,
    /// Any other failure.
    Failed,
}

/// The answer to inserting a new rubric code: its id, or a conflict when the
/// workspace already has that code.
pub fn rubric_insertion(write: StoreWrite) -> (r: Result<i64, ApiError>)
    ensures
        match write {
            StoreWrite::Done { last_insert_id, .. } => r == Ok::<i64, ApiError>(last_insert_id),
            StoreWrite::UniqueViolation => r is Err && r->Err_0@ == refusal(
                CONFLICT,
                "That rubric code already exists in this workspace."@,
            ),
            _ => r is Err && r->Err_0@ == refusal(INTERNAL_SERVER_ERROR, internal_message()),
        },
{
    match write {
        StoreWrite::Done { last_insert_id, .. } => Ok(last_insert_id),
        StoreWrite::UniqueViolation => Err(
            ApiError::conflict("That rubric code already exists in this workspace."),
        ),
        _ => Err(ApiError::internal()),
    }
}

/// The error when a rubric code that a live link uses is deleted.
pub open spec fn rubric_in_use_message() -> Seq<char> {
    "This code is used in a feedback link. Delete that link first."@
}

/// A rubric code that a live feedback link uses cannot be deleted.
pub fn rubric_not_in_use(linked: bool) -> (r: Result<(), ApiError>)
    ensures
        verdict(r) == (if linked {
            Err(refusal(CONFLICT, rubric_in_use_message()))
        } else {
            Ok(())
        }),
{
    if linked {
        return Err(ApiError::conflict("This code is used in a feedback link. Delete that link first."));
    }
    Ok(())
}

/// The answer to deleting a rubric code: done when a row went, not found when
/// none did, a conflict when a link still refers to it.
pub fn rubric_deletion(write: StoreWrite) -> (r: Result<(), ApiError>)
    ensures
        verdict(r) == match write {
            StoreWrite::Done { rows_affected, .. } => if rows_affected == 0 {
                Err(refusal(NOT_FOUND, "Rubric code not found."@))
            } else {
                Ok(())
            },
            StoreWrite::ForeignKeyViolation => Err(refusal(CONFLICT, rubric_in_use_message())),
            _ => Err(refusal(INTERNAL_SERVER_ERROR, internal_message())),
        },
{
    match write {
        StoreWrite::Done { rows_affected, .. } => {
            if rows_affected == 0 {
                Err(ApiError::not_found("Rubric code not found."))
            } else {
                Ok(())
            }
        },
        StoreWrite::ForeignKeyViolation => Err(
            ApiError::conflict("This code is used in a feedback link. Delete that link first."),
        ),
        _ => Err(ApiError::internal()),
    }
}

/// The answer to deleting a feedback link, given how many live links of the
/// workspace the deletion marked.
pub fn link_deletion(rows_affected: u64) -> (r: Result<(), ApiError>)
    ensures
        verdict(r) == (if rows_affected == 0 {
            Err(refusal(NOT_FOUND, "Feedback link not found."@))
        } else {
            Ok(())
        }),
{
    if rows_affected == 0 {
        return Err(ApiError::not_found("Feedback link not found."));
    }
    Ok(())
}

/// The status a review sets: marking a revision reviewed, or reopening it,
/// which makes it submitted again.
pub fn review_status(reviewed: bool) -> (s: &'static str)
    ensures
        s@ == (if reviewed {
            "reviewed"@
        } else {
            "submitted"@
        }),
{
    if reviewed {
        "reviewed"
    } else {
        "submitted"
    }
}

/// The answer to a review, given how many submitted, live links of the
/// workspace it changed: only a submitted revision can be reviewed.
pub fn review_applied(rows_affected: u64) -> (r: Result<(), ApiError>)
    ensures
        verdict(r) == (if rows_affected == 0 {
            Err(refusal(CONFLICT, "Only a submitted revision can be reviewed."@))
        } else {
            Ok(())
        }),
{
    if rows_affected == 0 {
        return Err(ApiError::conflict("Only a submitted revision can be reviewed."));
    }
    Ok(())
}

/// A student link must exist and not be deleted.
pub fn student_link_found(found: bool) -> (r: Result<(), ApiError>)
    ensures
        verdict(r) == (if found {
            Ok(())
        } else {
            Err(refusal(NOT_FOUND, "This revision link was not found or has been deleted."@))
        }),
{
    if !found {
        return Err(ApiError::not_found("This revision link was not found or has been deleted."));
    }
    Ok(())
}

/// A student link past its retention is gone; `expired` is the store's
/// answer to whether now is later than the link's expiry (1 when it is).
pub fn student_link_current(expired: i64) -> (r: Result<(), ApiError>)
    ensures
        verdict(r) == (if expired == 1 {
            Err(
                refusal(GONE, "This revision link has expired. Ask your teacher for a new link."@),
            )
        } else {
            Ok(())
        }),
{
    if expired == 1 {
        return Err(ApiError::gone("This revision link has expired. Ask your teacher for a new link."));
    }
    Ok(())
}

/// A revision, checked: the excerpt before, the excerpt after and the
/// student's explanation.
pub struct RevisionDraft {
    pub before_excerpt: String,
    pub after_excerpt: String,
    pub explanation: String,
}

impl View for RevisionDraft {
    type V = (Seq<char>, Seq<char>, Seq<char>);

    open spec fn view(&self) -> Self::V {
        (self.before_excerpt@, self.after_excerpt@, self.explanation@)
    }
}

/// The checks on a revision's text, in the order they are made.
pub open spec fn revision_draft(before: Seq<char>, after: Seq<char>, explanation: Seq<char>) -> Result<
    (Seq<char>, Seq<char>, Seq<char>),
    (u16, Seq<char>),
> {
    match required_text("Before excerpt"@, before, 1, 4000) {
        Err(e) => Err(e),
        Ok(b) => match required_text("After excerpt"@, after, 1, 4000) {
            Err(e) => Err(e),
            Ok(a) => match required_text("Revision explanation"@, explanation, 8, 2000) {
                Err(e) => Err(e),
                Ok(x) => Ok((b, a, x)),
            },
        },
    }
}

/// Checks the text of a submitted revision.
pub fn check_revision(before: &str, after: &str, explanation: &str) -> (r: Result<
    RevisionDraft,
    ApiError,
>)
    ensures
        outcome(r) == revision_draft(before@, after@, explanation@),
        r matches Ok(d) ==> d.before_excerpt@ == trimmed(before@) && d.after_excerpt@ == trimmed(
            after@,
        ) && d.explanation@ == trimmed(explanation@),
{
    let before_excerpt = clean_required("Before excerpt", before, 1, 4000)?;
    let after_excerpt = clean_required("After excerpt", after, 1, 4000)?;
    let explanation = clean_required("Revision explanation", explanation, 8, 2000)?;
    Ok(RevisionDraft { before_excerpt, after_excerpt, explanation })
}

/// A revision can be submitted to a live, unexpired link (whose status the
/// store gives, absent when there is no such link) unless the teacher has
/// already reviewed it.
pub fn revision_accepted(status: Option<&str>) -> (r: Result<(), ApiError>)
    ensures
        verdict(r) == (if status is None {
            Err(
                refusal(
                    NOT_FOUND,
                    "This revision link was not found, has expired, or was deleted."@,
                ),
            )
        } else if text_or_empty(status) == "reviewed"@ {
            Err(
                refusal(
                    CONFLICT,
                    "This revision has already been reviewed. Ask your teacher to reopen it."@,
                ),
            )
        } else {
            Ok(())
        }),
{
    match status {
        None => Err(
            ApiError::not_found("This revision link was not found, has expired, or was deleted."),
        ),
        Some(s) => {
            if same_text(s, "reviewed") {
                Err(
                    ApiError::conflict(
                        "This revision has already been reviewed. Ask your teacher to reopen it.",
                    ),
                )
            } else {
                Ok(())
            }
        },
    }
}

/// A rubric pack must exist and be younger than 30 days.
pub fn pack_found(found: bool) -> (r: Result<(), ApiError>)
    ensures
        verdict(r) == (if found {
            Ok(())
        } else {
            Err(refusal(NOT_FOUND, "This team pack was not found or has expired."@))
        }),
{
    if !found {
        return Err(ApiError::not_found("This team pack was not found or has expired."));
    }
    Ok(())
}

} // verus!
