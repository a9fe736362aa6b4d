//! Each request's checks, in the order they are made, from the request's
//! headers and fields (and, for paid features, the verdict on its Studio
//! license) to what happens next: refuse, verify the license, or go on to
//! the store.

use vstd::prelude::*;

use crate::decisions::{check_pack_size, check_revision, loop_plan, plan_loop, revision_draft, LoopPlan, LoopPlanView};
use crate::error::{outcome, refusal, ApiError, UNPROCESSABLE_ENTITY};
use crate::text::trimmed;
use crate::studio::{presented_license, studio_access, studio_answer, studio_license};
use crate::validate::{
    confirm_workspace_deletion, deletion_confirmed, presented_key, rubric_draft, text_or_empty,
    token_check, unicode_uppercase, validate_rubric, validate_token, workspace_key, RubricDraft,
};

verus! {

/// What a request does next: it is refused; or the Studio license it
/// presents must be verified (and the request decided again with the
/// verdict); or it goes on, with what the checks gave.
#[derive(Debug)]
pub enum Step<T> {
    Refuse(ApiError),
    VerifyLicense(String),
    Proceed(T),
}

/// A next step as plain values.
pub enum StepView<V> {
    Refuse((u16, Seq<char>)),
    VerifyLicense(Seq<char>),
    Proceed(V),
}

impl<T: View> View for Step<T> {
    type V = StepView<T::V>;

    open spec fn view(&self) -> StepView<T::V> {
        match self {
            Step::Refuse(e) => StepView::Refuse(e@),
            Step::VerifyLicense(l) => StepView::VerifyLicense(l@),
            Step::Proceed(v) => StepView::Proceed(v@),
        }
    }
}

/// The Studio check of a paid feature: the license must be presented; with
/// no verdict yet it must be verified; then only an active license passes.
pub open spec fn studio_gate(license_header: Option<&str>, license_verdict: Option<Result<bool, ()>>) -> StepView<()> {
    match presented_license(license_header) {
        Err(e) => StepView::Refuse(e),
        Ok(license) => match license_verdict {
            None => StepView::VerifyLicense(license),
            Some(v) => match studio_answer(v) {
                Ok(_) => StepView::Proceed(()),
                Err(e) => StepView::Refuse(e),
            },
        },
    }
}

fn studio_step(license_header: Option<&str>, license_verdict: Option<Result<bool, ()>>) -> (s: Step<()>)
    ensures
        s@ == studio_gate(license_header, license_verdict),
{
    let license = match studio_license(license_header) {
        Err(e) => return Step::Refuse(e),
        Ok(l) => l,
    };
    match license_verdict {
        None => Step::VerifyLicense(license),
        Some(v) => match studio_access(v) {
            Ok(()) => Step::Proceed(()),
            Err(e) => Step::Refuse(e),
        },
    }
}

/// Creating a team pack: the workspace key, then a Studio license (always),
/// then 1 to 100 rubric codes.
pub open spec fn pack_step(
    key_header: Option<&str>,
    license_header: Option<&str>,
    license_verdict: Option<Result<bool, ()>>,
    count: nat,
) -> StepView<Seq<char>> {
    match presented_key(key_header) {
        Err(e) => StepView::Refuse(e),
        Ok(key) => match studio_gate(license_header, license_verdict) {
            StepView::Refuse(e) => StepView::Refuse(e),
            StepView::VerifyLicense(l) => StepView::VerifyLicense(l),
            StepView::Proceed(_) => if 1 <= count <= 100 {
                StepView::Proceed(key)
            } else {
                StepView::Refuse(
                    refusal(
                        UNPROCESSABLE_ENTITY,
                        "Choose between 1 and 100 rubric codes for a team pack."@,
                    ),
                )
            },
        },
    }
}

/// Decides a request to create a team pack of `count` rubric codes; it goes
/// on with the workspace key.
pub fn pack_request(
    key_header: Option<&str>,
    license_header: Option<&str>,
    license_verdict: Option<Result<bool, ()>>,
    count: usize,
) -> (s: Step<String>)
    ensures
        s@ == pack_step(key_header, license_header, license_verdict, count as nat),
{
    let key = match workspace_key(key_header) {
        Err(e) => return Step::Refuse(e),
        Ok(k) => k,
    };
    match studio_step(license_header, license_verdict) {
        Step::Refuse(e) => Step::Refuse(e),
        Step::VerifyLicense(l) => Step::VerifyLicense(l),
        Step::Proceed(()) => match check_pack_size(count) {
            Err(e) => Step::Refuse(e),
            Ok(()) => Step::Proceed(key),
        },
    }
}

/// Importing a team pack: the workspace key, then a Studio license (always),
/// then a well-formed pack token.
pub open spec fn import_step(
    key_header: Option<&str>,
    license_header: Option<&str>,
    license_verdict: Option<Result<bool, ()>>,
    token: Seq<char>,
) -> StepView<Seq<char>> {
    match presented_key(key_header) {
        Err(e) => StepView::Refuse(e),
        Ok(key) => match studio_gate(license_header, license_verdict) {
            StepView::Refuse(e) => StepView::Refuse(e),
            StepView::VerifyLicense(l) => StepView::VerifyLicense(l),
            StepView::Proceed(_) => match token_check(token) {
                Err(e) => StepView::Refuse(e),
                Ok(_) => StepView::Proceed(key),
            },
        },
    }
}

/// Decides a request to import the team pack `token`; it goes on with the
/// workspace key.
pub fn import_request(
    key_header: Option<&str>,
    license_header: Option<&str>,
    license_verdict: Option<Result<bool, ()>>,
    token: &str,
) -> (s: Step<String>)
    ensures
        s@ == import_step(key_header, license_header, license_verdict, token@),
{
    let key = match workspace_key(key_header) {
        Err(e) => return Step::Refuse(e),
        Ok(k) => k,
    };
    match studio_step(license_header, license_verdict) {
        Step::Refuse(e) => Step::Refuse(e),
        Step::VerifyLicense(l) => Step::VerifyLicense(l),
        Step::Proceed(()) => match validate_token(token) {
            Err(e) => Step::Refuse(e),
            Ok(()) => Step::Proceed(key),
        },
    }
}

/// Creating a feedback link: the workspace key, then the link's fields;
/// then, only when it is kept longer than the free 30 days, a Studio
/// license.
pub open spec fn loop_step(
    key_header: Option<&str>,
    assignment_title: Seq<char>,
    student_label: Seq<char>,
    teacher_note: Seq<char>,
    rubric_ids: Seq<i64>,
    retention_days: Option<i64>,
    license_header: Option<&str>,
    license_verdict: Option<Result<bool, ()>>,
) -> StepView<(Seq<char>, LoopPlanView)> {
    match presented_key(key_header) {
        Err(e) => StepView::Refuse(e),
        Ok(key) => match loop_plan(
            assignment_title,
            student_label,
            teacher_note,
            rubric_ids,
            retention_days,
        ) {
            Err(e) => StepView::Refuse(e),
            Ok(plan) => if !plan.needs_studio {
                StepView::Proceed((key, plan))
            } else {
                match studio_gate(license_header, license_verdict) {
                    StepView::Refuse(e) => StepView::Refuse(e),
                    StepView::VerifyLicense(l) => StepView::VerifyLicense(l),
                    StepView::Proceed(_) => StepView::Proceed((key, plan)),
                }
            },
        },
    }
}

/// Decides a request to create a feedback link; it goes on with the
/// workspace key and the checked link.
pub fn loop_request(
    key_header: Option<&str>,
    assignment_title: &str,
    student_label: Option<&str>,
    teacher_note: Option<&str>,
    rubric_ids: Vec<i64>,
    retention_days: Option<i64>,
    license_header: Option<&str>,
    license_verdict: Option<Result<bool, ()>>,
) -> (s: Step<(String, LoopPlan)>)
    ensures
        s@ == loop_step(
            key_header,
            assignment_title@,
            text_or_empty(student_label),
            text_or_empty(teacher_note),
            rubric_ids@,
            retention_days,
            license_header,
            license_verdict,
        ),
        s matches Step::Proceed((key, plan)) ==> key@ == text_or_empty(key_header)
            && plan.rubric_ids@ == rubric_ids@,
{
    let key = match workspace_key(key_header) {
        Err(e) => return Step::Refuse(e),
        Ok(k) => k,
    };
    let plan = match plan_loop(
        assignment_title,
        student_label,
        teacher_note,
        rubric_ids,
        retention_days,
    ) {
        Err(e) => return Step::Refuse(e),
        Ok(p) => p,
    };
    if !plan.needs_studio {
        return Step::Proceed((key, plan));
    }
    match studio_step(license_header, license_verdict) {
        Step::Refuse(e) => Step::Refuse(e),
        Step::VerifyLicense(l) => Step::VerifyLicense(l),
        Step::Proceed(()) => Step::Proceed((key, plan)),
    }
}

/// Creating a rubric code: the workspace key, then the code's fields.
pub open spec fn rubric_step(
    key_header: Option<&str>,
    code: Seq<char>,
    title: Seq<char>,
    guidance: Seq<char>,
    next_step: Seq<char>,
) -> Result<(Seq<char>, (Seq<char>, Seq<char>, Seq<char>, Seq<char>)), (u16, Seq<char>)> {
    match presented_key(key_header) {
        Err(e) => Err(e),
        Ok(key) => match rubric_draft(code, title, guidance, next_step) {
            Err(e) => Err(e),
            Ok(d) => Ok((key, d)),
        },
    }
}

/// Decides a request to create a rubric code; it goes on with the workspace
/// key and the checked code.
pub fn rubric_request(
    key_header: Option<&str>,
    code: &str,
    title: &str,
    guidance: &str,
    next_step: &str,
) -> (r: Result<(String, RubricDraft), ApiError>)
    ensures
        outcome(r) == rubric_step(key_header, code@, title@, guidance@, next_step@),
        r matches Ok((key, d)) ==> {
            &&& key@ == text_or_empty(key_header)
            &&& d.code@ == unicode_uppercase(trimmed(code@))
            &&& d.title@ == trimmed(title@)
            &&& d.guidance@ == trimmed(guidance@)
            &&& d.next_step@ == trimmed(next_step@)
        },
{
    let key = workspace_key(key_header)?;
    let draft = validate_rubric(code, title, guidance, next_step)?;
    Ok((key, draft))
}

/// Submitting a revision: the link token, then the revision's text.
pub open spec fn revision_step(
    token: Seq<char>,
    before: Seq<char>,
    after: Seq<char>,
    explanation: Seq<char>,
) -> Result<(Seq<char>, Seq<char>, Seq<char>), (u16, Seq<char>)> {
    match token_check(token) {
        Err(e) => Err(e),
        Ok(_) => revision_draft(before, after, explanation),
    }
}

/// Decides a revision submitted to the link `token`; it goes on with the
/// checked text.
pub fn revision_request(token: &str, before: &str, after: &str, explanation: &str) -> (r: Result<
    crate::decisions::RevisionDraft,
    ApiError,
>)
    ensures
        outcome(r) == revision_step(token@, before@, after@, explanation@),
        r matches Ok(d) ==> d.before_excerpt@ == trimmed(before@) && d.after_excerpt@ == trimmed(
            after@,
        ) && d.explanation@ == trimmed(explanation@),
{
    validate_token(token)?;
    check_revision(before, after, explanation)
}

/// Deleting a workspace: the workspace key, then the confirmation.
pub open spec fn workspace_deletion_step(key_header: Option<&str>, confirm_header: Option<&str>) -> Result<
    Seq<char>,
    (u16, Seq<char>),
> {
    match presented_key(key_header) {
        Err(e) => Err(e),
        Ok(key) => match deletion_confirmed(confirm_header) {
            Err(e) => Err(e),
            Ok(_) => Ok(key),
        },
    }
}

/// Decides a request to delete a workspace; it goes on with the key.
pub fn workspace_deletion_request(key_header: Option<&str>, confirm_header: Option<&str>) -> (r:
    Result<String, ApiError>)
    ensures
        outcome(r) == workspace_deletion_step(key_header, confirm_header),
{
    let key = workspace_key(key_header)?;
    confirm_workspace_deletion(confirm_header)?;
    Ok(key)
}

} // verus!
