//! Properties of the service that hold for every input: stated over the
//! same plain values that the functions' contracts use, and proved.

use vstd::prelude::*;

use crate::cache::cache_control_for;
use crate::checklist::{checklist_record, lemma_sorted_ids, same_ids};
use crate::decisions::{loop_plan, revision_draft, FREE_RETENTION_DAYS};
use crate::requests::{import_step, loop_step, pack_step, rubric_step, StepView};
use crate::studio::without_trailing_slashes;
use crate::text::{lemma_trimmed_idempotent, starts_with, trimmed};
use crate::token::{is_simple_uuid, lemma_simple_uuid_is_link_token};
use crate::validate::{
    code_chars, is_link_token, optional_text, presented_key, required_text, rubric_draft,
    text_or_empty, token_check, unicode_uppercase,
};

verus! {

broadcast use vstd::seq_lib::group_to_multiset_ensures;

/// A cleaned required field passes the same check again, unchanged: what
/// is stored is already in the form the check gives.
pub proof fn law_required_text_is_stable(label: Seq<char>, value: Seq<char>, min: nat, max: nat)
    requires
        required_text(label, value, min, max) is Ok,
    ensures
        required_text(label, required_text(label, value, min, max)->Ok_0, min, max)
            == required_text(label, value, min, max),
{
    lemma_trimmed_idempotent(value);
}

/// A cleaned optional field passes the same check again, unchanged.
pub proof fn law_optional_text_is_stable(value: Seq<char>, max: nat)
    requires
        optional_text(value, max) is Ok,
    ensures
        optional_text(optional_text(value, max)->Ok_0, max) == optional_text(value, max),
{
    lemma_trimmed_idempotent(value);
}

/// Every token the service makes for a link or a pack is accepted as a
/// link token.
pub proof fn law_new_tokens_are_valid_links(t: Seq<char>)
    requires
        is_simple_uuid(t),
    ensures
        is_link_token(t),
{
    lemma_simple_uuid_is_link_token(t);
}

/// The order in which a student checks the criteria does not matter: two
/// checklists with the same ids get the same answer and store the same text.
pub proof fn law_checklist_order_does_not_matter(
    assigned: Seq<i64>,
    first: Seq<i64>,
    second: Seq<i64>,
)
    requires
        same_ids(first, second),
    ensures
        checklist_record(assigned, first) == checklist_record(assigned, second),
{
    lemma_sorted_ids(first, second);
    lemma_sorted_ids(assigned, first);
    lemma_sorted_ids(assigned, second);
}

/// A checklist that names a criterion twice is refused when each criterion
/// is assigned once.
pub proof fn law_duplicate_checks_are_refused(assigned: Seq<i64>, checklist: Seq<i64>)
    requires
        assigned.no_duplicates(),
        !checklist.no_duplicates(),
    ensures
        !same_ids(assigned, checklist),
        checklist_record(assigned, checklist) is Err,
{
    assigned.lemma_multiset_has_no_duplicates();
    if same_ids(assigned, checklist) {
        assert forall|x: i64| checklist.to_multiset().contains(x) implies checklist.to_multiset().count(
            x,
        ) == 1 by {
            assert(assigned.to_multiset().contains(x));
        }
        checklist.lemma_multiset_has_no_duplicates_conv();
    }
}

/// A link made without a chosen retention lives the free 30 days and needs
/// no Studio license.
pub proof fn law_default_links_are_free(
    assignment_title: Seq<char>,
    student_label: Seq<char>,
    teacher_note: Seq<char>,
    rubric_ids: Seq<i64>,
)
    requires
        loop_plan(assignment_title, student_label, teacher_note, rubric_ids, None) is Ok,
    ensures
        ({
            let plan = loop_plan(assignment_title, student_label, teacher_note, rubric_ids, None)->Ok_0;
            plan.retention_days == FREE_RETENTION_DAYS && !plan.needs_studio
        }),
{
}

/// A link kept longer than 30 days needs a Studio license, and one kept at
/// most 30 days does not.
pub proof fn law_long_retention_needs_studio(
    assignment_title: Seq<char>,
    student_label: Seq<char>,
    teacher_note: Seq<char>,
    rubric_ids: Seq<i64>,
    days: i64,
)
    requires
        loop_plan(assignment_title, student_label, teacher_note, rubric_ids, Some(days)) is Ok,
    ensures
        ({
            let plan = loop_plan(assignment_title, student_label, teacher_note, rubric_ids, Some(days))->Ok_0;
            plan.retention_days == days && (plan.needs_studio <==> days > FREE_RETENTION_DAYS)
        }),
{
}

/// No API response is ever stored by the browser.
pub proof fn law_api_responses_are_never_cached(path: Seq<char>)
    requires
        starts_with(path, "/api/"@),
    ensures
        cache_control_for(path) == "no-store"@,
{
}

/// Dropping the trailing slashes of the billing address a second time
/// changes nothing.
pub proof fn law_billing_address_is_normal(url: Seq<char>)
    ensures
        without_trailing_slashes(without_trailing_slashes(url)) == without_trailing_slashes(url),
    decreases url.len(),
{
    if url.len() > 0 && url.last() == '/' {
        law_billing_address_is_normal(url.drop_last());
    }
}

/// A team pack is created only with an active Studio license.
pub proof fn law_team_packs_need_studio(
    key_header: Option<&str>,
    license_header: Option<&str>,
    license_verdict: Option<Result<bool, ()>>,
    count: nat,
)
    requires
        pack_step(key_header, license_header, license_verdict, count) is Proceed,
    ensures
        license_verdict == Some(Ok::<bool, ()>(true)),
        license_header is Some,
{
}

/// A team pack is imported only with an active Studio license.
pub proof fn law_pack_imports_need_studio(
    key_header: Option<&str>,
    license_header: Option<&str>,
    license_verdict: Option<Result<bool, ()>>,
    token: Seq<char>,
)
    requires
        import_step(key_header, license_header, license_verdict, token) is Proceed,
    ensures
        license_verdict == Some(Ok::<bool, ()>(true)),
        license_header is Some,
{
}

/// A link kept longer than the free 30 days is created only with an active
/// Studio license; a link kept at most 30 days is decided the same whatever
/// license the request presents.
pub proof fn law_paid_retention_needs_studio(
    key_header: Option<&str>,
    assignment_title: Seq<char>,
    student_label: Seq<char>,
    teacher_note: Seq<char>,
    rubric_ids: Seq<i64>,
    retention_days: Option<i64>,
    license_header: Option<&str>,
    license_verdict: Option<Result<bool, ()>>,
    other_license_header: Option<&str>,
    other_verdict: Option<Result<bool, ()>>,
)
    ensures
        loop_step(key_header, assignment_title, student_label, teacher_note, rubric_ids, retention_days, license_header, license_verdict) matches StepView::Proceed(
            (key, plan),
        ) && plan.needs_studio ==> license_verdict == Some(Ok::<bool, ()>(true)),
        (retention_days matches Some(d) ==> d <= FREE_RETENTION_DAYS) ==> loop_step(
            key_header,
            assignment_title,
            student_label,
            teacher_note,
            rubric_ids,
            retention_days,
            license_header,
            license_verdict,
        ) == loop_step(
            key_header,
            assignment_title,
            student_label,
            teacher_note,
            rubric_ids,
            retention_days,
            other_license_header,
            other_verdict,
        ),
{
}

/// A revision is accepted exactly when its trimmed before excerpt and after
/// excerpt have 1 to 4000 characters and its trimmed explanation 8 to 2000;
/// what is accepted is each of the three texts, trimmed, in its own place.
pub proof fn law_revision_keeps_each_text(
    before: Seq<char>,
    after: Seq<char>,
    explanation: Seq<char>,
)
    ensures
        revision_draft(before, after, explanation) is Ok <==> (1 <= trimmed(before).len() <= 4000
            && 1 <= trimmed(after).len() <= 4000 && 8 <= trimmed(explanation).len() <= 2000),
        revision_draft(before, after, explanation) is Ok ==> revision_draft(
            before,
            after,
            explanation,
        )->Ok_0 == (trimmed(before), trimmed(after), trimmed(explanation)),
{
}

/// A new link is accepted exactly when its trimmed title has 2 to 120
/// characters, its trimmed label at most 80 and its trimmed note at most 800,
/// it names 1 to 12 rubric codes and its retention (30 days when none is
/// given) is 7 to 365 days. The accepted link keeps every chosen rubric id,
/// in order, the trimmed texts, and that retention; it needs Studio exactly
/// when the retention is over 30 days.
pub proof fn law_link_plan_keeps_the_request(
    assignment_title: Seq<char>,
    student_label: Seq<char>,
    teacher_note: Seq<char>,
    rubric_ids: Seq<i64>,
    retention_days: Option<i64>,
)
    ensures
        ({
            let retention = match retention_days {
                Some(d) => d,
                None => 30i64,
            };
            &&& loop_plan(assignment_title, student_label, teacher_note, rubric_ids, retention_days)
                is Ok <==> (2 <= trimmed(assignment_title).len() <= 120 && trimmed(
                student_label,
            ).len() <= 80 && trimmed(teacher_note).len() <= 800 && 1 <= rubric_ids.len() <= 12 && 7
                <= retention <= 365)
            &&& loop_plan(assignment_title, student_label, teacher_note, rubric_ids, retention_days)
                matches Ok(plan) ==> {
                &&& plan.rubric_ids == rubric_ids
                &&& plan.assignment_title == trimmed(assignment_title)
                &&& plan.student_label == trimmed(student_label)
                &&& plan.teacher_note == trimmed(teacher_note)
                &&& plan.retention_days == retention
                &&& plan.needs_studio == (retention > 30)
            }
        }),
{
}

/// An accepted rubric code request carries the presented workspace key and
/// each field from its own input: the code trimmed and upper-cased, the
/// name, guidance and revision prompt trimmed.
pub proof fn law_rubric_request_keeps_each_field(
    key_header: Option<&str>,
    code: Seq<char>,
    title: Seq<char>,
    guidance: Seq<char>,
    next_step: Seq<char>,
)
    ensures
        rubric_draft(code, title, guidance, next_step) matches Ok(d) ==> d == (
            unicode_uppercase(trimmed(code)),
            trimmed(title),
            trimmed(guidance),
            trimmed(next_step),
        ),
        rubric_step(key_header, code, title, guidance, next_step) matches Ok(r) ==> r == (
            text_or_empty(key_header),
            (
                unicode_uppercase(trimmed(code)),
                trimmed(title),
                trimmed(guidance),
                trimmed(next_step),
            ),
        ),
{
}

/// A workspace key is accepted exactly when it has 32 to 128 characters,
/// each an ASCII letter or digit, `-` or `_`; it is accepted unchanged.
pub proof fn law_workspace_keys(header: Option<&str>)
    ensures
        ({
            let k = text_or_empty(header);
            presented_key(header) is Ok <==> (32 <= k.len() <= 128 && forall|i: int|
                0 <= i < k.len() ==> ({
                    let c = #[trigger] k[i];
                    ('0' <= c <= '9') || ('a' <= c <= 'z') || ('A' <= c <= 'Z') || c == '-' || c
                        == '_'
                }))
        }),
        presented_key(header) matches Ok(k) ==> k == text_or_empty(header),
{
}

/// Only paths under `/api/` are never stored, only paths under `/assets/`
/// are kept for a year, and every other path must be revalidated.
pub proof fn law_cache_policy_by_path(path: Seq<char>)
    ensures
        "/api/"@.is_prefix_of(path) ==> cache_control_for(path) == "no-store"@,
        !"/api/"@.is_prefix_of(path) && "/assets/"@.is_prefix_of(path) ==> cache_control_for(path)
            == "public, max-age=31536000, immutable"@,
        !"/api/"@.is_prefix_of(path) && !"/assets/"@.is_prefix_of(path) ==> cache_control_for(path)
            == "no-cache"@,
{
}

/// A required field is accepted exactly when its trimmed text has `min` to
/// `max` characters, and what is accepted is that trimmed text.
pub proof fn law_required_fields(label: Seq<char>, value: Seq<char>, min: nat, max: nat)
    ensures
        required_text(label, value, min, max) is Ok <==> min <= trimmed(value).len() <= max,
        required_text(label, value, min, max) matches Ok(t) ==> t == trimmed(value),
{
}

/// An optional field is accepted exactly when its trimmed text has at most
/// `max` characters, and what is accepted is that trimmed text.
pub proof fn law_optional_fields(value: Seq<char>, max: nat)
    ensures
        optional_text(value, max) is Ok <==> trimmed(value).len() <= max,
        optional_text(value, max) matches Ok(t) ==> t == trimmed(value),
{
}

/// A link token is accepted exactly when it is 32 hexadecimal digits of
/// either case.
pub proof fn law_link_tokens(token: Seq<char>)
    ensures
        token_check(token) is Ok <==> (token.len() == 32 && forall|i: int|
            0 <= i < token.len() ==> ({
                let c = #[trigger] token[i];
                ('0' <= c <= '9') || ('a' <= c <= 'f') || ('A' <= c <= 'F')
            })),
{
}

/// An upper-cased rubric code is accepted, unchanged, exactly when it is
/// made of ASCII letters, digits, `-` and `.`.
pub proof fn law_code_characters(upper: Seq<char>)
    ensures
        code_chars(upper) is Ok <==> forall|i: int|
            0 <= i < upper.len() ==> ({
                let c = #[trigger] upper[i];
                ('0' <= c <= '9') || ('a' <= c <= 'z') || ('A' <= c <= 'Z') || c == '-' || c == '.'
            }),
        code_chars(upper) matches Ok(u) ==> u == upper,
{
}

/// A checklist is accepted exactly when it names each assigned id as often
/// as it is assigned, in any order.
pub proof fn law_checklist_must_match(assigned: Seq<i64>, checklist: Seq<i64>)
    ensures
        checklist_record(assigned, checklist) is Ok <==> assigned.to_multiset()
            == checklist.to_multiset(),
{
}

} // verus!
