//! Checks on the text that requests carry: required and optional fields,
//! link tokens, workspace keys, rubric codes and the deletion confirmation.

use vstd::prelude::*;
use vstd::string::*;

use crate::error::{
    outcome, refusal, verdict, ApiError, NOT_FOUND, UNAUTHORIZED, UNPROCESSABLE_ENTITY,
};
use crate::text::{
    ascii_alphanumeric, ascii_hexdigit, chars_of, decimal, decimal_string, is_ascii_alphanumeric,
    is_ascii_hexdigit, same_text, string_from_chars, trim_chars, trimmed,
};

verus! {

/// A required field: trimmed, then refused when it has fewer than `min` or
/// more than `max` characters.
pub open spec fn required_text(label: Seq<char>, value: Seq<char>, min: nat, max: nat) -> Result<
    Seq<char>,
    (u16, Seq<char>),
> {
    let clean = trimmed(value);
    if clean.len() < min {
        Err(
            refusal(
                UNPROCESSABLE_ENTITY,
                label + " must be at least "@ + decimal(min) + " characters."@,
            ),
        )
    } else if clean.len() > max {
        Err(
            refusal(
                UNPROCESSABLE_ENTITY,
                label + " must be "@ + decimal(max) + " characters or fewer."@,
            ),
        )
    } else {
        Ok(clean)
    }
}

/// An optional field: trimmed, then refused when it has more than `max`
/// characters.
pub open spec fn optional_text(value: Seq<char>, max: nat) -> Result<Seq<char>, (u16, Seq<char>)> {
    let clean = trimmed(value);
    if clean.len() > max {
        Err(
            refusal(
                UNPROCESSABLE_ENTITY,
                "This field must be "@ + decimal(max) + " characters or fewer."@,
            ),
        )
    } else {
        Ok(clean)
    }
}

/// A student link token: exactly 32 hexadecimal digits.
pub open spec fn is_link_token(t: Seq<char>) -> bool {
    &&& t.len() == 32
    &&& forall|i: int| 0 <= i < t.len() ==> is_ascii_hexdigit(#[trigger] t[i])
}

pub open spec fn is_key_char(c: char) -> bool {
    is_ascii_alphanumeric(c) || c == '-' || c == '_'
}

/// A workspace key: 32 to 128 letters, digits, hyphens and underscores.
pub open spec fn is_workspace_key(k: Seq<char>) -> bool {
    &&& 32 <= k.len() <= 128
    &&& forall|i: int| 0 <= i < k.len() ==> is_key_char(#[trigger] k[i])
}

pub open spec fn is_code_char(c: char) -> bool {
    is_ascii_alphanumeric(c) || c == '-' || c == '.'
}

/// The text of an optional header or field, empty when it is absent.
pub open spec fn text_or_empty(v: Option<&str>) -> Seq<char> {
    match v {
        Some(s) => s@,
        None => Seq::empty(),
    }
}

/// Trims a required field and checks its length in characters.
pub fn clean_required(label: &str, value: &str, min: usize, max: usize) -> (r: Result<
    String,
    ApiError,
>)
    ensures
        outcome(r) == required_text(label@, value@, min as nat, max as nat),
        r is Ok <==> min <= trimmed(value@).len() <= max,
        r matches Ok(s) ==> s@ == trimmed(value@),
{
    let clean = trim_chars(&chars_of(value));
    if clean.len() < min {
        let mut m = String::from_str(label);
        m.append(" must be at least ");
        m.append(decimal_string(min).as_str());
        m.append(" characters.");
        return Err(ApiError::validation(m.as_str()));
    }
    if clean.len() > max {
        let mut m = String::from_str(label);
        m.append(" must be ");
        m.append(decimal_string(max).as_str());
        m.append(" characters or fewer.");
        return Err(ApiError::validation(m.as_str()));
    }
    Ok(string_from_chars(&clean))
}

/// Trims an optional field and checks that it is not too long.
pub fn clean_optional(value: &str, max: usize) -> (r: Result<String, ApiError>)
    ensures
        outcome(r) == optional_text(value@, max as nat),
        r is Ok <==> trimmed(value@).len() <= max,
        r matches Ok(s) ==> s@ == trimmed(value@),
{
    let clean = trim_chars(&chars_of(value));
    if clean.len() > max {
        let mut m = String::from_str("This field must be ");
        m.append(decimal_string(max).as_str());
        m.append(" characters or fewer.");
        return Err(ApiError::validation(m.as_str()));
    }
    Ok(string_from_chars(&clean))
}

/// The check on a link token in a request's path.
pub open spec fn token_check(token: Seq<char>) -> Result<(), (u16, Seq<char>)> {
    if is_link_token(token) {
        Ok(())
    } else {
        Err(refusal(NOT_FOUND, "This revision link is not valid."@))
    }
}

/// Accepts a student link token of 32 hexadecimal digits.
pub fn validate_token(token: &str) -> (r: Result<(), ApiError>)
    ensures
        verdict(r) == token_check(token@),
        r is Ok <==> (token@.len() == 32 && forall|i: int|
            0 <= i < token@.len() ==> ({
                let c = #[trigger] token@[i];
                ('0' <= c <= '9') || ('a' <= c <= 'f') || ('A' <= c <= 'F')
            })),
{
    let t = chars_of(token);
    let mut ok = t.len() == 32;
    let mut i: usize = 0;
    while ok && i < t.len()
        invariant
            t@ == token@,
            i <= t@.len(),
            ok ==> t@.len() == 32,
            ok ==> forall|k: int| 0 <= k < i ==> is_ascii_hexdigit(#[trigger] t@[k]),
            !ok ==> !is_link_token(token@),
        decreases t.len() - i,
    {
        if !ascii_hexdigit(t[i]) {
            ok = false;
        }
        i = i + 1;
    }
    if ok {
        Ok(())
    } else {
        Err(ApiError::not_found("This revision link is not valid."))
    }
}

fn all_key_chars(t: &Vec<char>) -> (b: bool)
    ensures
        b == forall|i: int| 0 <= i < t@.len() ==> is_key_char(#[trigger] t@[i]),
{
    let mut i: usize = 0;
    while i < t.len()
        invariant
            i <= t@.len(),
            forall|k: int| 0 <= k < i ==> is_key_char(#[trigger] t@[k]),
        decreases t.len() - i,
    {
        let c = t[i];
        if !(ascii_alphanumeric(c) || c == '-' || c == '_') {
            return false;
        }
        i = i + 1;
    }
    true
}

/// The workspace key a request presents, given its `x-workspace-key`
/// header: accepted unchanged when well formed, refused otherwise.
pub open spec fn presented_key(header: Option<&str>) -> Result<Seq<char>, (u16, Seq<char>)> {
    if is_workspace_key(text_or_empty(header)) {
        Ok(text_or_empty(header))
    } else {
        Err(refusal(UNAUTHORIZED, "This browser does not have a valid workspace key."@))
    }
}

/// The workspace key that a request presents, given the text of its
/// `x-workspace-key` header (absent when the header is missing or not
/// visible ASCII). Only a well-formed key is accepted, and it is returned
/// unchanged.
pub fn workspace_key(header: Option<&str>) -> (r: Result<String, ApiError>)
    ensures
        outcome(r) == presented_key(header),
        r matches Ok(k) ==> k@ == text_or_empty(header),
        ({
            let k = text_or_empty(header);
            (32 <= k.len() <= 128 && forall|i: int|
                0 <= i < k.len() ==> ({
                    let c = #[trigger] k[i];
                    ('0' <= c <= '9') || ('a' <= c <= 'z') || ('A' <= c <= 'Z') || c == '-' || c
                        == '_'
                })) <==> r is Ok
        }),
{
    let key: &str = match header {
        Some(h) => h,
        None => {
            proof {
                reveal_strlit("");
            }
            ""
        },
    };
    let k = chars_of(key);
    if k.len() < 32 || k.len() > 128 || !all_key_chars(&k) {
        return Err(ApiError::unauthorized("This browser does not have a valid workspace key."));
    }
    Ok(String::from_str(key))
}

/// What `str::to_uppercase` gives for `s` (Unicode upper case mapping).
pub uninterp spec fn unicode_uppercase(s: Seq<char>) -> Seq<char>;

/// Calls `str::to_uppercase`; its result is named `unicode_uppercase`.
#[verifier::external_body]
fn to_uppercase(s: &str) -> (u: String)
    ensures
        u@ == unicode_uppercase(s@),
{
    s.to_uppercase()
}

/// The characters a rubric code may keep after upper-casing: letters,
/// digits, hyphens and periods.
pub open spec fn code_chars(upper: Seq<char>) -> Result<Seq<char>, (u16, Seq<char>)> {
    if forall|i: int| 0 <= i < upper.len() ==> is_code_char(#[trigger] upper[i]) {
        Ok(upper)
    } else {
        Err(
            refusal(
                UNPROCESSABLE_ENTITY,
                "Code can use letters, numbers, hyphens, and periods."@,
            ),
        )
    }
}

/// A rubric code: trimmed, 2 to 12 characters, then upper-cased; only
/// letters, digits, hyphens and periods may remain.
pub open spec fn rubric_code(raw: Seq<char>) -> Result<Seq<char>, (u16, Seq<char>)> {
    match required_text("Code"@, raw, 2, 12) {
        Err(e) => Err(e),
        Ok(clean) => code_chars(unicode_uppercase(clean)),
    }
}

/// Checks the characters of an upper-cased rubric code.
pub fn check_code_chars(upper: &str) -> (r: Result<String, ApiError>)
    ensures
        outcome(r) == code_chars(upper@),
{
    let u = chars_of(upper);
    let mut i: usize = 0;
    while i < u.len()
        invariant
            u@ == upper@,
            i <= u@.len(),
            forall|k: int| 0 <= k < i ==> is_code_char(#[trigger] u@[k]),
        decreases u.len() - i,
    {
        let c = u[i];
        if !(ascii_alphanumeric(c) || c == '-' || c == '.') {
            assert(!is_code_char(upper@[i as int]));
            return Err(ApiError::validation("Code can use letters, numbers, hyphens, and periods."));
        }
        i = i + 1;
    }
    Ok(String::from_str(upper))
}

/// Checks and normalises a rubric code.
pub fn validate_code(raw: &str) -> (r: Result<String, ApiError>)
    ensures
        outcome(r) == rubric_code(raw@),
{
    let clean = clean_required("Code", raw, 2, 12)?;
    let upper = to_uppercase(clean.as_str());
    check_code_chars(upper.as_str())
}

/// A new rubric code, checked: its code, criterion name, student guidance
/// and revision prompt.
pub struct RubricDraft {
    pub code: String,
    pub title: String,
    pub guidance: String,
    pub next_step: String,
}

impl View for RubricDraft {
    type V = (Seq<char>, Seq<char>, Seq<char>, Seq<char>);

    open spec fn view(&self) -> Self::V {
        (self.code@, self.title@, self.guidance@, self.next_step@)
    }
}

/// The checks on a new rubric code, in the order they are made.
pub open spec fn rubric_draft(
    code: Seq<char>,
    title: Seq<char>,
    guidance: Seq<char>,
    next_step: Seq<char>,
) -> Result<(Seq<char>, Seq<char>, Seq<char>, Seq<char>), (u16, Seq<char>)> {
    match rubric_code(code) {
        Err(e) => Err(e),
        Ok(c) => match required_text("Criterion name"@, title, 2, 80) {
            Err(e) => Err(e),
            Ok(t) => match required_text("Student guidance"@, guidance, 8, 600) {
                Err(e) => Err(e),
                Ok(g) => match required_text("Revision prompt"@, next_step, 8, 300) {
                    Err(e) => Err(e),
                    Ok(n) => Ok((c, t, g, n)),
                },
            },
        },
    }
}

/// Checks the fields of a new rubric code.
pub fn validate_rubric(code: &str, title: &str, guidance: &str, next_step: &str) -> (r: Result<
    RubricDraft,
    ApiError,
>)
    ensures
        outcome(r) == rubric_draft(code@, title@, guidance@, next_step@),
        r matches Ok(d) ==> {
            &&& d.code@ == unicode_uppercase(trimmed(code@))
            &&& d.title@ == trimmed(title@)
            &&& d.guidance@ == trimmed(guidance@)
            &&& d.next_step@ == trimmed(next_step@)
        },
{
    let code = validate_code(code)?;
    let title = clean_required("Criterion name", title, 2, 80)?;
    let guidance = clean_required("Student guidance", guidance, 8, 600)?;
    let next_step = clean_required("Revision prompt", next_step, 8, 300)?;
    Ok(RubricDraft { code, title, guidance, next_step })
}

/// The check on the `x-confirm-delete` header.
pub open spec fn deletion_confirmed(header: Option<&str>) -> Result<(), (u16, Seq<char>)> {
    if header is Some && text_or_empty(header) == "delete my workspace"@ {
        Ok(())
    } else {
        Err(refusal(UNPROCESSABLE_ENTITY, "Workspace deletion was not confirmed."@))
    }
}

/// Deleting a workspace is confirmed only by the exact phrase
/// "delete my workspace" in the `x-confirm-delete` header.
pub fn confirm_workspace_deletion(header: Option<&str>) -> (r: Result<(), ApiError>)
    ensures
        verdict(r) == deletion_confirmed(header),
{
    match header {
        Some(h) => {
            if same_text(h, "delete my workspace") {
                return Ok(());
            }
        },
        None => {},
    }
    Err(ApiError::validation("Workspace deletion was not confirmed."))
}

} // verus!
