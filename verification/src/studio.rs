//! Studio licenses: which license a request presents, how it is checked,
//! and what a request for a paid feature is answered.

use vstd::prelude::*;
use vstd::string::*;

use crate::error::{outcome, refusal, verdict, ApiError, FORBIDDEN, SERVICE_UNAVAILABLE};
use crate::text::{chars_of, same_text, string_from_chars, trim_chars, trimmed};
use crate::validate::text_or_empty;

verus! {

/// How Studio licenses are verified: by the billing service at `base_url`,
/// or against one fixed license.
#[derive(Clone, Debug)]
pub enum StudioVerifier {
    Billing { base_url: String },
    Static { valid_license: String },
}

/// `s` without its trailing slashes.
pub open spec fn without_trailing_slashes(s: Seq<char>) -> Seq<char>
    decreases s.len(),
{
    if s.len() > 0 && s.last() == '/' {
        without_trailing_slashes(s.drop_last())
    } else {
        s
    }
}

proof fn lemma_without_trailing_slashes(s: Seq<char>, j: int)
    requires
        0 <= j <= s.len(),
        forall|k: int| j <= k < s.len() ==> #[trigger] s[k] == '/',
    ensures
        without_trailing_slashes(s) == without_trailing_slashes(s.subrange(0, j)),
    decreases s.len() - j,
{
    if j < s.len() {
        assert(s.drop_last().subrange(0, j) =~= s.subrange(0, j));
        lemma_without_trailing_slashes(s.drop_last(), j);
    } else {
        assert(s.subrange(0, j) =~= s);
    }
}

/// The path of the license check on the billing service.
pub open spec fn verify_path() -> Seq<char> {
    "/api/v1/products/rubric-revision-loop/verify"@
}

/// What checking a license takes: the answer is known at once, or the
/// billing service must be asked at `url` (with the license as the `license`
/// query parameter).
#[derive(Debug)]
pub enum LicenseCheck {
    Decided(bool),
    AskBilling(String),
}

/// The error shown when a paid feature is used without a license.
pub open spec fn license_required_message() -> Seq<char> {
    "A valid Studio license is required for this feature."@
}

impl StudioVerifier {
    /// A verifier that asks the billing service at `base_url`; trailing
    /// slashes of the address are dropped.
    pub fn billing(base_url: String) -> (v: Self)
        ensures
            v matches StudioVerifier::Billing { base_url: b } && b@ == without_trailing_slashes(
                base_url@,
            ),
    {
        let c = chars_of(base_url.as_str());
        let mut hi: usize = c.len();
        while hi > 0 && c[hi - 1] == '/'
            invariant
                hi <= c@.len(),
                forall|k: int| hi <= k < c@.len() ==> #[trigger] c@[k] == '/',
            decreases hi,
        {
            hi = hi - 1;
        }
        let mut kept: Vec<char> = Vec::new();
        let mut i: usize = 0;
        while i < hi
            invariant
                i <= hi <= c@.len(),
                kept@ == c@.subrange(0, i as int),
            decreases hi - i,
        {
            kept.push(c[i]);
            i = i + 1;
        }
        proof {
            lemma_without_trailing_slashes(c@, hi as int);
            let k = c@.subrange(0, hi as int);
            assert(kept@ =~= k);
            if hi > 0 {
                assert(k.last() == c@[hi - 1]);
            }
            assert(without_trailing_slashes(k) == k);
        }
        StudioVerifier::Billing { base_url: string_from_chars(&kept) }
    }

    /// How `license` (already trimmed) is checked: a fixed license is
    /// compared at once; the billing service is asked at its verify path.
    pub fn check(&self, license: &str) -> (c: LicenseCheck)
        ensures
            match *self {
                StudioVerifier::Static { valid_license } => c == LicenseCheck::Decided(
                    license@ == valid_license@,
                ),
                StudioVerifier::Billing { base_url } => c matches LicenseCheck::AskBilling(url)
                    && url@ == base_url@ + verify_path(),
            },
    {
        match self {
            StudioVerifier::Static { valid_license } => LicenseCheck::Decided(
                same_text(license, valid_license.as_str()),
            ),
            StudioVerifier::Billing { base_url } => {
                let mut url = base_url.clone();
                url.append("/api/v1/products/rubric-revision-loop/verify");
                LicenseCheck::AskBilling(url)
            },
        }
    }
}

/// The billing service's answer: it verifies only when it answered with a
/// success status and a body that reads as a verdict.
pub fn billing_verdict(success: bool, body_valid: Option<bool>) -> (r: Result<bool, ()>)
    ensures
        r == (if success && body_valid is Some {
            Ok::<bool, ()>(body_valid->0)
        } else {
            Err(())
        }),
{
    if !success {
        return Err(());
    }
    match body_valid {
        Some(valid) => Ok(valid),
        None => Err(()),
    }
}

/// The Studio license a request presents in its `x-studio-license` header,
/// trimmed; refused when absent or blank.
pub open spec fn presented_license(header: Option<&str>) -> Result<Seq<char>, (u16, Seq<char>)> {
    if header is Some && trimmed(text_or_empty(header)).len() > 0 {
        Ok(trimmed(text_or_empty(header)))
    } else {
        Err(refusal(FORBIDDEN, license_required_message()))
    }
}

/// Reads the Studio license from the text of the `x-studio-license` header
/// (absent when the header is missing or not visible ASCII).
pub fn studio_license(header: Option<&str>) -> (r: Result<String, ApiError>)
    ensures
        outcome(r) == presented_license(header),
{
    match header {
        Some(h) => {
            let t = trim_chars(&chars_of(h));
            if t.len() > 0 {
                return Ok(string_from_chars(&t));
            }
        },
        None => {},
    }
    Err(ApiError::forbidden("A valid Studio license is required for this feature."))
}

/// What a request for a paid feature is answered, given the verdict on its
/// license.
pub open spec fn studio_answer(license_verdict: Result<bool, ()>) -> Result<(), (u16, Seq<char>)> {
    match license_verdict {
        Ok(true) => Ok(()),
        Ok(false) => Err(
            refusal(
                FORBIDDEN,
                "This Studio license is not active. Restore or purchase a license to continue."@,
            ),
        ),
        Err(()) => Err(
            refusal(
                SERVICE_UNAVAILABLE,
                "Studio verification is temporarily unavailable. Try again shortly."@,
            ),
        ),
    }
}

/// What a request for a paid feature is answered, given the verdict on its
/// license: an active license lets it through; an inactive one is refused;
/// a verification that failed asks to try again.
pub fn studio_access(license_verdict: Result<bool, ()>) -> (r: Result<(), ApiError>)
    ensures
        verdict(r) == studio_answer(license_verdict),
{
    match license_verdict {
        Ok(true) => Ok(()),
        Ok(false) => Err(
            ApiError::forbidden(
                "This Studio license is not active. Restore or purchase a license to continue.",
            ),
        ),
        Err(()) => Err(
            ApiError::service_unavailable(
                "Studio verification is temporarily unavailable. Try again shortly.",
            ),
        ),
    }
}

} // verus!
