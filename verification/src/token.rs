//! Random tokens for student links and rubric packs.

use vstd::prelude::*;

use crate::text::is_ascii_hexdigit;
use crate::validate::is_link_token;

verus! {

pub open spec fn is_lower_hexdigit(c: char) -> bool {
    ||| '0' <= c <= '9'
    ||| 'a' <= c <= 'f'
}

/// The simple text form of a UUID: 32 lower-case hexadecimal digits.
pub open spec fn is_simple_uuid(t: Seq<char>) -> bool {
    &&& t.len() == 32
    &&& forall|i: int| 0 <= i < t.len() ==> is_lower_hexdigit(#[trigger] t[i])
}

/// The fixed digits of a version 4 UUID in its simple text form: the
/// version digit `4`, and the variant digit `8`, `9`, `a` or `b`.
pub open spec fn has_v4_digits(t: Seq<char>) -> bool {
    &&& t[12] == '4'
    &&& (t[16] == '8' || t[16] == '9' || t[16] == 'a' || t[16] == 'b')
}

/// Calls `uuid::Uuid::new_v4`, then `simple()` and `to_string()`. The value is
/// random; the contract claims only what holds of every outcome: 32
/// lower-case hexadecimal digits (uuid's `format_simple`), with the version
/// digit `4` and a variant digit from `8` to `b` (the bits `new_v4` sets).
#[verifier::external_body]
fn random_simple_uuid() -> (t: String)
    ensures
        is_simple_uuid(t@),
        has_v4_digits(t@),
{
    uuid::Uuid::new_v4().simple().to_string()
}

/// Every simple UUID text is a valid link token.
pub proof fn lemma_simple_uuid_is_link_token(t: Seq<char>)
    requires
        is_simple_uuid(t),
    ensures
        is_link_token(t),
{
    assert forall|i: int| 0 <= i < t.len() implies is_ascii_hexdigit(#[trigger] t[i]) by {
        assert(is_lower_hexdigit(t[i]));
    }
}

/// A fresh random token for a student link or a rubric pack; it always
/// passes `validate_token`.
pub fn new_token() -> (t: String)
    ensures
        is_simple_uuid(t@),
        has_v4_digits(t@),
        is_link_token(t@),
{
    let t = random_simple_uuid();
    proof {
        lemma_simple_uuid_is_link_token(t@);
    }
    t
}

} // verus!
