//! What a new entity takes from outside: a fresh identifier and the time.

use vstd::prelude::*;

verus! {

/// True of the digits `0` to `9` and the letters `a` to `f`.
pub open spec fn is_lower_hex(c: char) -> bool {
    ('0' <= c && c <= '9') || ('a' <= c && c <= 'f')
}

/// The shape of an identifier: 36 characters, hyphens at the positions
/// 8, 13, 18 and 23, lower-case hexadecimal digits elsewhere.
pub open spec fn is_id_text(s: Seq<char>) -> bool {
    &&& s.len() == 36
    &&& forall|i: int|
        0 <= i < 36 ==> if i == 8 || i == 13 || i == 18 || i == 23 {
            #[trigger] s[i] == '-'
        } else {
            is_lower_hex(s[i])
        }
}

/// Calls `uuid::Uuid::new_v4` and writes the result out with `to_string`.
/// Which identifier comes back is left open; every one has the hyphenated
/// lower-case form. The call does not return on a system that gives it no
/// random bytes.
#[verifier::external_body]
pub(crate) fn fresh_id() -> (id: String)
    ensures
        is_id_text(id@),
{
    uuid::Uuid::new_v4().to_string()
}

/// Calls `chrono::Utc::now` and takes its `timestamp`: the seconds since
/// the epoch, which are never negative, since `now` does not return for a
/// clock set before the epoch.
#[verifier::external_body]
pub(crate) fn current_time() -> (seconds: i64)
    ensures
        0 <= seconds,
{
    chrono::Utc::now().timestamp()
}

} // verus!
