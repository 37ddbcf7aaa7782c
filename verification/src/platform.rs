//! Trusted gateway to the platform: identity, hostname, media types.
//!
//! Each function here wraps one call into an outside crate; Verus
//! believes the stated contract and does not look at the body.

use vstd::prelude::*;

verus! {

/// What `mime_guess` answers for a file name: a pure function of the
/// name's characters (a static extension table).
pub uninterp spec fn mime_of(name: Seq<char>) -> Option<Seq<char>>;

/// Relies on `uuid::Uuid::new_v4`: a freshly drawn random 128-bit id.
/// Nothing can be promised of a random value.
#[verifier::external_body]
pub(crate) fn fresh_uuid_v4() -> u128 {
    uuid::Uuid::new_v4().as_u128()
}

/// Relies on `hostname::get` for this machine's hostname; the answer
/// depends on the environment, so nothing is promised of it.
#[verifier::external_body]
pub(crate) fn machine_hostname() -> String {
    match hostname::get() {
        Ok(h) => h.to_string_lossy().to_string(),
        Err(_) => "unknown".to_string(),
    }
}

/// Relies on `mime_guess::from_path`: the media type guessed from the
/// file name's extension, the same answer for the same name.
#[verifier::external_body]
pub fn get_mime_type(filename: &str) -> (r: Option<String>)
    ensures
        r matches Some(m) ==> mime_of(filename@) matches Some(s) && m@ == s,
        r is None ==> mime_of(filename@) is None,
{
    mime_guess::from_path(filename).first().map(|m| m.to_string())
}

} // verus!
