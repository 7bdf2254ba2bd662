//! The envelopes that guard a profile's master key in its `Local State`
//! file, and the choice between them.
//!
//! `os_crypt.encrypted_key` is base64 text whose decoded bytes start with a
//! 5-byte format marker; the rest is handed to the operating system's unwrap.
//! `os_crypt.app_bound_encrypted_key` starts with the ASCII marker `APPB`; its
//! decoded bytes go whole into the elevated app-bound unwrap chain.
use crate::cipher::KeyGeneration;
use crate::error::GcookieError;
use crate::primitives::{base64_decode, base64_decoded, parse_json};
use vstd::prelude::*;

verus! {

/// Length of the format marker ahead of an OS-sealed key.
pub const OS_SEAL_PREFIX_LEN: usize = 5;

/// The marker that starts an app-bound key envelope.
pub open spec fn app_bound_marker() -> Seq<char> {
    seq!['A', 'P', 'P', 'B']
}

/// Whether a text starts with the app-bound marker.
pub open spec fn has_app_bound_marker(text: Seq<char>) -> bool {
    text.len() >= 4 && text.subrange(0, 4) == app_bound_marker()
}

/// The blob that an OS-sealed envelope hands to the unwrap: its decoded
/// bytes without the format marker.
pub open spec fn os_seal_blob(text: Seq<char>) -> Option<Seq<u8>> {
    match base64_decoded(text) {
        Some(b) => if b.len() >= OS_SEAL_PREFIX_LEN {
            Some(b.subrange(OS_SEAL_PREFIX_LEN as int, b.len() as int))
        } else {
            None
        },
        None => None,
    }
}

/// Opens an OS-sealed key envelope: decodes the base64 text and strips the
/// format marker. Text that is not base64, or too short, is malformed.
pub fn os_seal_envelope(encoded: &str) -> (r: Result<Vec<u8>, GcookieError>)
    ensures
        r is Ok <==> os_seal_blob(encoded@) is Some,
        r is Ok ==> os_seal_blob(encoded@) == Some(r->Ok_0@),
        r is Err ==> r->Err_0 == GcookieError::KeyUnwrapFailed,
{
    match base64_decode(encoded) {
        None => Err(GcookieError::KeyUnwrapFailed),
        Some(bytes) => {
            if bytes.len() < OS_SEAL_PREFIX_LEN {
                Err(GcookieError::KeyUnwrapFailed)
            } else {
                let mut out: Vec<u8> = Vec::new();
                let mut i: usize = OS_SEAL_PREFIX_LEN;
                while i < bytes.len()
                    invariant
                        OS_SEAL_PREFIX_LEN <= i <= bytes@.len(),
                        out@ == bytes@.subrange(OS_SEAL_PREFIX_LEN as int, i as int),
                    decreases bytes@.len() - i,
                {
                    out.push(bytes[i]);
                    assert(bytes@.subrange(OS_SEAL_PREFIX_LEN as int, i + 1) =~= out@);
                    i = i + 1;
                }
                Ok(out)
            }
        },
    }
}

/// Whether a text starts with `APPB`.
fn starts_with_app_bound_marker(text: &str) -> (r: bool)
    ensures
        r == has_app_bound_marker(text@),
{
    if text.unicode_len() < 4 {
        return false;
    }
    let same = text.get_char(0) == 'A' && text.get_char(1) == 'P' && text.get_char(2) == 'P'
        && text.get_char(3) == 'B';
    assert(same == (text@.subrange(0, 4) =~= app_bound_marker()));
    same
}

/// Opens an app-bound key envelope: the caller must hold elevation, the
/// text must carry the `APPB` marker, and the whole text must decode as
/// base64; the decoded bytes are the blob for the unwrap chain.
pub fn app_bound_envelope(encoded: &str, elevated: bool) -> (r: Result<Vec<u8>, GcookieError>)
    ensures
        !elevated ==> r == Err::<Vec<u8>, GcookieError>(GcookieError::PermissionDenied),
        elevated && !has_app_bound_marker(encoded@) ==> r == Err::<Vec<u8>, GcookieError>(
            GcookieError::KeyUnwrapFailed,
        ),
        elevated && has_app_bound_marker(encoded@) ==> match base64_decoded(encoded@) {
            Some(b) => r is Ok && r->Ok_0@ == b,
            None => r == Err::<Vec<u8>, GcookieError>(GcookieError::KeyUnwrapFailed),
        },
{
    if !elevated {
        return Err(GcookieError::PermissionDenied);
    }
    if !starts_with_app_bound_marker(encoded) {
        return Err(GcookieError::KeyUnwrapFailed);
    }
    match base64_decode(encoded) {
        Some(bytes) => Ok(bytes),
        None => Err(GcookieError::KeyUnwrapFailed),
    }
}

/// The key fields of a profile's `Local State`.
pub struct LocalStateKeys {
    /// `os_crypt.encrypted_key`, when it is a string.
    pub encrypted_key: Option<String>,
    /// `os_crypt.app_bound_encrypted_key`, when it is a string.
    pub app_bound_encrypted_key: Option<String>,
}

/// The envelope text to open and the generation of the key it yields, chosen
/// from the key fields present: the app-bound key when there is one, else
/// the OS-sealed key.
pub open spec fn envelope_of(keys: LocalStateKeys) -> Option<(Seq<char>, KeyGeneration)> {
    match keys.app_bound_encrypted_key {
        Some(t) => Some((t@, KeyGeneration::AppBound)),
        None => match keys.encrypted_key {
            Some(t) => Some((t@, KeyGeneration::OsSealed)),
            None => None,
        },
    }
}

impl LocalStateKeys {
    /// Reads the key fields out of the text of a `Local State` file; text
    /// that is not JSON is a malformed envelope.
    pub fn parse(text: &str) -> (r: Result<LocalStateKeys, GcookieError>)
        ensures
            r is Err ==> r->Err_0 == GcookieError::KeyUnwrapFailed,
    {
        let json = match parse_json(text) {
            Some(v) => v,
            None => return Err(GcookieError::KeyUnwrapFailed),
        };
        let encrypted_key = match json.pointer("/os_crypt/encrypted_key") {
            Some(v) => match v.as_str() {
                Some(s) => Some(s.to_owned()),
                None => None,
            },
            None => None,
        };
        let app_bound_encrypted_key = match json.pointer("/os_crypt/app_bound_encrypted_key") {
            Some(v) => match v.as_str() {
                Some(s) => Some(s.to_owned()),
                None => None,
            },
            None => None,
        };
        Ok(LocalStateKeys { encrypted_key, app_bound_encrypted_key })
    }

    /// Whether the profile uses the OS-sealed key alone, with no app-bound
    /// key.
    pub fn is_v10(&self) -> (r: bool)
        ensures
            r == (self.encrypted_key is Some && self.app_bound_encrypted_key is None),
    {
        self.encrypted_key.is_some() && self.app_bound_encrypted_key.is_none()
    }

    /// The blob to hand to the unwrap, and the generation of the key it
    /// yields. The app-bound envelope is taken when present, and needs
    /// elevation; a profile with neither key has nothing to unwrap.
    pub fn master_key_envelope(&self, elevated: bool) -> (r: Result<(Vec<u8>, KeyGeneration), GcookieError>)
        ensures
            envelope_of(*self) is None ==> r == Err::<(Vec<u8>, KeyGeneration), GcookieError>(
                GcookieError::KeyUnwrapFailed,
            ),
            envelope_of(*self) matches Some((t, g)) ==> match r {
                Ok((blob, gen)) => gen == g && (g == KeyGeneration::AppBound ==> elevated
                    && has_app_bound_marker(t) && base64_decoded(t) == Some(blob@)) && (g
                    == KeyGeneration::OsSealed ==> os_seal_blob(t) == Some(blob@)),
                Err(e) => if g == KeyGeneration::AppBound {
                    e == (if !elevated {
                        GcookieError::PermissionDenied
                    } else {
                        GcookieError::KeyUnwrapFailed
                    }) && (elevated ==> !has_app_bound_marker(t) || base64_decoded(t) is None)
                } else {
                    e == GcookieError::KeyUnwrapFailed && os_seal_blob(t) is None
                },
            },
    {
        match &self.app_bound_encrypted_key {
            Some(t) => match app_bound_envelope(t.as_str(), elevated) {
                Ok(blob) => Ok((blob, KeyGeneration::AppBound)),
                Err(e) => Err(e),
            },
            None => match &self.encrypted_key {
                Some(t) => match os_seal_envelope(t.as_str()) {
                    Ok(blob) => Ok((blob, KeyGeneration::OsSealed)),
                    Err(e) => Err(e),
                },
                None => Err(GcookieError::KeyUnwrapFailed),
            },
        }
    }
}

} // verus!
