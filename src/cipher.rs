//! The versioned decryption of stored cookie values.
//!
//! A stored value starts with a 3-byte version tag. `v10` and `v11` mark the
//! AES-256-GCM generations, laid out as `[tag:3][nonce:12][ciphertext][tag:16]`
//! and opened with the master key. Any other tag marks the oldest generation:
//! the bytes after the tag are AES-128-CBC under a key derived from a fixed
//! passphrase, with a fixed IV. When the master key came through the
//! app-bound unwrap, a recovered plaintext that starts with the SHA-256 digest
//! of the cookie's host has that digest removed.
use crate::cookie::{cookie_header, Cookie, CookieView, SiteCookie};
use crate::error::GcookieError;
use crate::primitives::{
    aes128_cbc_decrypt, aes128_cbc_encrypt, aes256_gcm_open, aes256_gcm_seal, bytes_of,
    cbc_decrypt, cbc_encrypt, gcm_open, gcm_seal, pbkdf2_hmac_sha1, pbkdf2_sha1_16, sha256,
    sha256_of, utf8_text,
};
use vstd::prelude::*;
use vstd::slice::{slice_subrange, slice_to_vec};
use vstd::utf8::{decode_utf8, encode_utf8, valid_utf8};

verus! {

/// Passphrase of the oldest generation's key derivation.
pub const LEGACY_PASSWORD: &'static str = "peanuts";

/// Salt of the oldest generation's key derivation.
pub const LEGACY_SALT: &'static str = "saltysalt";

/// Iterations of the oldest generation's key derivation.
pub const LEGACY_ROUNDS: u32 = 1;

/// Every byte of the oldest generation's IV (an ASCII space).
pub const LEGACY_IV_BYTE: u8 = 32;

/// Length of the version tag that starts a stored value.
pub const TAG_LEN: usize = 3;

/// Length of the GCM nonce that follows the version tag.
pub const NONCE_LEN: usize = 12;

/// Length of the master key of the GCM generations.
pub const MASTER_KEY_LEN: usize = 32;

/// The oldest generation's IV: 16 equal bytes.
pub open spec fn legacy_iv() -> Seq<u8> {
    Seq::new(16, |i: int| LEGACY_IV_BYTE)
}

/// The oldest generation's key.
pub open spec fn legacy_key() -> Seq<u8> {
    pbkdf2_hmac_sha1(encode_utf8(LEGACY_PASSWORD@), encode_utf8(LEGACY_SALT@), LEGACY_ROUNDS, 16)
}

/// Whether a stored value carries the tag `v10` or `v11`.
pub open spec fn is_gcm_value(blob: Seq<u8>) -> bool {
    &&& blob.len() >= 3
    &&& blob[0] == 0x76u8
    &&& blob[1] == 0x31u8
    &&& (blob[2] == 0x30u8 || blob[2] == 0x31u8)
}

/// The value that an app-bound plaintext carries: what follows the host's
/// digest when the plaintext starts with it, else the whole plaintext.
pub open spec fn host_bound_value(plain: Seq<u8>, digest: Seq<u8>) -> Seq<u8> {
    if digest.len() <= plain.len() && plain.subrange(0, digest.len() as int) == digest {
        plain.subrange(digest.len() as int, plain.len() as int)
    } else {
        plain
    }
}

/// Where the master key of the GCM generations came from.
#[derive(Debug, Clone, Copy, PartialEq, Eq, Structural)]
pub enum KeyGeneration {
    /// Unwrapped once by the operating system's data protection.
    OsSealed,
    /// Unwrapped through the elevated app-bound chain.
    AppBound,
}

/// The plaintext bytes of a stored value of `host`, given the oldest
/// generation's key and the master key, if any.
pub open spec fn value_plaintext(
    legacy: Seq<u8>,
    master: Option<(Seq<u8>, KeyGeneration)>,
    host: Seq<char>,
    blob: Seq<u8>,
) -> Option<Seq<u8>> {
    if is_gcm_value(blob) {
        match master {
            None => None,
            Some((key, generation)) => {
                if blob.len() < 15 {
                    None
                } else {
                    match aes256_gcm_open(key, blob.subrange(3, 15), blob.subrange(15, blob.len() as int)) {
                        None => None,
                        Some(p) => Some(
                            if generation == KeyGeneration::AppBound {
                                host_bound_value(p, sha256_of(encode_utf8(host)))
                            } else {
                                p
                            },
                        ),
                    }
                }
            }
        }
    } else if blob.len() < 3 {
        None
    } else {
        Some(aes128_cbc_decrypt(legacy, legacy_iv(), blob.subrange(3, blob.len() as int)))
    }
}

/// The text of a stored value: its plaintext, when that is valid UTF-8.
pub open spec fn value_text(
    legacy: Seq<u8>,
    master: Option<(Seq<u8>, KeyGeneration)>,
    host: Seq<char>,
    blob: Seq<u8>,
) -> Option<Seq<char>> {
    match value_plaintext(legacy, master, host, blob) {
        Some(p) => if valid_utf8(p) {
            Some(decode_utf8(p))
        } else {
            None
        },
        None => None,
    }
}

/// The rows whose value could be recovered, in their order, each with its
/// value replaced by the recovered text.
pub open spec fn decrypted_rows(
    legacy: Seq<u8>,
    master: Option<(Seq<u8>, KeyGeneration)>,
    rows: Seq<CookieView>,
) -> Seq<CookieView>
    decreases rows.len(),
{
    if rows.len() == 0 {
        Seq::empty()
    } else {
        let prev = decrypted_rows(legacy, master, rows.drop_last());
        let row = rows.last();
        match value_text(legacy, master, row.host, row.encrypted_value) {
            Some(t) => prev.push(CookieView { value: t, ..row }),
            None => prev,
        }
    }
}

/// The message that the GCM generations seal for a text of `host`: the
/// text's UTF-8 bytes, behind the host's digest under an app-bound key.
pub open spec fn sealed_message(generation: KeyGeneration, host: Seq<char>, plain: Seq<char>) -> Seq<u8> {
    if generation == KeyGeneration::AppBound {
        sha256_of(encode_utf8(host)) + encode_utf8(plain)
    } else {
        encode_utf8(plain)
    }
}

/// A master key of the GCM generations.
pub struct MasterKey {
    bytes: Vec<u8>,
    generation: KeyGeneration,
}

impl MasterKey {
    pub closed spec fn key_bytes(&self) -> Seq<u8> {
        self.bytes@
    }

    pub closed spec fn key_generation(&self) -> KeyGeneration {
        self.generation
    }

    /// The key and where it came from.
    pub open spec fn spec_pair(&self) -> (Seq<u8>, KeyGeneration) {
        (self.key_bytes(), self.key_generation())
    }

    /// Accepts the output of an unwrap as a master key: it must be 32 bytes.
    pub fn from_unwrapped(bytes: Vec<u8>, generation: KeyGeneration) -> (r: Result<MasterKey, GcookieError>)
        ensures
            r is Ok <==> bytes@.len() == MASTER_KEY_LEN,
            r is Ok ==> r->Ok_0.key_bytes() == bytes@ && r->Ok_0.key_generation() == generation,
            r is Err ==> r->Err_0 == GcookieError::KeyUnwrapFailed,
    {
        if bytes.len() == MASTER_KEY_LEN {
            Ok(MasterKey { bytes, generation })
        } else {
            Err(GcookieError::KeyUnwrapFailed)
        }
    }
}

/// The master key of an optional `MasterKey`.
pub open spec fn master_pair(m: Option<MasterKey>) -> Option<(Seq<u8>, KeyGeneration)> {
    match m {
        Some(k) => Some(k.spec_pair()),
        None => None,
    }
}

/// The keys that one decryption batch uses: the oldest generation's derived
/// key and, where the profile has one, the master key.
pub struct Keyring {
    legacy: Vec<u8>,
    master: Option<MasterKey>,
}

/// The oldest generation's IV as a vector.
fn legacy_iv_vec() -> (r: Vec<u8>)
    ensures
        r@ == legacy_iv(),
{
    let mut iv: Vec<u8> = Vec::new();
    let mut i: usize = 0;
    while i < 16
        invariant
            i <= 16,
            iv@ == Seq::new(i as nat, |j: int| LEGACY_IV_BYTE),
        decreases 16 - i,
    {
        iv.push(LEGACY_IV_BYTE);
        i = i + 1;
    }
    iv
}

/// Removes the host's digest from the front of an app-bound plaintext when
/// it is there; otherwise the plaintext is the value as it stands.
pub fn strip_host_binding(plain: Vec<u8>, digest: &[u8]) -> (r: Vec<u8>)
    ensures
        r@ == host_bound_value(plain@, digest@),
{
    let n = digest.len();
    if n > plain.len() {
        return plain;
    }
    let mut i: usize = 0;
    while i < n
        invariant
            n == digest@.len(),
            n <= plain@.len(),
            i <= n,
            forall|j: int| 0 <= j < i ==> plain@[j] == digest@[j],
        decreases n - i,
    {
        if plain[i] != digest[i] {
            assert(plain@.subrange(0, n as int)[i as int] != digest@[i as int]);
            return plain;
        }
        i = i + 1;
    }
    assert(plain@.subrange(0, n as int) =~= digest@);
    slice_to_vec(slice_subrange(plain.as_slice(), n, plain.len()))
}

impl Keyring {
    pub closed spec fn legacy_bytes(&self) -> Seq<u8> {
        self.legacy@
    }

    pub closed spec fn master_key(&self) -> Option<(Seq<u8>, KeyGeneration)> {
        master_pair(self.master)
    }

    /// The keyring holds the oldest generation's key and a 32-byte master
    /// key, if any.
    pub open spec fn wf(&self) -> bool {
        &&& self.legacy_bytes() == legacy_key()
        &&& self.legacy_bytes().len() == 16
        &&& (self.master_key() matches Some((k, _)) ==> k.len() == MASTER_KEY_LEN)
    }

    /// The text of a stored value of `host` under this keyring.
    pub open spec fn text_of(&self, host: Seq<char>, blob: Seq<u8>) -> Option<Seq<char>> {
        value_text(self.legacy_bytes(), self.master_key(), host, blob)
    }

    /// The plaintext bytes of a stored value of `host` under this keyring.
    pub open spec fn plaintext_of(&self, host: Seq<char>, blob: Seq<u8>) -> Option<Seq<u8>> {
        value_plaintext(self.legacy_bytes(), self.master_key(), host, blob)
    }

    /// What a batch of rows decrypts to under this keyring.
    pub open spec fn rows_of(&self, rows: Seq<CookieView>) -> Seq<CookieView> {
        decrypted_rows(self.legacy_bytes(), self.master_key(), rows)
    }

    /// A keyring with the oldest generation's key, derived here, and the
    /// given master key.
    pub fn new(master: Option<MasterKey>) -> (r: Keyring)
        requires
            master matches Some(k) ==> k.key_bytes().len() == MASTER_KEY_LEN,
        ensures
            r.wf(),
            r.master_key() == master_pair(master),
    {
        let legacy = pbkdf2_sha1_16(LEGACY_PASSWORD.as_bytes(), LEGACY_SALT.as_bytes(), LEGACY_ROUNDS);
        Keyring { legacy, master }
    }

    /// The plaintext bytes of a stored value, chosen by its version tag.
    fn decrypt_bytes(&self, host: &str, blob: &[u8]) -> (r: Option<Vec<u8>>)
        requires
            self.wf(),
        ensures
            bytes_of(r) == self.plaintext_of(host@, blob@),
    {
        let gcm = blob.len() >= TAG_LEN && blob[0] == 0x76u8 && blob[1] == 0x31u8 && (blob[2] == 0x30u8 || blob[2] == 0x31u8);
        if gcm {
            match &self.master {
                None => None,
                Some(mk) => {
                    if blob.len() < TAG_LEN + NONCE_LEN {
                        return None;
                    }
                    let nonce = slice_subrange(blob, TAG_LEN, TAG_LEN + NONCE_LEN);
                    let sealed = slice_subrange(blob, TAG_LEN + NONCE_LEN, blob.len());
                    match gcm_open(mk.bytes.as_slice(), nonce, sealed) {
                        None => None,
                        Some(p) => match mk.generation {
                            KeyGeneration::AppBound => {
                                let digest = sha256(host.as_bytes());
                                Some(strip_host_binding(p, digest.as_slice()))
                            },
                            KeyGeneration::OsSealed => Some(p),
                        },
                    }
                },
            }
        } else if blob.len() < TAG_LEN {
            None
        } else {
            let iv = legacy_iv_vec();
            let body = slice_subrange(blob, TAG_LEN, blob.len());
            Some(cbc_decrypt(self.legacy.as_slice(), iv.as_slice(), body))
        }
    }

    /// The text of one stored value of `host`; a value that does not
    /// authenticate, or whose plaintext is not UTF-8, fails.
    pub fn decrypt_value(&self, host: &str, blob: &[u8]) -> (r: Result<String, GcookieError>)
        requires
            self.wf(),
        ensures
            r is Ok <==> self.text_of(host@, blob@) is Some,
            r is Ok ==> self.text_of(host@, blob@) == Some(r->Ok_0@),
            r is Err ==> r->Err_0 == GcookieError::DecryptionFailed,
    {
        match self.decrypt_bytes(host, blob) {
            None => Err(GcookieError::DecryptionFailed),
            Some(plain) => match utf8_text(plain) {
                Some(s) => Ok(s),
                None => Err(GcookieError::DecryptionFailed),
            },
        }
    }

    /// Decrypts a batch of rows. A row whose value does not decrypt is left
    /// out; the others keep their order and carry the recovered text.
    pub fn decrypt_rows(&self, rows: &Vec<Cookie>) -> (r: SiteCookie)
        requires
            self.wf(),
        ensures
            r.views() == self.rows_of(rows@.map_values(|c: Cookie| c@)),
    {
        let mut out = SiteCookie::new();
        let mut i: usize = 0;
        while i < rows.len()
            invariant
                self.wf(),
                i <= rows@.len(),
                out.views() == self.rows_of(
                    rows@.subrange(0, i as int).map_values(|c: Cookie| c@),
                ),
            decreases rows@.len() - i,
        {
            let row = &rows[i];
            let ghost before = out.cookies();
            match self.decrypt_value(row.host.as_str(), row.encrypted_value.as_slice()) {
                Ok(value) => {
                    out.push(
                        Cookie {
                            host: row.host.clone(),
                            path: row.path.clone(),
                            name: row.name.clone(),
                            value,
                            encrypted_value: slice_to_vec(row.encrypted_value.as_slice()),
                        },
                    );
                    assert(out.views() =~= before.map_values(
                        |c: Cookie| c@,
                    ).push(out.cookies().last()@));
                },
                Err(_) => {},
            }
            proof {
                let next = rows@.subrange(0, i + 1).map_values(|c: Cookie| c@);
                assert(next.drop_last() =~= rows@.subrange(0, i as int).map_values(|c: Cookie| c@));
                assert(next.last() == rows@[i as int]@);
            }
            i = i + 1;
        }
        assert(rows@.subrange(0, rows@.len() as int) =~= rows@);
        out
    }

    /// The `Cookie` header of a batch of rows: the rows whose value
    /// decrypts, as `name=value` joined by `"; "`.
    pub fn site_cookie_string(&self, rows: &Vec<Cookie>) -> (r: String)
        requires
            self.wf(),
        ensures
            r@ == cookie_header(self.rows_of(rows@.map_values(|c: Cookie| c@))),
    {
        self.decrypt_rows(rows).to_cookie_string()
    }

    /// Seals a text as a stored value of `host` under the recipe that `tag`
    /// selects, laid out as this keyring reads it back: decrypting the
    /// result gives the text again.
    pub fn encrypt_value(&self, tag: &[u8], nonce: &[u8], host: &str, plain: &str) -> (r: Vec<u8>)
        requires
            self.wf(),
            tag@.len() == TAG_LEN,
            is_gcm_value(tag@) ==> {
                &&& self.master_key() is Some
                &&& nonce@.len() == NONCE_LEN
                &&& encode_utf8(plain@).len() + 32 <= 0x10_0000_0000
            },
        ensures
            is_gcm_value(tag@) ==> r@ == tag@ + nonce@ + aes256_gcm_seal(
                self.master_key()->Some_0.0,
                nonce@,
                sealed_message(self.master_key()->Some_0.1, host@, plain@),
            ),
            !is_gcm_value(tag@) ==> r@ == tag@ + aes128_cbc_encrypt(
                self.legacy_bytes(),
                legacy_iv(),
                encode_utf8(plain@),
            ),
            self.text_of(host@, r@) == Some(plain@),
    {
        let pt = plain.as_bytes();
        let mut out = slice_to_vec(tag);
        let gcm = tag[0] == 0x76u8 && tag[1] == 0x31u8 && (tag[2] == 0x30u8 || tag[2] == 0x31u8);
        proof {
            vstd::utf8::encode_utf8_valid_utf8(plain@);
            vstd::utf8::encode_utf8_decode_utf8(plain@);
        }
        if gcm {
            let mk = self.master.as_ref().unwrap();
            let msg: Vec<u8> = match mk.generation {
                KeyGeneration::AppBound => {
                    let mut m = sha256(host.as_bytes());
                    append_bytes(&mut m, pt);
                    m
                },
                KeyGeneration::OsSealed => slice_to_vec(pt),
            };
            let sealed = gcm_seal(mk.bytes.as_slice(), nonce, msg.as_slice());
            append_bytes(&mut out, nonce);
            append_bytes(&mut out, sealed.as_slice());
            proof {
                assert(msg@ =~= sealed_message(mk.generation, host@, plain@));
                assert(out@ =~= tag@ + nonce@ + sealed@);
                assert(out@.subrange(0, 3) =~= tag@);
                assert(out@.subrange(3, 15) =~= nonce@);
                assert(out@.subrange(15, out@.len() as int) =~= sealed@);
                if mk.generation == KeyGeneration::AppBound {
                    let d = sha256_of(encode_utf8(host@));
                    assert(msg@.subrange(0, d.len() as int) =~= d);
                    assert(msg@.subrange(d.len() as int, msg@.len() as int) =~= pt@);
                }
            }
        } else {
            let iv = legacy_iv_vec();
            let body = cbc_encrypt(self.legacy.as_slice(), iv.as_slice(), pt);
            append_bytes(&mut out, body.as_slice());
            proof {
                assert(out@ =~= tag@ + body@);
                assert(out@.subrange(0, 3) =~= tag@);
                assert(out@.subrange(3, out@.len() as int) =~= body@);
            }
        }
        out
    }
}

/// Appends bytes to a vector.
fn append_bytes(out: &mut Vec<u8>, more: &[u8])
    ensures
        final(out)@ == old(out)@ + more@,
{
    let mut i: usize = 0;
    while i < more.len()
        invariant
            i <= more@.len(),
            out@ == old(out)@ + more@.subrange(0, i as int),
        decreases more@.len() - i,
    {
        out.push(more[i]);
        assert(more@.subrange(0, i + 1) =~= more@.subrange(0, i as int).push(more@[i as int]));
        i = i + 1;
    }
    assert(more@.subrange(0, more@.len() as int) =~= more@);
}

/// A row whose value cannot be recovered drops out of a batch, and only that
/// row: the batch gives what the other rows give without it.
pub proof fn lemma_failed_row_dropped(
    legacy: Seq<u8>,
    master: Option<(Seq<u8>, KeyGeneration)>,
    rows: Seq<CookieView>,
    i: int,
)
    requires
        0 <= i < rows.len(),
        value_text(legacy, master, rows[i].host, rows[i].encrypted_value) is None,
    ensures
        decrypted_rows(legacy, master, rows) == decrypted_rows(legacy, master, rows.remove(i)),
    decreases rows.len(),
{
    if i == rows.len() - 1 {
        assert(rows.remove(i) =~= rows.drop_last());
    } else {
        lemma_failed_row_dropped(legacy, master, rows.drop_last(), i);
        assert(rows.remove(i).drop_last() =~= rows.drop_last().remove(i));
        assert(rows.remove(i).last() == rows.last());
    }
}

} // verus!
