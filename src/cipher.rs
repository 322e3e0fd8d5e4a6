use vstd::prelude::*;
use aes_gcm::aead::rand_core::RngCore;
use aes_gcm::aead::{Aead, OsRng};
use aes_gcm::{AeadCore, Aes256Gcm, Key, KeyInit};
use rand::rngs::StdRng;
use rand::SeedableRng;

verus! {

/// Length in bytes of an AES-256-GCM key.
pub const KEY_LEN: usize = 32;

/// Length in bytes of an AES-256-GCM nonce.
pub const NONCE_LEN: usize = 12;

/// Length in bytes of the authentication tag appended to each ciphertext.
pub const TAG_LEN: usize = 16;

/// Longest plaintext, in bytes, that AES-GCM seals.
pub const MAX_PLAINTEXT_LEN: u64 = 0x10_0000_0000;

#[verifier::external_type_specification]
#[verifier::external_body]
pub struct ExStdRng(StdRng);

/// The ciphertext, tag appended, that AES-256-GCM makes of `plain` under
/// `key` and `nonce`, with no associated data.
pub uninterp spec fn aes256gcm_seal(key: Seq<u8>, nonce: Seq<u8>, plain: Seq<u8>) -> Seq<u8>;

/// What AES-256-GCM recovers from `sealed` under `key` and `nonce`, with no
/// associated data: `None` when the tag does not authenticate it.
pub uninterp spec fn aes256gcm_open(key: Seq<u8>, nonce: Seq<u8>, sealed: Seq<u8>) -> Option<Seq<u8>>;

/// The bytes that an optional vector holds.
pub open spec fn bytes_of(o: Option<Vec<u8>>) -> Option<Seq<u8>> {
    match o {
        Some(v) => Some(v@),
        None => None,
    }
}

/// The `len` bytes that a `StdRng` seeded with `seed` hands out after its
/// first `start` bytes, when every draw asks for a whole number of 4-byte words.
pub uninterp spec fn stdrng_bytes(seed: Seq<u8>, start: nat, len: nat) -> Seq<u8>;

/// The seed that a generator was made from.
pub uninterp spec fn rng_seed(r: StdRng) -> Seq<u8>;

/// How many bytes a generator has handed out since it was seeded.
pub uninterp spec fn rng_pos(r: StdRng) -> nat;

/// Relies on `StdRng::from_seed` (rand): a generator seeded with the 32 bytes,
/// which has handed out nothing yet.
#[verifier::external_body]
pub(crate) fn rng_from_seed(seed: &[u8]) -> (r: StdRng)
    requires
        seed@.len() == 32,
    ensures
        rng_seed(r) == seed@,
        rng_pos(r) == 0,
{
    let mut arg = [0u8; 32];
    arg.copy_from_slice(seed);
    StdRng::from_seed(arg)
}

/// Relies on `KeyInit::generate_key` (aes-gcm): 32 key bytes filled by one
/// `fill_bytes` on `rng`, which hands out the next 32 bytes of its stream.
#[verifier::external_body]
pub(crate) fn draw_key(rng: &mut StdRng) -> (r: Vec<u8>)
    ensures
        r@ == stdrng_bytes(rng_seed(*old(rng)), rng_pos(*old(rng)), KEY_LEN as nat),
        rng_seed(*final(rng)) == rng_seed(*old(rng)),
        rng_pos(*final(rng)) == rng_pos(*old(rng)) + KEY_LEN,
        r@.len() == KEY_LEN,
{
    Aes256Gcm::generate_key(rng).to_vec()
}

/// Relies on `AeadCore::generate_nonce` (aes-gcm): 12 nonce bytes filled by
/// one `fill_bytes` on `rng`, which hands out the next 12 bytes of its stream.
#[verifier::external_body]
pub(crate) fn draw_nonce(rng: &mut StdRng) -> (r: Vec<u8>)
    ensures
        r@ == stdrng_bytes(rng_seed(*old(rng)), rng_pos(*old(rng)), NONCE_LEN as nat),
        rng_seed(*final(rng)) == rng_seed(*old(rng)),
        rng_pos(*final(rng)) == rng_pos(*old(rng)) + NONCE_LEN,
        r@.len() == NONCE_LEN,
{
    Aes256Gcm::generate_nonce(rng).to_vec()
}

/// Relies on `OsRng::try_fill_bytes` (aes-gcm's re-export of rand_core): 32
/// bytes from the system's entropy source, or nothing when that source fails.
#[verifier::external_body]
pub(crate) fn entropy_pool() -> (r: Option<Vec<u8>>)
    ensures
        r matches Some(v) ==> v@.len() == 32,
{
    let mut out = vec![0u8; 32];
    OsRng.try_fill_bytes(&mut out).ok().map(|_| out)
}

/// Relies on `Aead::encrypt` of `Aes256Gcm`: the plaintext followed by its
/// 16-byte tag; it fails only on a plaintext longer than 2^36 bytes.
#[verifier::external_body]
pub(crate) fn seal(key: &[u8], nonce: &[u8], plain: &[u8]) -> (r: Vec<u8>)
    requires
        key@.len() == KEY_LEN,
        nonce@.len() == NONCE_LEN,
        plain@.len() <= MAX_PLAINTEXT_LEN,
    ensures
        r@ == aes256gcm_seal(key@, nonce@, plain@),
        r@.len() == plain@.len() + TAG_LEN,
{
    let cipher = Aes256Gcm::new(Key::<Aes256Gcm>::from_slice(key));
    cipher.encrypt(nonce.into(), plain).expect("plaintext within the AES-GCM limit")
}

/// Relies on `Aead::decrypt` of `Aes256Gcm`: the plaintext when the tag
/// authenticates the input under the key and nonce, an error otherwise; what
/// `Aead::encrypt` sealed under the same key and nonce opens to its plaintext,
/// and a plaintext is the input without its trailing 16-byte tag.
#[verifier::external_body]
pub(crate) fn open(key: &[u8], nonce: &[u8], sealed: &[u8]) -> (r: Option<Vec<u8>>)
    requires
        key@.len() == KEY_LEN,
        nonce@.len() == NONCE_LEN,
    ensures
        bytes_of(r) == aes256gcm_open(key@, nonce@, sealed@),
        r is Some ==> r->0@.len() + TAG_LEN == sealed@.len(),
        forall|p: Seq<u8>| p.len() <= MAX_PLAINTEXT_LEN && #[trigger] aes256gcm_seal(key@, nonce@, p) == sealed@
            ==> bytes_of(r) == Some(p),
{
    let cipher = Aes256Gcm::new(Key::<Aes256Gcm>::from_slice(key));
    cipher.decrypt(nonce.into(), sealed).ok()
}

/// Sealed data that does not open under the key and nonce it was given.
#[derive(Debug, Clone, Copy, PartialEq, Eq, Structural)]
pub enum DecryptionError {
    /// The tag did not authenticate the ciphertext: wrong key, wrong nonce, or
    /// altered data.
    DecryptionFailed,
}

/// The bytes that a successful decryption holds.
pub open spec fn plaintext_of(r: Result<Vec<u8>, DecryptionError>) -> Option<Seq<u8>> {
    match r {
        Ok(v) => Some(v@),
        Err(_) => None,
    }
}

/// Opens `input`, sealed under `key` and `nonce`; fails when the tag does not
/// authenticate it. What `encrypt` sealed under the same key and nonce comes
/// back byte for byte.
pub fn decrypt(input: &[u8], nonce: &[u8], key: &[u8]) -> (r: Result<Vec<u8>, DecryptionError>)
    requires
        key@.len() == KEY_LEN,
        nonce@.len() == NONCE_LEN,
    ensures
        plaintext_of(r) == aes256gcm_open(key@, nonce@, input@),
        r matches Ok(p) ==> p@.len() + TAG_LEN == input@.len(),
        forall|p: Seq<u8>| p.len() <= MAX_PLAINTEXT_LEN && #[trigger] aes256gcm_seal(key@, nonce@, p) == input@
            ==> plaintext_of(r) == Some(p),
{
    match open(key, nonce, input) {
        Some(p) => Ok(p),
        None => Err(DecryptionError::DecryptionFailed),
    }
}

} // verus!
