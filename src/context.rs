use vstd::prelude::*;
use rand::rngs::StdRng;
use crate::cipher::{
    aes256gcm_seal, bytes_of, draw_key, draw_nonce, entropy_pool, rng_from_seed, rng_pos, rng_seed,
    seal, stdrng_bytes, KEY_LEN, MAX_PLAINTEXT_LEN, NONCE_LEN, TAG_LEN,
};
use crate::seed::{get_seed, resolved_seed, SeedError, SEED_LEN};

verus! {

/// A key of the wrong length was handed to `encrypt`.
#[derive(Debug, Clone, Copy, PartialEq, Eq, Structural)]
pub enum EncryptionError {
    /// The key is not `KEY_LEN` bytes long; the value is its length.
    InvalidKeyLength(usize),
}

/// A copy of the bytes of a slice.
pub(crate) fn copy_bytes(b: &[u8]) -> (r: Vec<u8>)
    ensures
        r@ == b@,
{
    let mut r: Vec<u8> = Vec::new();
    let mut i: usize = 0;
    while i < b.len()
        invariant
            i <= b@.len(),
            r@ == b@.subrange(0, i as int),
        decreases b@.len() - i,
    {
        r.push(b[i]);
        i += 1;
    }
    assert(r@ == b@);
    r
}

/// The state that one build shares between all the items it seals: the
/// resolved seed, the generator seeded from it, and the build's key once it
/// has been drawn.
pub struct BuildContext {
    seed: Vec<u8>,
    rng: StdRng,
    key: Option<Vec<u8>>,
}

impl BuildContext {
    /// The seed that the generator was made from.
    pub closed spec fn seed_view(&self) -> Seq<u8> {
        self.seed@
    }

    /// The build's key, once it has been drawn.
    pub closed spec fn key_view(&self) -> Option<Seq<u8>> {
        bytes_of(self.key)
    }

    /// How many bytes the generator has handed out since it was seeded.
    pub closed spec fn drawn(&self) -> nat {
        rng_pos(self.rng)
    }

    /// A 32-byte seed that the generator was made from, and a 32-byte key if
    /// one was drawn.
    pub closed spec fn wf(&self) -> bool {
        &&& self.seed@.len() == SEED_LEN
        &&& rng_seed(self.rng) == self.seed@
        &&& self.key matches Some(k) ==> k@.len() == KEY_LEN
    }

    /// A context whose generator is seeded with `seed`; no key is drawn yet.
    pub fn from_seed(seed: &[u8]) -> (r: BuildContext)
        requires
            seed@.len() == SEED_LEN,
        ensures
            r.wf(),
            r.seed_view() == seed@,
            r.key_view() is None,
            r.drawn() == 0,
    {
        BuildContext { seed: copy_bytes(seed), rng: rng_from_seed(seed), key: None }
    }

    /// A context seeded from an optional override, padded from `pool`; fails
    /// exactly where `get_seed` does.
    pub fn new(over: Option<&[u8]>, pool: &[u8]) -> (r: Result<BuildContext, SeedError>)
        requires
            pool@.len() == SEED_LEN,
        ensures
            match over {
                None => r matches Ok(c) && c.seed_view() == pool@,
                Some(o) => if o@.len() > SEED_LEN {
                    r matches Err(e) && e == SeedError::InvalidLength(o@.len() as usize)
                } else {
                    r matches Ok(c) && c.seed_view() == resolved_seed(o@, pool@)
                },
            },
            r matches Ok(c) ==> c.wf() && c.key_view() is None && c.drawn() == 0,
    {
        match get_seed(over, pool) {
            Ok(seed) => Ok(BuildContext::from_seed(seed.as_slice())),
            Err(e) => Err(e),
        }
    }

    /// The seed that the generator was made from.
    pub fn seed(&self) -> (r: &[u8])
        ensures
            r@ == self.seed_view(),
    {
        self.seed.as_slice()
    }

    /// Draws a fresh nonce: the generator's next 12 bytes.
    pub fn next_nonce(&mut self) -> (r: Vec<u8>)
        requires
            old(self).wf(),
        ensures
            final(self).wf(),
            final(self).seed_view() == old(self).seed_view(),
            final(self).key_view() == old(self).key_view(),
            r@ == stdrng_bytes(old(self).seed_view(), old(self).drawn(), NONCE_LEN as nat),
            final(self).drawn() == old(self).drawn() + NONCE_LEN,
            r@.len() == NONCE_LEN,
    {
        draw_nonce(&mut self.rng)
    }
}

/// The key that `get_key` returns for a context in state `c`.
pub open spec fn next_key(c: BuildContext) -> Seq<u8> {
    match c.key_view() {
        Some(k) => k,
        None => stdrng_bytes(c.seed_view(), c.drawn(), KEY_LEN as nat),
    }
}

/// How many bytes the generator of a context in state `c` has handed out once
/// `get_key` has returned.
pub open spec fn drawn_after_key(c: BuildContext) -> nat {
    if c.key_view() is Some {
        c.drawn()
    } else {
        c.drawn() + KEY_LEN as nat
    }
}

/// Thirty-two bytes from the system's entropy source, to pad short seeds;
/// `None` when that source fails.
pub fn random_pool() -> (r: Option<Vec<u8>>)
    ensures
        r matches Some(v) ==> v@.len() == SEED_LEN,
{
    entropy_pool()
}

/// The build's key: the generator's next 32 bytes on the first call, and the
/// same value, with the context left as it was, on every later call.
pub fn get_key(ctx: &mut BuildContext) -> (r: Vec<u8>)
    requires
        old(ctx).wf(),
    ensures
        final(ctx).wf(),
        final(ctx).seed_view() == old(ctx).seed_view(),
        r@.len() == KEY_LEN,
        final(ctx).key_view() == Some(r@),
        r@ == next_key(*old(ctx)),
        final(ctx).drawn() == drawn_after_key(*old(ctx)),
        old(ctx).key_view() matches Some(k) ==> r@ == k && *final(ctx) == *old(ctx),
        old(ctx).key_view() is None ==> r@ == stdrng_bytes(old(ctx).seed_view(), old(ctx).drawn(), KEY_LEN as nat)
            && final(ctx).drawn() == old(ctx).drawn() + KEY_LEN,
{
    match &ctx.key {
        Some(k) => {
            return copy_bytes(k.as_slice());
        }
        None => {}
    }
    let k = draw_key(&mut ctx.rng);
    let r = copy_bytes(k.as_slice());
    ctx.key = Some(k);
    r
}

/// Seals `input` under `key` with a nonce drawn fresh from the context's
/// generator; returns the ciphertext, tag appended, and the nonce.
pub fn encrypt(ctx: &mut BuildContext, input: &[u8], key: &[u8]) -> (r: Result<(Vec<u8>, Vec<u8>), EncryptionError>)
    requires
        old(ctx).wf(),
        key@.len() == KEY_LEN ==> input@.len() <= MAX_PLAINTEXT_LEN,
    ensures
        final(ctx).wf(),
        final(ctx).seed_view() == old(ctx).seed_view(),
        final(ctx).key_view() == old(ctx).key_view(),
        key@.len() != KEY_LEN <==> r is Err,
        r matches Err(e) ==> e == EncryptionError::InvalidKeyLength(key@.len() as usize),
        key@.len() != KEY_LEN ==> *final(ctx) == *old(ctx),
        key@.len() == KEY_LEN ==> final(ctx).drawn() == old(ctx).drawn() + NONCE_LEN,
        r matches Ok((c, n)) ==> n@ == stdrng_bytes(old(ctx).seed_view(), old(ctx).drawn(), NONCE_LEN as nat)
            && n@.len() == NONCE_LEN && c@ == aes256gcm_seal(key@, n@, input@)
            && c@.len() == input@.len() + TAG_LEN,
{
    if key.len() != KEY_LEN {
        return Err(EncryptionError::InvalidKeyLength(key.len()));
    }
    let nonce = ctx.next_nonce();
    let sealed = seal(key, nonce.as_slice(), input);
    Ok((sealed, nonce))
}

} // verus!
