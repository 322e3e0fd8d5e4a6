use vstd::prelude::*;
use vstd::string::StringSliceAdditionalSpecFns;
use crate::cipher::{aes256gcm_seal, stdrng_bytes, MAX_PLAINTEXT_LEN, NONCE_LEN, TAG_LEN};
use crate::context::{drawn_after_key, encrypt, get_key, next_key, BuildContext};

verus! {

/// The ASCII decimal digits of `n`, without leading zeros.
pub open spec fn decimal(n: nat) -> Seq<u8>
    decreases n,
{
    if n < 10 {
        seq![(48 + n) as u8]
    } else {
        decimal(n / 10) + seq![(48 + n % 10) as u8]
    }
}

/// The Rust literal of one byte: its decimal digits and the suffix `u8`.
pub open spec fn byte_text(b: u8) -> Seq<u8> {
    decimal(b as nat) + seq![117u8, 56u8]
}

/// The byte literals of `s`, separated by `, `.
pub open spec fn elements_text(s: Seq<u8>) -> Seq<u8>
    decreases s.len(),
{
    if s.len() == 0 {
        seq![]
    } else if s.len() == 1 {
        byte_text(s[0])
    } else {
        elements_text(s.drop_last()) + seq![44u8, 32u8] + byte_text(s.last())
    }
}

/// The Rust array expression, as ASCII text, whose elements are the bytes of `s`.
pub open spec fn array_text(s: Seq<u8>) -> Seq<u8> {
    seq![91u8] + elements_text(s) + seq![93u8]
}

/// Appends the decimal digits of `b`.
fn push_decimal(out: &mut Vec<u8>, b: u8)
    ensures
        final(out)@ == old(out)@ + decimal(b as nat),
{
    if b >= 100 {
        let h: u8 = b / 100;
        let t: u8 = (b / 10) % 10;
        let u: u8 = b % 10;
        out.push(48 + h);
        out.push(48 + t);
        out.push(48 + u);
        assert(decimal((b / 100) as nat) == seq![(48 + h) as u8]);
        assert(decimal((b / 10) as nat) == seq![(48 + h) as u8, (48 + t) as u8]);
        assert(decimal(b as nat) == seq![(48 + h) as u8, (48 + t) as u8, (48 + u) as u8]);
    } else if b >= 10 {
        let t: u8 = b / 10;
        let u: u8 = b % 10;
        out.push(48 + t);
        out.push(48 + u);
        assert(decimal((b / 10) as nat) == seq![(48 + t) as u8]);
        assert(decimal(b as nat) == seq![(48 + t) as u8, (48 + u) as u8]);
    } else {
        out.push(48 + b);
        assert(decimal(b as nat) == seq![(48 + b) as u8]);
    }
}

/// Renders bytes as a Rust array expression of `u8` literals, such as
/// `[104u8, 105u8]`.
pub fn byte_array_literal(input: &[u8]) -> (r: Vec<u8>)
    ensures
        r@ == array_text(input@),
{
    let mut out: Vec<u8> = Vec::new();
    out.push(91u8);
    let mut i: usize = 0;
    while i < input.len()
        invariant
            i <= input@.len(),
            out@ == seq![91u8] + elements_text(input@.subrange(0, i as int)),
        decreases input@.len() - i,
    {
        let ghost before = out@;
        if i > 0 {
            out.push(44u8);
            out.push(32u8);
        }
        push_decimal(&mut out, input[i]);
        out.push(117u8);
        out.push(56u8);
        proof {
            let s = input@.subrange(0, i + 1);
            assert(s.drop_last() == input@.subrange(0, i as int));
            assert(s.last() == input@[i as int]);
            if i == 0 {
                assert(out@ == before + byte_text(input@[i as int]));
            } else {
                assert(out@ == before + seq![44u8, 32u8] + byte_text(input@[i as int]));
            }
        }
        i += 1;
    }
    out.push(93u8);
    assert(input@.subrange(0, input@.len() as int) == input@);
    out
}

/// Appends the bytes of `b`.
fn push_all(out: &mut Vec<u8>, b: &[u8])
    ensures
        final(out)@ == old(out)@ + b@,
{
    let mut i: usize = 0;
    while i < b.len()
        invariant
            i <= b@.len(),
            out@ == old(out)@ + b@.subrange(0, i as int),
        decreases b@.len() - i,
    {
        out.push(b[i]);
        i += 1;
        assert(out@ == old(out)@ + b@.subrange(0, i as int));
    }
    assert(b@.subrange(0, b@.len() as int) == b@);
}

/// One sealed item: the ciphertext with its tag, the nonce it was sealed
/// with, and whether the plaintext is to be read back as text.
pub struct EncryptedItem {
    pub ciphertext: Vec<u8>,
    pub nonce: Vec<u8>,
    pub is_text: bool,
}

/// The block expression, as ASCII text, that restores an item: it declares the
/// two constants locally and calls `decrypt` through `path` with the build's
/// key constant, checking the result as UTF-8 where the item is text.
pub open spec fn restore_text(ciphertext: Seq<u8>, nonce: Seq<u8>, is_text: bool, path: Seq<u8>) -> Seq<u8> {
    "{ const ENCRYPTED: &[u8] = &".spec_bytes() + array_text(ciphertext)
        + "; const NONCE: &[u8] = &".spec_bytes() + array_text(nonce) + "; ".spec_bytes()
        + (if is_text { "::std::string::String::from_utf8(".spec_bytes() } else { Seq::empty() })
        + path + "::decrypt(ENCRYPTED, NONCE, crate::STATICRYPT_ENCRYPT_KEY).unwrap()".spec_bytes()
        + (if is_text { ").unwrap()".spec_bytes() } else { Seq::empty() })
        + " }".spec_bytes()
}

/// The item declaration, as ASCII text, of the build's key constant.
pub open spec fn key_decl_text(key: Seq<u8>) -> Seq<u8> {
    "const STATICRYPT_ENCRYPT_KEY: &[u8] = &".spec_bytes() + array_text(key) + ";".spec_bytes()
}

impl EncryptedItem {
    /// The expression that restores this item, calling `decrypt` through
    /// `crate_path`.
    pub fn restore_code(&self, crate_path: &[u8]) -> (r: Vec<u8>)
        ensures
            r@ == restore_text(self.ciphertext@, self.nonce@, self.is_text, crate_path@),
    {
        let mut out: Vec<u8> = Vec::new();
        push_all(&mut out, "{ const ENCRYPTED: &[u8] = &".as_bytes());
        let c = byte_array_literal(self.ciphertext.as_slice());
        push_all(&mut out, c.as_slice());
        push_all(&mut out, "; const NONCE: &[u8] = &".as_bytes());
        let n = byte_array_literal(self.nonce.as_slice());
        push_all(&mut out, n.as_slice());
        push_all(&mut out, "; ".as_bytes());
        let ghost mid = out@;
        if self.is_text {
            push_all(&mut out, "::std::string::String::from_utf8(".as_bytes());
        } else {
            assert(out@ == mid + Seq::<u8>::empty());
        }
        push_all(&mut out, crate_path);
        push_all(&mut out, "::decrypt(ENCRYPTED, NONCE, crate::STATICRYPT_ENCRYPT_KEY).unwrap()".as_bytes());
        let ghost mid2 = out@;
        if self.is_text {
            push_all(&mut out, ").unwrap()".as_bytes());
        } else {
            assert(out@ == mid2 + Seq::<u8>::empty());
        }
        push_all(&mut out, " }".as_bytes());
        out
    }
}

/// The nonce that `embed` draws for a context in state `c`: the generator's
/// next 12 bytes once the key is drawn.
pub open spec fn embed_nonce(c: BuildContext) -> Seq<u8> {
    stdrng_bytes(c.seed_view(), drawn_after_key(c), NONCE_LEN as nat)
}

/// The text that `gen_decrypt_quote` renders for a context in state `c`.
pub open spec fn quote_text(c: BuildContext, contents: Seq<u8>, is_text: bool, path: Seq<u8>) -> Seq<u8> {
    restore_text(aes256gcm_seal(next_key(c), embed_nonce(c), contents), embed_nonce(c), is_text, path)
}

/// Seals `contents` under the build's key with a fresh nonce: draws the key
/// if it has not been drawn, then exactly one nonce.
pub fn embed(ctx: &mut BuildContext, contents: &[u8], is_text: bool) -> (r: EncryptedItem)
    requires
        old(ctx).wf(),
        contents@.len() <= MAX_PLAINTEXT_LEN,
    ensures
        final(ctx).wf(),
        final(ctx).seed_view() == old(ctx).seed_view(),
        final(ctx).key_view() == Some(next_key(*old(ctx))),
        final(ctx).drawn() == drawn_after_key(*old(ctx)) + NONCE_LEN,
        r.nonce@ == embed_nonce(*old(ctx)),
        r.ciphertext@ == aes256gcm_seal(next_key(*old(ctx)), r.nonce@, contents@),
        r.nonce@.len() == NONCE_LEN,
        r.ciphertext@.len() == contents@.len() + TAG_LEN,
        r.is_text == is_text,
{
    let key = get_key(ctx);
    match encrypt(ctx, contents, key.as_slice()) {
        Ok((ciphertext, nonce)) => EncryptedItem { ciphertext, nonce, is_text },
        Err(_) => {
            proof {
                assert(false);
            }
            EncryptedItem { ciphertext: Vec::new(), nonce: Vec::new(), is_text }
        }
    }
}

/// Seals `contents` and renders the expression that restores it, calling
/// `decrypt` through `crate_path`.
pub fn gen_decrypt_quote(ctx: &mut BuildContext, contents: &[u8], is_string: bool, crate_path: &[u8]) -> (r: Vec<u8>)
    requires
        old(ctx).wf(),
        contents@.len() <= MAX_PLAINTEXT_LEN,
    ensures
        final(ctx).wf(),
        final(ctx).seed_view() == old(ctx).seed_view(),
        final(ctx).key_view() == Some(next_key(*old(ctx))),
        final(ctx).drawn() == drawn_after_key(*old(ctx)) + NONCE_LEN,
        r@ == quote_text(*old(ctx), contents@, is_string, crate_path@),
{
    let item = embed(ctx, contents, is_string);
    item.restore_code(crate_path)
}

/// The declaration of the build's key constant, drawing the key if it has not
/// been drawn yet.
pub fn init(ctx: &mut BuildContext) -> (r: Vec<u8>)
    requires
        old(ctx).wf(),
    ensures
        final(ctx).wf(),
        final(ctx).seed_view() == old(ctx).seed_view(),
        final(ctx).key_view() == Some(next_key(*old(ctx))),
        final(ctx).drawn() == drawn_after_key(*old(ctx)),
        r@ == key_decl_text(next_key(*old(ctx))),
{
    let key = get_key(ctx);
    let mut out: Vec<u8> = Vec::new();
    push_all(&mut out, "const STATICRYPT_ENCRYPT_KEY: &[u8] = &".as_bytes());
    let k = byte_array_literal(key.as_slice());
    push_all(&mut out, k.as_slice());
    push_all(&mut out, ";".as_bytes());
    out
}

/// Two contexts with the same seed, the same number of bytes drawn and the
/// same key (two fresh contexts from one seed, say) render the same text for
/// the same item and the same key declaration, and are left agreeing again.
pub proof fn lemma_same_seed_same_output(
    a: BuildContext,
    b: BuildContext,
    contents: Seq<u8>,
    is_text: bool,
    path: Seq<u8>,
)
    requires
        a.seed_view() == b.seed_view(),
        a.drawn() == b.drawn(),
        a.key_view() == b.key_view(),
    ensures
        next_key(a) == next_key(b),
        drawn_after_key(a) == drawn_after_key(b),
        embed_nonce(a) == embed_nonce(b),
        quote_text(a, contents, is_text, path) == quote_text(b, contents, is_text, path),
        key_decl_text(next_key(a)) == key_decl_text(next_key(b)),
{
}

} // verus!
