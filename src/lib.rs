//! Build-time literal obfuscation: values known when a program is built are
//! sealed with AES-256-GCM under one key per build, and restored at run time.
//!
//! - `seed`: resolving the 32-byte seed from an optional override.
//! - `cipher`: the AES-256-GCM primitives and the run-time `decrypt`.
//! - `context`: the per-build generator and key, and `encrypt`.
//! - `emit`: sealing items and rendering the code that restores them.

mod cipher;
mod context;
mod emit;
mod seed;

pub use cipher::{
    aes256gcm_open, aes256gcm_seal, bytes_of, decrypt, plaintext_of, rng_pos, rng_seed, stdrng_bytes,
    DecryptionError, KEY_LEN, MAX_PLAINTEXT_LEN, NONCE_LEN, TAG_LEN,
};
pub use context::{
    drawn_after_key, encrypt, get_key, next_key, random_pool, BuildContext, EncryptionError,
};
pub use emit::{
    array_text, byte_array_literal, byte_text, decimal, elements_text, embed, embed_nonce,
    gen_decrypt_quote, init, key_decl_text, lemma_same_seed_same_output, quote_text, restore_text,
    EncryptedItem,
};
pub use seed::{get_seed, lemma_seed_padding, resolved_seed, SeedError, SEED_LEN};
