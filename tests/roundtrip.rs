use std::collections::HashSet;

use staticrypt::{
    byte_array_literal, decrypt, embed, encrypt, gen_decrypt_quote, get_key, get_seed, init,
    random_pool, BuildContext, DecryptionError, EncryptionError, SeedError,
};

fn context() -> BuildContext {
    let pool = random_pool().unwrap();
    BuildContext::new(None, &pool).unwrap()
}

fn round_trip_text(text: &str) -> String {
    let mut ctx = context();
    let key = get_key(&mut ctx);
    let (sealed, nonce) = encrypt(&mut ctx, text.as_bytes(), &key).unwrap();
    String::from_utf8(decrypt(&sealed, &nonce, &key).unwrap()).unwrap()
}

#[test]
fn encrypt_decrypt() {
    let my_text = round_trip_text("super secret woah");

    assert_eq!(my_text, "super secret woah");
}

#[test]
fn nullbyte() {
    let my_text = round_trip_text("sometest\0 withnull");

    assert_eq!(my_text, "sometest\0 withnull");
}

#[test]
fn unicode() {
    let my_text = round_trip_text("I have Unicode \u{0256}");

    assert_eq!(my_text, "I have Unicode \u{0256}");
}

#[test]
fn forty_two_opens_only_under_its_key() {
    let mut ctx = context();
    let key = get_key(&mut ctx);
    let (sealed, nonce) = encrypt(&mut ctx, b"42", &key).unwrap();
    assert_eq!(sealed.len(), 2 + 16);
    assert_ne!(&sealed[..2], b"42");
    assert_eq!(decrypt(&sealed, &nonce, &key).unwrap(), b"42".to_vec());
    let mut other = key.clone();
    other[0] ^= 1;
    assert_eq!(decrypt(&sealed, &nonce, &other), Err(DecryptionError::DecryptionFailed));
}

#[test]
fn embedded_null_round_trips() {
    let mut ctx = context();
    let key = get_key(&mut ctx);
    let (sealed, nonce) = encrypt(&mut ctx, b"a\0b", &key).unwrap();
    let plain = decrypt(&sealed, &nonce, &key).unwrap();
    assert_eq!(plain, vec![b'a', 0u8, b'b']);
}

#[test]
fn two_byte_code_point_round_trips() {
    assert_eq!(round_trip_text("\u{0256}"), "\u{0256}");
}

#[test]
fn empty_and_non_utf8_round_trip() {
    let mut ctx = context();
    let key = get_key(&mut ctx);
    for input in [Vec::new(), vec![0xffu8, 0xfe, 0x00, 0x80]] {
        let (sealed, nonce) = encrypt(&mut ctx, &input, &key).unwrap();
        assert_eq!(sealed.len(), input.len() + 16);
        assert_eq!(nonce.len(), 12);
        assert_eq!(decrypt(&sealed, &nonce, &key).unwrap(), input);
    }
}

#[test]
fn any_flipped_bit_fails_authentication() {
    let mut ctx = context();
    let key = get_key(&mut ctx);
    let (sealed, nonce) = encrypt(&mut ctx, b"tamper", &key).unwrap();
    for i in 0..sealed.len() * 8 {
        let mut bad = sealed.clone();
        bad[i / 8] ^= 1 << (i % 8);
        assert_eq!(decrypt(&bad, &nonce, &key), Err(DecryptionError::DecryptionFailed));
    }
    for i in 0..nonce.len() * 8 {
        let mut bad = nonce.clone();
        bad[i / 8] ^= 1 << (i % 8);
        assert_eq!(decrypt(&sealed, &bad, &key), Err(DecryptionError::DecryptionFailed));
    }
}

#[test]
fn nonces_never_repeat() {
    let mut ctx = context();
    let key = get_key(&mut ctx);
    let mut seen = HashSet::new();
    for _ in 0..10_000 {
        let (_, nonce) = encrypt(&mut ctx, b"x", &key).unwrap();
        assert!(seen.insert(nonce));
    }
}

#[test]
fn fixed_seed_repeats_key_and_nonces() {
    let seed: Vec<u8> = (0u8..32).collect();
    let run = |seed: &[u8]| {
        let mut ctx = BuildContext::from_seed(seed);
        let key = get_key(&mut ctx);
        let nonces: Vec<Vec<u8>> = (0..20)
            .map(|_| encrypt(&mut ctx, b"item", &key).unwrap().1)
            .collect();
        (key, nonces)
    };
    let pool_a = random_pool().unwrap();
    let pool_b = random_pool().unwrap();
    let a = BuildContext::new(Some(&seed), &pool_a).unwrap();
    let b = BuildContext::new(Some(&seed), &pool_b).unwrap();
    assert_eq!(a.seed(), b.seed());
    assert_eq!(run(&seed), run(&seed));
    let mut other = seed.clone();
    other[31] ^= 1;
    assert_ne!(run(&seed).0, run(&other).0);
}

#[test]
fn key_is_drawn_once() {
    let mut ctx = context();
    let first = get_key(&mut ctx);
    let second = get_key(&mut ctx);
    assert_eq!(first.len(), 32);
    assert_eq!(first, second);
}

#[test]
fn ten_byte_override_is_padded_from_the_pool() {
    let pool = random_pool().unwrap();
    let over = b"0123456789";
    let first = get_seed(Some(over), &pool).unwrap();
    let second = get_seed(Some(over), &pool).unwrap();
    assert_eq!(first.len(), 32);
    assert_eq!(&first[..10], over);
    assert_eq!(&first[10..], &pool[10..]);
    assert_eq!(first, second);
}

#[test]
fn missing_override_uses_the_pool() {
    let pool: Vec<u8> = (100u8..132).collect();
    assert_eq!(get_seed(None, &pool).unwrap(), pool);
    assert_eq!(get_seed(Some(&[]), &pool).unwrap(), pool);
    let full = [7u8; 32];
    assert_eq!(get_seed(Some(&full), &pool).unwrap(), full.to_vec());
}

#[test]
fn long_override_is_rejected() {
    let pool = random_pool().unwrap();
    let over = [1u8; 33];
    assert_eq!(get_seed(Some(&over), &pool), Err(SeedError::InvalidLength(33)));
    assert!(matches!(
        BuildContext::new(Some(&[0u8; 40]), &pool),
        Err(SeedError::InvalidLength(40))
    ));
}

#[test]
fn short_key_is_rejected() {
    let mut ctx = context();
    let key = [3u8; 31];
    assert_eq!(
        encrypt(&mut ctx, b"data", &key),
        Err(EncryptionError::InvalidKeyLength(31))
    );
}

#[test]
fn array_literal_text() {
    assert_eq!(byte_array_literal(&[]), b"[]".to_vec());
    assert_eq!(byte_array_literal(&[0, 9, 10, 99, 100, 255]),
        b"[0u8, 9u8, 10u8, 99u8, 100u8, 255u8]".to_vec());
}

#[test]
fn key_declaration_text() {
    let mut ctx = context();
    let key = get_key(&mut ctx);
    let decl = String::from_utf8(init(&mut ctx)).unwrap();
    let expected = format!(
        "const STATICRYPT_ENCRYPT_KEY: &[u8] = &{};",
        String::from_utf8(byte_array_literal(&key)).unwrap()
    );
    assert_eq!(decl, expected);
}

#[test]
fn restore_code_text() {
    let mut ctx = context();
    let key = get_key(&mut ctx);
    let item = embed(&mut ctx, b"hi", true);
    assert!(item.is_text);
    assert_eq!(decrypt(&item.ciphertext, &item.nonce, &key).unwrap(), b"hi".to_vec());
    let code = String::from_utf8(item.restore_code(b"::staticrypt")).unwrap();
    let expected = format!(
        "{{ const ENCRYPTED: &[u8] = &{}; const NONCE: &[u8] = &{}; ::std::string::String::from_utf8(::staticrypt::decrypt(ENCRYPTED, NONCE, crate::STATICRYPT_ENCRYPT_KEY).unwrap()).unwrap() }}",
        String::from_utf8(byte_array_literal(&item.ciphertext)).unwrap(),
        String::from_utf8(byte_array_literal(&item.nonce)).unwrap()
    );
    assert_eq!(code, expected);
    let bytes = String::from_utf8(gen_decrypt_quote(&mut ctx, b"raw", false, b"crate")).unwrap();
    assert!(bytes.starts_with("{ const ENCRYPTED: &[u8] = &["));
    assert!(bytes.ends_with("; crate::decrypt(ENCRYPTED, NONCE, crate::STATICRYPT_ENCRYPT_KEY).unwrap() }"));
}

#[test]
fn fresh_contexts_from_one_seed_render_the_same_code() {
    let seed = [42u8; 32];
    let mut a = BuildContext::from_seed(&seed);
    let mut b = BuildContext::from_seed(&seed);
    assert_eq!(init(&mut a), init(&mut b));
    for text in ["one", "two", ""] {
        assert_eq!(
            gen_decrypt_quote(&mut a, text.as_bytes(), true, b"crate"),
            gen_decrypt_quote(&mut b, text.as_bytes(), true, b"crate")
        );
    }
}

#[test]
fn decrypted_text_is_tag_shorter() {
    let mut ctx = context();
    let key = get_key(&mut ctx);
    let (sealed, nonce) = encrypt(&mut ctx, b"twelve bytes", &key).unwrap();
    let plain = decrypt(&sealed, &nonce, &key).unwrap();
    assert_eq!(plain.len() + 16, sealed.len());
    assert_eq!(decrypt(&sealed[..10], &nonce, &key), Err(DecryptionError::DecryptionFailed));
}
