use passthesalt::keys::{
    decode_private, decode_public, encode_private, encode_public, private_key_from_material,
    public_key_from_material,
};
use passthesalt::PtsError;

const COUNTING_MNEMONIC: &str =
    "a bog fire bog baby art bog acme floc guy robe big due gala ford men bale coo guy only from rob rook dow";

const SAMPLE_MNEMONIC: &str =
    "rash bush milk look bad brim avid gaff bait rot pod love trod mute tail warm char kong haag city bore o teal awl";

const SAMPLE_KEY: [u8; 32] = [
    0xCC, 0xAC, 0x2A, 0xED, 0x59, 0x10, 0x56, 0xBE, 0x4F, 0x90, 0xFD, 0x44, 0x1C, 0x53, 0x47, 0x66, 0xEF, 0xF8, 0x1F,
    0x9B, 0xFB, 0xC6, 0x53, 0x50, 0x92, 0x0C, 0xDD, 0x74, 0x16, 0xDE, 0x80, 0x09,
];

fn counting_key() -> [u8; 32] {
    let mut key = [0u8; 32];
    for (i, byte) in key.iter_mut().enumerate() {
        *byte = i as u8;
    }
    key
}

/// A stream of bytes that is the same on every run.
fn scrambled_key(seed: u64) -> [u8; 32] {
    let mut state = seed.wrapping_mul(6364136223846793005).wrapping_add(1442695040888963407);
    let mut key = [0u8; 32];
    for byte in key.iter_mut() {
        state = state.wrapping_mul(6364136223846793005).wrapping_add(1442695040888963407);
        *byte = (state >> 33) as u8;
    }
    key
}

#[test]
fn private_key_text_is_lowercase_hex() {
    assert_eq!(
        encode_private(&counting_key()),
        "000102030405060708090a0b0c0d0e0f101112131415161718191a1b1c1d1e1f"
    );
    assert_eq!(encode_private(&[0xff; 32]), "f".repeat(64));
    assert_eq!(encode_private(&[0xAB; 32]), "ab".repeat(32));
    assert_eq!(
        encode_private(&SAMPLE_KEY),
        "ccac2aed591056be4f90fd441c534766eff81f9bfbc65350920cdd7416de8009"
    );
}

#[test]
fn private_key_is_read_from_hex() {
    assert_eq!(
        decode_private("000102030405060708090a0b0c0d0e0f101112131415161718191a1b1c1d1e1f"),
        Ok(counting_key())
    );
    assert_eq!(decode_private(&"f".repeat(64)), Ok([0xff; 32]));
}

#[test]
fn private_key_text_may_be_in_upper_case() {
    assert_eq!(
        decode_private("000102030405060708090A0B0C0D0E0F101112131415161718191A1B1C1D1E1F"),
        Ok(counting_key())
    );
    assert_eq!(decode_private(&"Ff".repeat(32)), Ok([0xff; 32]));
}

#[test]
fn private_key_text_is_trimmed() {
    let text = format!("  \t{}\r\n", encode_private(&SAMPLE_KEY));
    assert_eq!(decode_private(&text), Ok(SAMPLE_KEY));
    let wide = format!("\u{a0}\u{2003}{}\u{3000}\u{85}", encode_private(&SAMPLE_KEY));
    assert_eq!(decode_private(&wide), Ok(SAMPLE_KEY));
}

#[test]
fn private_key_text_may_hold_blanks_between_digits() {
    let hex = encode_private(&SAMPLE_KEY);
    let spaced = format!("{} {}\n{}\t{}\r{}", &hex[..2], &hex[2..3], &hex[3..40], &hex[40..41], &hex[41..]);
    assert_eq!(decode_private(&spaced), Ok(SAMPLE_KEY));
}

#[test]
fn private_key_text_with_a_wide_blank_inside_is_rejected() {
    let hex = encode_private(&SAMPLE_KEY);
    let broken = format!("{}\u{a0}{}", &hex[..10], &hex[10..]);
    assert_eq!(decode_private(&broken), Err(PtsError::PrivateKeyParse));
}

#[test]
fn private_key_text_that_is_not_hex_is_rejected() {
    assert_eq!(decode_private("zz"), Err(PtsError::PrivateKeyParse));
    assert_eq!(decode_private(&"g".repeat(64)), Err(PtsError::PrivateKeyParse));
    assert_eq!(decode_private(&format!("{}-", "0".repeat(63))), Err(PtsError::PrivateKeyParse));
    assert_eq!(decode_private("0x00"), Err(PtsError::PrivateKeyParse));
    assert_eq!(decode_private(&"\u{e9}".repeat(64)), Err(PtsError::PrivateKeyParse));
}

#[test]
fn private_key_text_of_odd_length_is_rejected() {
    assert_eq!(decode_private("abc"), Err(PtsError::PrivateKeyParse));
    assert_eq!(decode_private(&"0".repeat(63)), Err(PtsError::PrivateKeyParse));
    assert_eq!(decode_private(&"0".repeat(65)), Err(PtsError::PrivateKeyParse));
}

#[test]
fn private_key_of_31_bytes_is_rejected_for_its_length() {
    assert_eq!(decode_private(&"ab".repeat(31)), Err(PtsError::PrivateKeyLength));
    assert_eq!(decode_private(&encode_private(&SAMPLE_KEY)[2..]), Err(PtsError::PrivateKeyLength));
}

#[test]
fn private_key_of_another_length_is_rejected_for_its_length() {
    assert_eq!(decode_private(""), Err(PtsError::PrivateKeyLength));
    assert_eq!(decode_private("   "), Err(PtsError::PrivateKeyLength));
    assert_eq!(decode_private("00"), Err(PtsError::PrivateKeyLength));
    assert_eq!(decode_private(&"ab".repeat(33)), Err(PtsError::PrivateKeyLength));
    assert_eq!(decode_private(&"ab".repeat(64)), Err(PtsError::PrivateKeyLength));
}

#[test]
fn private_key_round_trip() {
    for seed in 0..200u64 {
        let key = scrambled_key(seed);
        let text = encode_private(&key);
        assert_eq!(text.len(), 64);
        assert!(text.chars().all(|c| c.is_ascii_digit() || ('a'..='f').contains(&c)));
        assert_eq!(decode_private(&text), Ok(key));
    }
    assert_eq!(decode_private(&encode_private(&[0u8; 32])), Ok([0u8; 32]));
    assert_eq!(decode_private(&encode_private(&[0xffu8; 32])), Ok([0xffu8; 32]));
}

#[test]
fn public_key_text_is_a_lowercase_mnemonic() {
    assert_eq!(encode_public(&SAMPLE_KEY), Ok(SAMPLE_MNEMONIC.to_string()));
    assert_eq!(encode_public(&counting_key()), Ok(COUNTING_MNEMONIC.to_string()));
    assert_eq!(encode_public(&[0u8; 32]), Ok(["a"; 24].join(" ")));
    assert_eq!(
        encode_public(&[0xffu8; 32]),
        Ok("yoke yoke yoke yoke yoke year yoke yoke yoke yoke yoke year yoke yoke yoke yoke yoke year yoke yoke yoke \
            yoke yoke year"
            .to_string())
    );
}

#[test]
fn public_key_text_has_24_words() {
    for seed in 0..50u64 {
        let text = encode_public(&scrambled_key(seed)).unwrap();
        let words: Vec<&str> = text.split(' ').collect();
        assert_eq!(words.len(), 24);
        for word in words {
            assert!((1..=4).contains(&word.len()));
            assert!(word.chars().all(|c| c.is_ascii_lowercase()));
        }
    }
}

#[test]
fn public_key_text_of_other_multiples_of_eight() {
    assert_eq!(encode_public(&[]), Ok(String::new()));
    assert_eq!(encode_public(&SAMPLE_KEY[..8]), Ok("rash bush milk look bad brim".to_string()));
    assert_eq!(encode_public(&[0u8; 40]), Ok(["a"; 30].join(" ")));
}

#[test]
fn public_key_of_a_length_off_the_grid_cannot_be_written() {
    assert_eq!(encode_public(&[0u8; 31]), Err(PtsError::FatalEncode));
    assert_eq!(encode_public(&[0u8; 33]), Err(PtsError::FatalEncode));
    assert_eq!(encode_public(&[0u8; 1]), Err(PtsError::FatalEncode));
    assert_eq!(encode_public(&SAMPLE_KEY[..12]), Err(PtsError::FatalEncode));
}

#[test]
fn public_key_is_read_from_a_mnemonic() {
    assert_eq!(decode_public(SAMPLE_MNEMONIC), Ok(SAMPLE_KEY));
    assert_eq!(decode_public(COUNTING_MNEMONIC), Ok(counting_key()));
    assert_eq!(decode_public(&["a"; 24].join(" ")), Ok([0u8; 32]));
}

#[test]
fn public_key_text_may_be_in_any_case() {
    let upper = SAMPLE_MNEMONIC.to_uppercase();
    let mixed: String = SAMPLE_MNEMONIC
        .chars()
        .enumerate()
        .map(|(i, c)| if i % 3 == 0 { c.to_ascii_uppercase() } else { c })
        .collect();
    assert_ne!(mixed, upper);
    assert_ne!(mixed, SAMPLE_MNEMONIC);
    assert_eq!(decode_public(&upper), Ok(SAMPLE_KEY));
    assert_eq!(decode_public(&mixed), decode_public(&upper));
    assert_eq!(decode_public(&mixed), Ok(SAMPLE_KEY));
    assert_eq!(
        decode_public("RASH bush Milk lOOk baD BRIM avid gaff bait rot pod love trod mute tail warm char kong haag city bore O teal awl"),
        Ok(SAMPLE_KEY)
    );
}

#[test]
fn mixed_case_decodes_as_upper_case_even_when_neither_is_a_key() {
    for text in ["not a real mnemonic", "Rash Bush", "a a a a a a", "", "yoke YOKE yoke"] {
        assert_eq!(decode_public(text), decode_public(&text.to_uppercase()));
    }
}

#[test]
fn public_key_text_is_put_in_upper_case_beyond_ascii() {
    let mut key = [0u8; 32];
    key[0] = 0x5d;
    key[1] = 0x80;
    let text = encode_public(&key).unwrap();
    assert_eq!(text, format!("boss {}", ["a"; 23].join(" ")));
    let sharp = text.replacen("boss", "bo\u{df}", 1);
    assert_eq!(decode_public(&sharp), Ok(key));
    let long = text.replacen("boss", "bo\u{17f}s", 1);
    assert_eq!(decode_public(&long), Ok(key));
}

#[test]
fn public_key_text_is_trimmed() {
    let text = format!("\n\t  {}  \r\n", SAMPLE_MNEMONIC);
    assert_eq!(decode_public(&text), Ok(SAMPLE_KEY));
    let wide = format!("\u{2028}\u{a0}{}\u{1680}", SAMPLE_MNEMONIC);
    assert_eq!(decode_public(&wide), Ok(SAMPLE_KEY));
}

#[test]
fn public_key_words_may_be_parted_by_any_white_space() {
    let text = SAMPLE_MNEMONIC.replace(' ', "  \n\t");
    assert_eq!(decode_public(&text), Ok(SAMPLE_KEY));
}

#[test]
fn public_key_text_that_is_no_mnemonic_is_rejected() {
    assert_eq!(decode_public("not a real mnemonic"), Err(PtsError::PublicKeyParse));
    assert_eq!(decode_public("zzzz"), Err(PtsError::PublicKeyParse));
    assert_eq!(decode_public(&SAMPLE_MNEMONIC.replacen("rash", "rasj", 1)), Err(PtsError::PublicKeyParse));
    assert_eq!(decode_public(&SAMPLE_MNEMONIC.replacen("rash", "rashly", 1)), Err(PtsError::PublicKeyParse));
    assert_eq!(decode_public(&SAMPLE_MNEMONIC.replace(' ', ",")), Err(PtsError::PublicKeyParse));
}

#[test]
fn public_key_text_with_a_word_too_few_or_too_many_is_rejected() {
    let words: Vec<&str> = SAMPLE_MNEMONIC.split(' ').collect();
    assert_eq!(decode_public(&words[..23].join(" ")), Err(PtsError::PublicKeyParse));
    assert_eq!(decode_public(&words[..5].join(" ")), Err(PtsError::PublicKeyParse));
    assert_eq!(decode_public(&format!("{} a", SAMPLE_MNEMONIC)), Err(PtsError::PublicKeyParse));
}

#[test]
fn public_key_text_with_a_wrong_check_is_rejected() {
    // "awl" closes the last group of six words with the check bits 11; "awk" holds
    // the same data with the check bits 10.
    let broken = format!("{}awk", &SAMPLE_MNEMONIC[..SAMPLE_MNEMONIC.len() - 3]);
    assert_eq!(decode_public(&broken), Err(PtsError::PublicKeyParse));
}

#[test]
fn public_key_text_with_other_words_is_another_key() {
    // "awn" is the next word after "awl": one more in the last byte, and check bits to match.
    let next = format!("{}awn", &SAMPLE_MNEMONIC[..SAMPLE_MNEMONIC.len() - 3]);
    let mut expected = SAMPLE_KEY;
    expected[31] = 0x0a;
    assert_eq!(decode_public(&next), Ok(expected));
    let swapped = SAMPLE_MNEMONIC.replacen("rash bush", "bush rash", 1);
    let mut expected = SAMPLE_KEY;
    expected[0] = 97;
    expected[1] = 89;
    expected[2] = 150;
    assert_eq!(decode_public(&swapped), Ok(expected));
}

#[test]
fn public_key_of_another_length_is_rejected_for_its_length() {
    let words: Vec<&str> = SAMPLE_MNEMONIC.split(' ').collect();
    assert_eq!(decode_public(""), Err(PtsError::PublicKeyLength));
    assert_eq!(decode_public("  \n "), Err(PtsError::PublicKeyLength));
    assert_eq!(decode_public(&words[..6].join(" ")), Err(PtsError::PublicKeyLength));
    assert_eq!(decode_public(&words[..18].join(" ")), Err(PtsError::PublicKeyLength));
    assert_eq!(
        decode_public(&format!("{} {}", SAMPLE_MNEMONIC, words[..6].join(" "))),
        Err(PtsError::PublicKeyLength)
    );
    assert_eq!(decode_public(&encode_public(&[3u8; 24]).unwrap()), Err(PtsError::PublicKeyLength));
}

#[test]
fn public_key_round_trip() {
    for seed in 0..200u64 {
        let key = scrambled_key(seed);
        let text = encode_public(&key).unwrap();
        assert_eq!(decode_public(&text), Ok(key));
    }
    assert_eq!(decode_public(&encode_public(&[0u8; 32]).unwrap()), Ok([0u8; 32]));
    assert_eq!(decode_public(&encode_public(&[0xffu8; 32]).unwrap()), Ok([0xffu8; 32]));
}

#[test]
fn public_key_round_trip_through_every_word() {
    let mut seen = std::collections::BTreeSet::new();
    for index in 0..2048u16 {
        let mut key = scrambled_key(u64::from(index));
        key[0] = (index >> 3) as u8;
        key[1] = (key[1] & 0x1f) | (((index & 7) as u8) << 5);
        let text = encode_public(&key).unwrap();
        seen.insert(text.split(' ').next().unwrap().to_string());
        assert_eq!(decode_public(&text), Ok(key));
    }
    assert_eq!(seen.len(), 2048);
}

#[test]
fn material_of_32_bytes_makes_a_key() {
    assert_eq!(public_key_from_material(&SAMPLE_KEY), Ok(SAMPLE_KEY));
    assert_eq!(private_key_from_material(&SAMPLE_KEY), Ok(SAMPLE_KEY));
    assert_eq!(public_key_from_material(&counting_key().to_vec()), Ok(counting_key()));
    assert_eq!(private_key_from_material(&counting_key().to_vec()), Ok(counting_key()));
}

#[test]
fn material_of_31_bytes_makes_no_key() {
    assert_eq!(public_key_from_material(&[1u8; 31]), Err(PtsError::PublicKeyLength));
    assert_eq!(private_key_from_material(&[1u8; 31]), Err(PtsError::PrivateKeyLength));
}

#[test]
fn material_of_another_length_makes_no_key() {
    for len in [0usize, 1, 8, 16, 24, 33, 40, 64] {
        assert_eq!(public_key_from_material(&vec![0u8; len]), Err(PtsError::PublicKeyLength));
        assert_eq!(private_key_from_material(&vec![0u8; len]), Err(PtsError::PrivateKeyLength));
    }
}

#[test]
fn the_two_codecs_do_not_read_each_other() {
    assert_eq!(decode_public(&encode_private(&SAMPLE_KEY)), Err(PtsError::PublicKeyParse));
    assert_eq!(decode_private(SAMPLE_MNEMONIC), Err(PtsError::PrivateKeyParse));
}
