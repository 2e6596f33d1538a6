use subspace_client::net::crypt::VieEncrypt;
use subspace_client::net::rand::VieRng;

const SERVER_KEY: u32 = 0x8765_4321;
const CLIENT_KEY: u32 = 0x789A_BCDF;

fn keyed() -> VieEncrypt {
    let mut cipher = VieEncrypt::new(CLIENT_KEY);
    assert!(cipher.initialize(SERVER_KEY));
    cipher
}

#[test]
fn rng_next_exact_values() {
    let mut rng = VieRng::new(1);
    assert_eq!(rng.next(), 16930);
    assert_eq!(rng.seed, 16930);
    assert_eq!(rng.next(), 284_542_633);
    assert_eq!(VieRng::new(0).next(), 123);
    assert_eq!(VieRng::new(0x7FFF_FFFF).next(), 123);
    assert_eq!(VieRng::new(-5).next(), 2_147_399_735);
    assert_eq!(VieRng::new(i32::MIN).next(), 2_147_466_963);
}

#[test]
fn rng_next_encrypt_exact_values() {
    let mut rng = VieRng::new(1);
    assert_eq!(rng.next_encrypt(), 16930);
    assert_eq!(rng.seed, 16930);
    let mut rng = VieRng::new(123_456_789);
    assert_eq!(rng.next_encrypt(), 8692);
    assert_eq!(rng.seed, 469_049_844);
    let mut rng = VieRng::new(-7);
    assert_eq!(rng.next_encrypt(), 16381);
    assert_eq!(rng.seed, 1_961_508_861);
}

#[test]
fn new_cipher_is_disabled() {
    let cipher = VieEncrypt::new(CLIENT_KEY);
    assert_eq!(cipher.session_key, 0);
    assert_eq!(cipher.client_key, CLIENT_KEY);
    assert!(cipher.keystream.iter().all(|b| *b == 0));
}

#[test]
fn identity_key_disables_the_cipher() {
    let mut cipher = VieEncrypt::new(CLIENT_KEY);
    assert!(cipher.initialize(CLIENT_KEY));
    assert_eq!(cipher.session_key, 0);
    assert!(cipher.keystream.iter().all(|b| *b == 0));
}

#[test]
fn invalid_key_is_refused_and_changes_nothing() {
    let mut cipher = VieEncrypt::new(CLIENT_KEY);
    assert!(!cipher.initialize(0x1234_5678));
    assert_eq!(cipher.session_key, 0);
    assert_eq!(cipher.client_key, CLIENT_KEY);
    assert!(cipher.keystream.iter().all(|b| *b == 0));
    assert!(!cipher.is_valid_key(CLIENT_KEY + 1));
}

#[test]
fn valid_keys() {
    let cipher = VieEncrypt::new(CLIENT_KEY);
    assert!(cipher.is_valid_key(CLIENT_KEY));
    assert!(cipher.is_valid_key(SERVER_KEY));
    assert!(cipher.is_valid_key(0));
    let keyed = keyed();
    assert!(keyed.is_valid_key(SERVER_KEY));
    assert!(!keyed.is_valid_key(0));
}

#[test]
fn negated_key_seeds_the_keystream() {
    let cipher = keyed();
    assert_eq!(cipher.session_key, SERVER_KEY);
    assert_eq!(&cipher.keystream[0..8], &[38, 238, 240, 5, 205, 210, 194, 197]);
    assert_eq!(&cipher.keystream[516..520], &[195, 87, 18, 235]);
}

#[test]
fn encrypt_game_packet_exact_bytes() {
    let cipher = keyed();
    let plain = [0x03u8, 1, 2, 3, 4, 5, 6, 7, 8, 9, 10];
    let mut out = [0u8; 11];
    cipher.encrypt(&plain, &mut out);
    assert_eq!(out, [3, 6, 175, 150, 134, 206, 123, 83, 75, 39, 18]);
}

#[test]
fn encrypt_core_packet_exact_bytes() {
    let cipher = keyed();
    let plain = [0x00u8, 0x03, 1, 0, 0, 0, 0xAA, 0xBB, 0xCC];
    let mut out = [0xEEu8; 12];
    cipher.encrypt(&plain, &mut out);
    assert_eq!(&out[..9], &[0, 3, 6, 173, 149, 130, 97, 196, 155]);
    // the rest of the destination stays as it was
    assert_eq!(&out[9..], &[0xEE, 0xEE, 0xEE]);
}

#[test]
fn decrypt_inverts_encrypt_for_every_length() {
    let cipher = keyed();
    for first in [0u8, 1, 0x28].iter() {
        for len in 1..=520usize {
            let mut plain: Vec<u8> = (0..len).map(|i| (i * 7 + 3) as u8).collect();
            plain[0] = *first;
            let mut sealed = vec![0u8; len];
            cipher.encrypt(&plain, &mut sealed);
            assert_eq!(sealed[0], plain[0]);
            if *first == 0 && len >= 2 {
                assert_eq!(sealed[1], plain[1]);
            }
            cipher.decrypt(&mut sealed);
            assert_eq!(sealed, plain);
        }
    }
}

#[test]
fn full_size_packet_exact_tail() {
    let cipher = keyed();
    let mut plain: Vec<u8> = Vec::new();
    plain.extend(1..=255u8);
    plain.extend(0..255u8);
    plain.extend([0u8; 10]);
    assert_eq!(plain.len(), 520);
    let mut sealed = vec![0u8; 520];
    cipher.encrypt(&plain, &mut sealed);
    assert_eq!(&sealed[516..], &[103, 202, 75, 217]);
}

#[test]
fn disabled_cipher_leaves_packets_untouched() {
    let cipher = VieEncrypt::new(CLIENT_KEY);
    let plain = [9u8, 8, 7, 6, 5, 4, 3, 2, 1];
    let mut out = [0u8; 9];
    cipher.encrypt(&plain, &mut out);
    assert_eq!(out, plain);
    let mut again = plain;
    cipher.decrypt(&mut again);
    assert_eq!(again, plain);
    let empty: [u8; 0] = [];
    let mut none: [u8; 0] = [];
    cipher.encrypt(&empty, &mut none);
    cipher.decrypt(&mut none);
}

#[test]
fn short_core_packets_pass_through() {
    let cipher = keyed();
    let mut one = [0u8];
    cipher.decrypt(&mut one);
    assert_eq!(one, [0]);
    let plain = [0u8, 7];
    let mut out = [1u8, 1];
    cipher.encrypt(&plain, &mut out);
    assert_eq!(out, [0, 7]);
    let mut two = [0u8, 7];
    cipher.decrypt(&mut two);
    assert_eq!(two, [0, 7]);
}

#[test]
fn key_from_exact_values() {
    assert_eq!(VieEncrypt::key_from(1000, 1, 2), 0xFFFE_FFE5);
    assert_eq!(VieEncrypt::key_from(0, 0, 0), 0);
    assert_eq!(VieEncrypt::key_from(123_456, 0x8000, 5), 0x9999_A5AD);
}

#[test]
fn generated_keys_have_the_top_bit_set() {
    for _ in 0..50 {
        let key = VieEncrypt::generate_key();
        assert!(key == 0 || key >= 0x8000_0000);
    }
}
