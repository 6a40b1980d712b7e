use dolos_midnight::api::get_status;
use dolos_midnight::chain_types::ChainPoint;
use dolos_midnight::hacks::{pointer_to_cred, Hacks, Pointer, PointerHack, StakeCredential};
use dolos_midnight::model::MidnightEntity;
use dolos_midnight::store::EntityStore;
use dolos_midnight::text::{str_contains, u128_decimal};

fn hex_of_hash(hash: [u8; 32]) -> String {
    let mut s: EntityStore<MidnightEntity> = EntityStore::new();
    s.set_cursor(ChainPoint::Specific(1, hash));
    get_status(&s).tip_hash.unwrap()
}

fn parse_hash28(text: &str) -> Option<[u8; 28]> {
    let hacks = Hacks {
        pointers: vec![PointerHack { slot: 0, tx_idx: 0, cert_idx: 0, credential: text.to_string() }],
        proposals: vec![],
    };
    match pointer_to_cred(&hacks, &Pointer { slot: 0, tx_idx: 0, cert_idx: 0 }) {
        Some(StakeCredential::AddrKeyhash(h)) => Some(h),
        Some(StakeCredential::ScriptHash(_)) => panic!("unexpected script hash"),
        None => None,
    }
}

#[test]
fn hex_encode_is_lowercase_two_digits_per_byte() {
    let mut h = [0u8; 32];
    h[0] = 0x0a;
    h[1] = 0xff;
    h[3] = 0x7b;
    h[31] = 0x10;
    let text = hex_of_hash(h);
    assert_eq!(text.len(), 64);
    assert_eq!(&text[..8], "0aff007b");
    assert_eq!(&text[62..], "10");
}

#[test]
fn decimal_rendering_of_amounts() {
    assert_eq!(u128_decimal(0), "0");
    assert_eq!(u128_decimal(7), "7");
    assert_eq!(u128_decimal(10), "10");
    assert_eq!(u128_decimal(1234567890123), "1234567890123");
    assert_eq!(u128_decimal(u128::MAX), u128::MAX.to_string());
}

#[test]
fn parse_hash28_accepts_56_hex_digits_of_either_case() {
    let lower = "00112233445566778899aabbccddeeff00112233445566778899aabb";
    let h = parse_hash28(lower).expect("valid");
    assert_eq!(h[0], 0x00);
    assert_eq!(h[1], 0x11);
    assert_eq!(h[10], 0xaa);
    assert_eq!(h[27], 0xbb);
    let upper = "00112233445566778899AABBCCDDEEFF00112233445566778899AABB";
    assert_eq!(parse_hash28(upper), Some(h));
}

#[test]
fn parse_hash28_refuses_wrong_length_and_non_hex() {
    assert_eq!(parse_hash28(""), None);
    assert_eq!(parse_hash28("00112233"), None);
    let with_g = "g0112233445566778899aabbccddeeff00112233445566778899aabb";
    assert_eq!(parse_hash28(with_g), None);
    let odd = "0011223344556677889";
    assert_eq!(parse_hash28(odd), None);
}

#[test]
fn substring_search() {
    assert!(str_contains("rpc: DisconnectedWillReconnect now", "DisconnectedWillReconnect"));
    assert!(str_contains("abc", ""));
    assert!(!str_contains("abc", "abcd"));
    assert!(!str_contains("Disconnected", "DisconnectedWillReconnect"));
}
