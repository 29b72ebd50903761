use spirv_to_dxil::{sign, sign_in_place};

fn container(tag: [u8; 4], slot: [u8; 16], payload: &[u8]) -> Vec<u8> {
    let mut blob = Vec::new();
    blob.extend_from_slice(&tag);
    blob.extend_from_slice(&slot);
    blob.extend_from_slice(payload);
    blob
}

fn pattern(len: usize) -> Vec<u8> {
    (0..len).map(|i| ((7 * i + 3) & 0xff) as u8).collect()
}

fn digest_of(payload: &[u8]) -> [u32; 4] {
    let blob = container(*b"DXBC", [0u8; 16], payload);
    let mut out = [0u32; 4];
    sign(&blob, &mut out);
    out
}

#[test]
fn test() {
    let mut blob = container(
        *b"DXBC",
        [
            0xee, 0x26, 0x55, 0x1c, 0xff, 0x5f, 0xe1, 0x58, 0x4a, 0x35, 0x2e, 0x8d, 0x6b, 0xba,
            0x6a, 0x77,
        ],
        &pattern(1000),
    );
    blob.shrink_to_fit();
    let sig = &blob[4..20];
    let mut out_sig = [0u32; 4];

    sign(&blob, &mut out_sig);

    assert_eq!(sig, bytemuck::cast_slice::<u32, u8>(&out_sig));
}

#[test]
fn empty_payload_has_the_fixed_digest() {
    assert_eq!(digest_of(&[]), [0xf6600d14, 0xbae275b7, 0xd4be4a4e, 0xa1e9b201]);
}

#[test]
fn empty_payload_signed_in_place() {
    let mut blob = vec![0u8; 20];
    sign_in_place(&mut blob);
    assert_eq!(
        blob,
        vec![
            0, 0, 0, 0, 0x14, 0x0d, 0x60, 0xf6, 0xb7, 0x75, 0xe2, 0xba, 0x4e, 0x4a, 0xbe, 0xd4,
            0x01, 0xb2, 0xe9, 0xa1,
        ]
    );
}

#[test]
fn all_zero_payloads_around_the_block_boundaries() {
    assert_eq!(digest_of(&[0u8; 1]), [0x6e836429, 0x4c2abd48, 0xda0370b1, 0x0a6b71c0]);
    assert_eq!(digest_of(&[0u8; 3]), [0xe2516994, 0x329c901e, 0x40997e9a, 0x318d69fa]);
    assert_eq!(digest_of(&[0u8; 59]), [0x2aaadd5f, 0xcc78d571, 0x685b8729, 0x1160d714]);
    assert_eq!(digest_of(&[0u8; 60]), [0xe88b8ae3, 0x4740530a, 0xc9373a22, 0xf513cd9f]);
    assert_eq!(digest_of(&[0u8; 63]), [0x4e615f3f, 0xd517f741, 0x6065144a, 0xe1d53557]);
    assert_eq!(digest_of(&[0u8; 64]), [0x6972f45c, 0xcb9a66e5, 0xc36ce27d, 0x76624f54]);
    assert_eq!(digest_of(&[0u8; 128]), [0xa1192b52, 0x25eca7be, 0x6cf07bcf, 0x94c459a7]);
}

#[test]
fn tail_of_55_bytes_goes_into_one_last_block() {
    assert_eq!(digest_of(&[0u8; 55]), [0xc6e87b4b, 0x30a23846, 0xa5fd6f1d, 0x5aab027b]);
    assert_eq!(digest_of(&pattern(55)), [0x9235b69a, 0xcb163f76, 0xc1adfaf9, 0xdcb37108]);
    assert_eq!(digest_of(&[0u8; 119]), [0xa6c0989a, 0xc72175c1, 0x07c2a466, 0x81be375e]);
}

#[test]
fn tail_of_56_bytes_takes_the_length_block() {
    assert_eq!(digest_of(&[0u8; 56]), [0xd7202b8b, 0x91e5987e, 0x7072b5cb, 0xa1984097]);
    assert_eq!(digest_of(&pattern(56)), [0x75e53196, 0xec7f9c80, 0x9ca7e127, 0x0407bf6d]);
    assert_eq!(digest_of(&[0u8; 120]), [0x6f585fbf, 0x6cd487c5, 0x076a8a8b, 0xc51f6d3e]);
}

#[test]
fn large_payloads_of_whole_blocks_and_a_short_tail() {
    assert_eq!(digest_of(&pattern(1000)), [0x1c5526ee, 0x58e15fff, 0x8d2e354a, 0x776aba6b]);
    assert_eq!(digest_of(&pattern(4113)), [0xca0e2470, 0x85e574b5, 0xfa29ddb0, 0x530ce753]);
}

#[test]
fn digest_is_the_same_on_every_call() {
    let blob = container(*b"DXBC", [9u8; 16], &pattern(300));
    let mut first = [0u32; 4];
    let mut second = [0u32; 4];
    sign(&blob, &mut first);
    sign(&blob, &mut second);
    assert_eq!(first, second);
}

#[test]
fn tag_and_slot_are_not_hashed() {
    let payload = pattern(77);
    let a = container(*b"DXBC", [0u8; 16], &payload);
    let b = container(*b"ABCD", [0xffu8; 16], &payload);
    let mut da = [0u32; 4];
    let mut db = [0u32; 4];
    sign(&a, &mut da);
    sign(&b, &mut db);
    assert_eq!(da, db);
}

#[test]
fn sign_overwrites_what_out_held() {
    let blob = container(*b"DXBC", [0u8; 16], &[]);
    let mut out = [1u32, 2, 3, 4];
    sign(&blob, &mut out);
    assert_eq!(out, [0xf6600d14, 0xbae275b7, 0xd4be4a4e, 0xa1e9b201]);
}

#[test]
fn sign_in_place_writes_the_digest_and_nothing_else() {
    let payload = pattern(1000);
    let unsigned = container(*b"DXBC", [0x55u8; 16], &payload);
    let mut blob = unsigned.clone();
    sign_in_place(&mut blob);

    let mut digest = [0u32; 4];
    sign(&unsigned, &mut digest);
    let mut expected_slot = Vec::new();
    for word in digest {
        expected_slot.extend_from_slice(&word.to_le_bytes());
    }
    assert_eq!(blob.len(), unsigned.len());
    assert_eq!(&blob[0..4], &unsigned[0..4]);
    assert_eq!(&blob[4..20], &expected_slot[..]);
    assert_eq!(
        &blob[4..20],
        &[
            0xee, 0x26, 0x55, 0x1c, 0xff, 0x5f, 0xe1, 0x58, 0x4a, 0x35, 0x2e, 0x8d, 0x6b, 0xba,
            0x6a, 0x77
        ]
    );
    assert_eq!(&blob[20..], &unsigned[20..]);
}

#[test]
fn signing_a_signed_container_changes_nothing() {
    let mut blob = container(*b"DXBC", [0u8; 16], &pattern(4113));
    sign_in_place(&mut blob);
    let once = blob.clone();
    sign_in_place(&mut blob);
    assert_eq!(blob, once);
    assert_eq!(
        &blob[4..20],
        &[
            0x70, 0x24, 0x0e, 0xca, 0xb5, 0x74, 0xe5, 0x85, 0xb0, 0xdd, 0x29, 0xfa, 0x53, 0xe7,
            0x0c, 0x53
        ]
    );
}
