use canister_factory::principal::{Principal, MAX_LENGTH_IN_BYTES};

fn principal_of(bytes: &[u8]) -> Principal {
    Principal::from_slice(bytes).expect("at most 29 bytes")
}

#[test]
fn management_canister_is_the_empty_principal() {
    let p = Principal::management_canister();
    assert_eq!(p.as_slice(), &[] as &[u8]);
    assert_eq!(p, principal_of(&[]));
}

#[test]
fn management_canister_prints_as_its_well_known_id() {
    assert_eq!(Principal::management_canister().to_text(), "aaaaa-aa");
}

#[test]
fn text_of_known_principals() {
    assert_eq!(principal_of(&[4]).to_text(), "2vxsx-fae");
    assert_eq!(
        principal_of(&[0xef, 0xcd, 0xab, 0, 0, 0, 0, 0, 1]).to_text(),
        "2chl6-4hpzw-vqaaa-aaaaa-c"
    );
}

#[test]
fn text_is_what_candid_prints() {
    let mut bytes: Vec<u8> = Vec::new();
    for n in 0..=MAX_LENGTH_IN_BYTES {
        let ours = principal_of(&bytes).to_text();
        let theirs = candid::Principal::from_slice(&bytes).to_text();
        assert_eq!(ours, theirs);
        bytes.push((n as u8).wrapping_mul(37).wrapping_add(11));
    }
}

#[test]
fn from_slice_keeps_the_bytes() {
    let bytes = [1u8, 2, 3, 0, 0];
    let p = principal_of(&bytes);
    assert_eq!(p.as_slice(), &bytes);
}

#[test]
fn from_slice_takes_twenty_nine_bytes_and_no_more() {
    let longest = [7u8; 29];
    let too_long = [7u8; 30];
    assert_eq!(MAX_LENGTH_IN_BYTES, 29);
    assert_eq!(Principal::from_slice(&longest).map(|p| p.as_slice().len()), Some(29));
    assert!(Principal::from_slice(&too_long).is_none());
}

#[test]
fn principals_compare_by_their_bytes() {
    assert_eq!(principal_of(&[1, 2, 3]), principal_of(&[1, 2, 3]));
    assert_ne!(principal_of(&[1, 2, 3]), principal_of(&[1, 2, 4]));
    assert_ne!(principal_of(&[1, 2, 3]), principal_of(&[1, 2]));
}

#[test]
fn trailing_zeros_are_content() {
    assert_ne!(principal_of(&[1]), principal_of(&[1, 0]));
    assert_ne!(principal_of(&[]), principal_of(&[0]));
    assert_eq!(principal_of(&[1, 0]).as_slice(), &[1u8, 0]);
}

#[test]
fn a_copy_is_equal() {
    let p = principal_of(&[9, 8, 7]);
    let q = p;
    assert_eq!(p, q);
    assert_eq!(p.clone().to_text(), q.to_text());
}
