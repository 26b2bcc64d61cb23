use sender_resolver::address::bytes32_eq;
use sender_resolver::address::ExternalAddress;
use sender_resolver::address::SenderError;
use sender_resolver::new_sender_address;
use solana_program::pubkey::Pubkey;

/// The reference derivation: the program's sender authority under the
/// constant seed, computed directly by the chain SDK.
fn reference_authority(program_id: [u8; 32]) -> [u8; 32] {
    let program = Pubkey::new_from_array(program_id);
    let (authority, _bump) = Pubkey::find_program_address(&[b"sender"], &program);
    authority.to_bytes()
}

#[test]
fn direct_caller_resolves_to_itself() {
    let caller = [0x03u8; 32];
    let r = new_sender_address(&caller, None);
    assert_eq!(r, Ok(ExternalAddress::new([0x03u8; 32])));
    assert_eq!(r.unwrap().to_bytes(), [0x03u8; 32]);
}

#[test]
fn relayed_caller_resolves_to_program_id() {
    let program_id = [0x01u8; 32];
    let authority = reference_authority(program_id);
    let r = new_sender_address(&authority, Some(program_id));
    // The attributed sender is the program identifier, not the authority.
    assert_eq!(r, Ok(ExternalAddress::new([0x01u8; 32])));
    assert_ne!(authority, [0x01u8; 32]);
}

#[test]
fn wrong_caller_is_rejected() {
    let program_id = [0x01u8; 32];
    let caller = [0x02u8; 32];
    let r = new_sender_address(&caller, Some(program_id));
    assert_eq!(r, Err(SenderError::AuthorizationError));
}

#[test]
fn program_id_itself_is_not_its_authority() {
    // The derived authority is an off-curve hash, never the program id
    // itself: a program cannot pose as its own authority.
    let program_id = [0x05u8; 32];
    let r = new_sender_address(&program_id, Some(program_id));
    assert_eq!(r, Err(SenderError::AuthorizationError));
}

#[test]
fn resolution_is_deterministic() {
    let caller = [0x07u8; 32];
    let program_id = [0x09u8; 32];
    let authority = reference_authority(program_id);

    let d1 = new_sender_address(&caller, None);
    let d2 = new_sender_address(&caller, None);
    assert_eq!(d1, d2);

    let r1 = new_sender_address(&authority, Some(program_id));
    let r2 = new_sender_address(&authority, Some(program_id));
    assert_eq!(r1, r2);
    assert_eq!(r1, Ok(ExternalAddress::new(program_id)));

    let e1 = new_sender_address(&caller, Some(program_id));
    let e2 = new_sender_address(&caller, Some(program_id));
    assert_eq!(e1, e2);
    assert_eq!(e1, Err(SenderError::AuthorizationError));
}

#[test]
fn distinct_programs_have_distinct_authorities() {
    let p1 = [0x11u8; 32];
    let p2 = [0x22u8; 32];
    let a1 = reference_authority(p1);
    let a2 = reference_authority(p2);
    assert_ne!(a1, a2);
    // One program's authority cannot claim the other program's identity.
    assert_eq!(
        new_sender_address(&a1, Some(p2)),
        Err(SenderError::AuthorizationError)
    );
    assert_eq!(
        new_sender_address(&a2, Some(p1)),
        Err(SenderError::AuthorizationError)
    );
    assert_eq!(new_sender_address(&a1, Some(p1)), Ok(ExternalAddress::new(p1)));
    assert_eq!(new_sender_address(&a2, Some(p2)), Ok(ExternalAddress::new(p2)));
}

#[test]
fn direct_path_keeps_every_byte() {
    let mut caller = [0u8; 32];
    for (i, b) in caller.iter_mut().enumerate() {
        *b = i as u8;
    }
    let r = new_sender_address(&caller, None).unwrap();
    assert_eq!(r.to_bytes(), caller);
}

#[test]
fn external_address_wraps_bytes() {
    let a = ExternalAddress::new([0xABu8; 32]);
    assert_eq!(a.to_bytes(), [0xABu8; 32]);
    assert_eq!(a.bytes, [0xABu8; 32]);
}

#[test]
fn bytes32_eq_compares_by_value() {
    let a = [0x10u8; 32];
    let mut b = [0x10u8; 32];
    assert!(bytes32_eq(&a, &b));
    b[31] = 0x11;
    assert!(!bytes32_eq(&a, &b));
}
