//! The sender-address resolver: the single authorization and attribution
//! decision shared by the native and wrapped transfer-with-payload handlers.

use vstd::prelude::*;

use crate::address::ExternalAddress;
use crate::address::SenderError;
use crate::address::bytes32_eq;
use crate::derivation::derived_address;
use crate::derivation::sender_seed;
use crate::derivation::sender_seed_bytes;
use crate::derivation::try_derive_address;

verus! {

/// The view of an optional program identifier as an optional byte sequence.
pub open spec fn program_view(p: Option<[u8; 32]>) -> Option<Seq<u8>> {
    match p {
        Some(q) => Some(q@),
        None => None,
    }
}

/// The resolved external address, as a mathematical function of the caller
/// key and the optional invoking-program identifier. `Some(bytes)` is the
/// address attributed to the sender; `None` means the caller is not
/// authorized to claim the program's identity.
///
/// With no program given, the caller's own key is the sender. With a program
/// given, the caller must equal the program's derived sender authority, and
/// the sender is then the program identifier itself, never the derived
/// authority.
pub open spec fn resolved_sender(sender_authority: Seq<u8>, cpi_program_id: Option<Seq<u8>>) -> Option<Seq<u8>> {
    match cpi_program_id {
        None => Some(sender_authority),
        Some(program_id) => match derived_address(sender_seed(), program_id) {
            Some(ab) => if sender_authority == ab.0 {
                Some(program_id)
            } else {
                None
            },
            None => None,
        },
    }
}

/// Finishes resolution for a relayed call once the program's expected sender
/// authority is in hand: the caller must equal it, and the attributed sender
/// is the program identifier itself.
pub fn resolve_with_authority(
    sender_authority: &[u8; 32],
    expected_authority: &[u8; 32],
    program_id: &[u8; 32],
) -> (r: Result<ExternalAddress, SenderError>)
    ensures
        sender_authority@ == expected_authority@ ==> (r matches Ok(a) && a@ == program_id@),
        sender_authority@ != expected_authority@ ==> r == Err::<ExternalAddress, SenderError>(
            SenderError::AuthorizationError,
        ),
{
    if bytes32_eq(sender_authority, expected_authority) {
        Ok(ExternalAddress::new(*program_id))
    } else {
        Err(SenderError::AuthorizationError)
    }
}

/// Resolves the sender identity of an outbound transfer.
///
/// With no invoking program, the authenticated caller key is the sender,
/// unchanged. With an invoking program, the caller must be that program's
/// derived sender authority; the sender is then the program identifier, and
/// any other caller is rejected with `AuthorizationError`.
pub fn new_sender_address(
    sender_authority: &[u8; 32],
    cpi_program_id: Option<[u8; 32]>,
) -> (r: Result<ExternalAddress, SenderError>)
    ensures
        (match r {
            Ok(a) => resolved_sender(sender_authority@, program_view(cpi_program_id)) == Some(a@),
            Err(e) => resolved_sender(sender_authority@, program_view(cpi_program_id)) is None
                && e == SenderError::AuthorizationError,
        }),
{
    match cpi_program_id {
        None => Ok(ExternalAddress::new(*sender_authority)),
        Some(program_id) => {
            let seed = sender_seed_bytes();
            match try_derive_address(&seed, &program_id) {
                Some(expected) => resolve_with_authority(sender_authority, &expected.0, &program_id),
                None => Err(SenderError::AuthorizationError),
            }
        },
    }
}

/// Law: a direct call — no invoking program — resolves to the caller's own
/// key, unchanged, and never fails.
pub proof fn lemma_direct_resolves_to_caller(sender_authority: Seq<u8>)
    ensures
        resolved_sender(sender_authority, None::<Seq<u8>>) == Some(sender_authority),
{
}

/// Law: when the caller is exactly the program's derived sender authority,
/// resolution succeeds and attributes the transfer to the program identifier
/// itself, not to the derived authority.
pub proof fn lemma_relayed_resolves_to_program(program_id: Seq<u8>)
    ensures
        (match derived_address(sender_seed(), program_id) {
            Some(ab) => resolved_sender(ab.0, Some(program_id)) == Some(program_id),
            None => true,
        }),
{
}

/// Law: any caller other than the program's derived sender authority is
/// rejected: resolution for that program yields no address.
pub proof fn lemma_spoofed_caller_rejected(sender_authority: Seq<u8>, program_id: Seq<u8>)
    ensures
        (match derived_address(sender_seed(), program_id) {
            Some(ab) => sender_authority != ab.0
                ==> resolved_sender(sender_authority, Some(program_id)) is None,
            None => resolved_sender(sender_authority, Some(program_id)) is None,
        }),
{
}

/// Law: resolution is deterministic — the outcome is a single value fixed by
/// the caller key and the optional program identifier, so two results that
/// both satisfy the resolver's contract are equal.
pub proof fn lemma_resolution_deterministic(
    sender_authority: Seq<u8>,
    cpi_program_id: Option<Seq<u8>>,
    r1: Option<Seq<u8>>,
    r2: Option<Seq<u8>>,
)
    ensures
        r1 == resolved_sender(sender_authority, cpi_program_id)
            && r2 == resolved_sender(sender_authority, cpi_program_id) ==> r1 == r2,
{
}

} // verus!
