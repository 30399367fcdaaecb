use vstd::prelude::*;

use solana_program::pubkey::Pubkey;

verus! {

/// The host ledger's deterministic address derivation over
/// (campaign address, nonce), domain-separated by the program identity.
///
/// `None` is the degenerate case in which the derived bytes form a valid
/// independently-choosable key, which the ledger rejects as an authority.
pub uninterp spec fn spec_derived_authority(
    program_id: Seq<u8>,
    campaign_key: Seq<u8>,
    nonce: u8,
) -> Option<Seq<u8>>;

/// Relies on `Pubkey::create_program_address`: a deterministic seeded hash
/// over `(campaign_key, [nonce])`, domain-separated by `program_id`; it
/// returns a 32-byte address and fails exactly when the hash falls on the
/// ed25519 curve, i.e. inside the normal key space.
#[verifier::external_body]
pub(crate) fn create_authority(program_id: &Vec<u8>, campaign_key: &Vec<u8>, nonce: u8) -> (r: Option<
    Vec<u8>,
>)
    requires
        program_id@.len() == 32,
        campaign_key@.len() == 32,
    ensures
        match r {
            Some(k) => spec_derived_authority(program_id@, campaign_key@, nonce) == Some(k@)
                && k@.len() == 32,
            None => spec_derived_authority(program_id@, campaign_key@, nonce) is None,
        },
{
    let mut pid = [0u8; 32];
    pid.copy_from_slice(program_id);
    let mut cam = [0u8; 32];
    cam.copy_from_slice(campaign_key);
    match Pubkey::create_program_address(&[&cam, &[nonce]], &Pubkey::new_from_array(pid)) {
        Ok(a) => Some(a.to_bytes().to_vec()),
        Err(_) => None,
    }
}

} // verus!
