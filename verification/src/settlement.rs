use vstd::prelude::*;
use vstd::bytes::*;

use solana_program::account_info::AccountInfo;
use solana_program::instruction::AccountMeta;
use solana_program::instruction::Instruction;
use solana_program::program::invoke_signed;
use solana_program::program_pack::Pack;
use solana_program::pubkey::Pubkey;

verus! {

/// Byte encoding of the settlement engine's transfer request: its transfer
/// tag, then the amount in little-endian order.
pub open spec fn spec_transfer_data(amount: u64) -> Seq<u8> {
    seq![3u8] + spec_u64_to_le_bytes(amount)
}

/// A 4-byte option tag of the settlement engine's account format at offset
/// `at`: a leading 0 or 1 followed by three zero bytes.
pub open spec fn spec_option_tag_wf(d: Seq<u8>, at: int) -> bool {
    &&& (d[at] == 0u8 || d[at] == 1u8)
    &&& d[at + 1] == 0u8
    &&& d[at + 2] == 0u8
    &&& d[at + 3] == 0u8
}

/// A buffer whose 165-byte prefix parses as a settlement-engine token
/// account: the three option tags and the state byte must be valid.
pub open spec fn spec_token_account_wf(d: Seq<u8>) -> bool {
    &&& d.len() >= 165
    &&& spec_option_tag_wf(d, 72)
    &&& (d[108] == 0u8 || d[108] == 1u8 || d[108] == 2u8)
    &&& spec_option_tag_wf(d, 109)
    &&& spec_option_tag_wf(d, 129)
}

/// The recorded owner of a settlement-engine token account.
pub open spec fn spec_token_account_owner(d: Seq<u8>) -> Seq<u8> {
    d.subrange(32, 64)
}

/// Relies on `spl_token::state::Account::unpack_from_slice` (the settlement
/// engine's own account format): it reads the 165-byte prefix, succeeds
/// exactly when the option tags and the state byte are valid, and the owner
/// field is bytes 32..64.
#[verifier::external_body]
pub(crate) fn unpack_token_owner(data: &Vec<u8>) -> (r: Option<Vec<u8>>)
    requires
        data@.len() >= 165,
    ensures
        match r {
            Some(k) => spec_token_account_wf(data@) && k@ == spec_token_account_owner(data@)
                && k@.len() == 32,
            None => !spec_token_account_wf(data@),
        },
{
    match spl_token::state::Account::unpack_from_slice(data) {
        Ok(a) => Some(a.owner.to_bytes().to_vec()),
        Err(_) => None,
    }
}

/// Relies on `spl_token::instruction::TokenInstruction::pack`: the transfer
/// variant packs as tag byte 3 followed by the amount as 8 little-endian
/// bytes.
#[verifier::external_body]
pub(crate) fn pack_transfer(amount: u64) -> (r: Vec<u8>)
    ensures
        r@ == spec_transfer_data(amount),
{
    spl_token::instruction::TokenInstruction::Transfer { amount }.pack()
}

/// The exact request bytes this module hands the settlement engine for a
/// transfer of `amount`.
pub fn transfer_request_data(amount: u64) -> (r: Vec<u8>)
    ensures
        r@ == spec_transfer_data(amount),
{
    pack_transfer(amount)
}

/// Declares `solana_program::account_info::AccountInfo`, the host runtime's
/// handle to one ledger account. Values of it are opaque here: the pipeline
/// carries them through untouched so the runtime can access the accounts
/// while it executes the delegated transfer.
#[verifier::external_type_specification]
#[verifier::external_body]
pub struct ExAccountInfo<'a>(AccountInfo<'a>);

/// The four account handles the host runtime needs in order to carry out the
/// delegated transfer. The verified pipeline never reads them: the transfer
/// instruction itself is addressed with the validated addresses, and a
/// handle that does not belong to them only makes the runtime reject the
/// call.
pub struct TransferAccounts<'a> {
    /// Handle to the creator's fee-source token account.
    pub source: AccountInfo<'a>,
    /// Handle to the fee-destination account.
    pub destination: AccountInfo<'a>,
    /// Handle to the derived-authority account.
    pub authority: AccountInfo<'a>,
    /// Handle to the settlement-engine program account.
    pub token_program: AccountInfo<'a>,
}

/// Relies on `solana_program::program::invoke_signed`: hands the transfer
/// instruction — addressed to `token_program` with the given metas and
/// request bytes — to the host runtime, together with the four account
/// handles the runtime accesses while executing it and the seed material
/// proving control of the derived authority, as an atomic all-or-nothing
/// call. The runtime and the addressed engine decide the outcome, so
/// nothing is assumed of the returned flag.
#[verifier::external_body]
pub(crate) fn submit_transfer(
    handles: &TransferAccounts,
    token_program: [u8; 32],
    source: [u8; 32],
    destination: [u8; 32],
    authority: [u8; 32],
    campaign_key: [u8; 32],
    nonce: u8,
    data: Vec<u8>,
) -> bool {
    let accounts = vec![
        AccountMeta::new(Pubkey::new_from_array(source), false),
        AccountMeta::new(Pubkey::new_from_array(destination), false),
        AccountMeta::new_readonly(Pubkey::new_from_array(authority), true),
    ];
    let ix = Instruction { program_id: Pubkey::new_from_array(token_program), accounts, data };
    let infos = [
        handles.source.clone(),
        handles.destination.clone(),
        handles.authority.clone(),
        handles.token_program.clone(),
    ];
    let seeds: [&[u8]; 2] = [&campaign_key, &[nonce]];
    invoke_signed(&ix, &infos, &[&seeds]).is_ok()
}

} // verus!
