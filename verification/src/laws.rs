use vstd::prelude::*;

use crate::authority::spec_derived_authority;
use crate::error::CrowdError;
use crate::processor::{spec_after_success, spec_first_error, ActivationImage};
use crate::settlement::{spec_token_account_owner, spec_token_account_wf};
use crate::state::{
    lemma_record_round_trip, spec_enabled_record, spec_record_dec, CampaignImage, FEE,
};

verus! {

/// Activation happens at most once: on accounts whose stored record decodes
/// and passes the whole validation chain, a successful call persists the
/// record with its enabled flag set, and the chain run again on the persisted
/// state fails with `AlreadyEnabled` — so, by the processor's contract, a
/// second call rejects and leaves the state unchanged.
pub proof fn lemma_activate_only_once(
    a: ActivationImage,
    rec: CampaignImage,
    amount: u64,
    program_id: Seq<u8>,
    engine_id: Seq<u8>,
)
    requires
        spec_record_dec(a.campaign_data) == Some(rec),
        spec_first_error(a, rec, amount, program_id, engine_id) is None,
    ensures
        spec_record_dec(spec_after_success(a, rec).campaign_data) == Some(
            spec_enabled_record(rec),
        ),
        spec_first_error(
            spec_after_success(a, rec),
            spec_enabled_record(rec),
            amount,
            program_id,
            engine_id,
        ) == Some(CrowdError::AlreadyEnabled),
{
    assert(rec.creator =~= a.campaign_data.subrange(10, 42));
    assert(rec.fee_vault =~= a.campaign_data.subrange(42, 74));
    lemma_record_round_trip(spec_enabled_record(rec));
}

/// Whoever signs in place of the stored creator is rejected with
/// `CreatorMismatch`, whatever the remaining accounts hold.
pub proof fn lemma_creator_mismatch(
    a: ActivationImage,
    rec: CampaignImage,
    amount: u64,
    program_id: Seq<u8>,
    engine_id: Seq<u8>,
)
    requires
        rec.enabled != 1u8,
        a.creator_is_signer,
        a.creator_key != rec.creator,
    ensures
        spec_first_error(a, rec, amount, program_id, engine_id) == Some(
            CrowdError::CreatorMismatch,
        ),
{
}

/// A supplied authority that is not the exact derivation for the record's
/// nonce — including the case in which the derivation degenerates — is
/// rejected with `InvalidAuthority`.
pub proof fn lemma_authority_mismatch(
    a: ActivationImage,
    rec: CampaignImage,
    amount: u64,
    program_id: Seq<u8>,
    engine_id: Seq<u8>,
)
    requires
        rec.enabled != 1u8,
        a.creator_is_signer,
        a.creator_key == rec.creator,
        spec_derived_authority(program_id, a.campaign_key, rec.nonce) != Some(a.authority_key),
    ensures
        spec_first_error(a, rec, amount, program_id, engine_id) == Some(
            CrowdError::InvalidAuthority,
        ),
{
}

/// Any amount other than the fixed fee is rejected with `InvalidAmount`,
/// even when every account is valid.
pub proof fn lemma_wrong_amount(
    a: ActivationImage,
    rec: CampaignImage,
    amount: u64,
    program_id: Seq<u8>,
    engine_id: Seq<u8>,
)
    requires
        rec.enabled != 1u8,
        a.creator_is_signer,
        a.creator_key == rec.creator,
        spec_derived_authority(program_id, a.campaign_key, rec.nonce) == Some(a.authority_key),
        amount != FEE,
    ensures
        spec_first_error(a, rec, amount, program_id, engine_id) == Some(CrowdError::InvalidAmount),
{
}

/// A fee destination whose recorded owner is not the derived authority is
/// rejected with `InvalidFeeAccount`.
pub proof fn lemma_foreign_fee_vault(
    a: ActivationImage,
    rec: CampaignImage,
    amount: u64,
    program_id: Seq<u8>,
    engine_id: Seq<u8>,
)
    requires
        rec.enabled != 1u8,
        a.creator_is_signer,
        a.creator_key == rec.creator,
        spec_derived_authority(program_id, a.campaign_key, rec.nonce) == Some(a.authority_key),
        amount == FEE,
        spec_token_account_wf(a.fee_vault_data),
        spec_token_account_owner(a.fee_vault_data) != a.authority_key,
    ensures
        spec_first_error(a, rec, amount, program_id, engine_id) == Some(
            CrowdError::InvalidFeeAccount,
        ),
{
}

/// A settlement engine other than the pinned genuine one is rejected with
/// `InvalidSettlementEngine`, even when every other check passes.
pub proof fn lemma_counterfeit_engine(
    a: ActivationImage,
    rec: CampaignImage,
    amount: u64,
    program_id: Seq<u8>,
    engine_id: Seq<u8>,
)
    requires
        rec.enabled != 1u8,
        a.creator_is_signer,
        a.creator_key == rec.creator,
        spec_derived_authority(program_id, a.campaign_key, rec.nonce) == Some(a.authority_key),
        amount == FEE,
        spec_token_account_wf(a.fee_vault_data),
        spec_token_account_owner(a.fee_vault_data) == a.authority_key,
        a.token_program_key != engine_id,
    ensures
        spec_first_error(a, rec, amount, program_id, engine_id) == Some(
            CrowdError::InvalidSettlementEngine,
        ),
{
}

} // verus!
