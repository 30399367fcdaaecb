use vstd::prelude::*;

use crate::authority::{create_authority, spec_derived_authority};
use crate::error::CrowdError;
use crate::instruction::{spec_request_dec, CrowdFundingInstruction};
use crate::keys::{key_bytes, key_eq};
use crate::settlement::{
    spec_token_account_owner, spec_token_account_wf, submit_transfer, transfer_request_data,
    unpack_token_owner, TransferAccounts,
};
use crate::state::{
    spec_enabled_record, spec_record_dec, spec_record_enc, CampaignAccount, CampaignImage, FEE,
};

verus! {

/// The accounts handed to one activation call, in the positional order the
/// entry point expects, reduced to the fields this module reads: addresses,
/// the signer flag, and the two data buffers.
pub struct ActivationAccounts {
    /// Address of the campaign record account (writable).
    pub campaign_key: Vec<u8>,
    /// Stored bytes of the campaign record account.
    pub campaign_data: Vec<u8>,
    /// Address supplied as the derived authority.
    pub authority_key: Vec<u8>,
    /// Address claiming to be the campaign creator.
    pub creator_key: Vec<u8>,
    /// Whether the creator account signed the call.
    pub creator_is_signer: bool,
    /// Address of the creator's fee-source token account.
    pub creator_token_key: Vec<u8>,
    /// Address of the fee-destination account.
    pub fee_vault_key: Vec<u8>,
    /// Stored bytes of the fee-destination account, in the settlement
    /// engine's account format.
    pub fee_vault_data: Vec<u8>,
    /// Address of the account supplied as the settlement engine.
    pub token_program_key: Vec<u8>,
}

/// Mathematical image of the accounts of one activation call.
#[verifier::ext_equal]
pub ghost struct ActivationImage {
    pub campaign_key: Seq<u8>,
    pub campaign_data: Seq<u8>,
    pub authority_key: Seq<u8>,
    pub creator_key: Seq<u8>,
    pub creator_is_signer: bool,
    pub creator_token_key: Seq<u8>,
    pub fee_vault_key: Seq<u8>,
    pub fee_vault_data: Seq<u8>,
    pub token_program_key: Seq<u8>,
}

impl View for ActivationAccounts {
    type V = ActivationImage;

    open spec fn view(&self) -> ActivationImage {
        ActivationImage {
            campaign_key: self.campaign_key@,
            campaign_data: self.campaign_data@,
            authority_key: self.authority_key@,
            creator_key: self.creator_key@,
            creator_is_signer: self.creator_is_signer,
            creator_token_key: self.creator_token_key@,
            fee_vault_key: self.fee_vault_key@,
            fee_vault_data: self.fee_vault_data@,
            token_program_key: self.token_program_key@,
        }
    }
}

impl ActivationImage {
    /// Every address has the ledger's address length.
    pub open spec fn wf(self) -> bool {
        &&& self.campaign_key.len() == 32
        &&& self.authority_key.len() == 32
        &&& self.creator_key.len() == 32
        &&& self.creator_token_key.len() == 32
        &&& self.fee_vault_key.len() == 32
        &&& self.token_program_key.len() == 32
    }
}

/// The validation chain, run in its fixed order: the first failing check
/// names the error of the whole call, and `None` means every check passed.
pub open spec fn spec_first_error(
    a: ActivationImage,
    rec: CampaignImage,
    amount: u64,
    program_id: Seq<u8>,
    engine_id: Seq<u8>,
) -> Option<CrowdError> {
    if rec.enabled == 1u8 {
        Some(CrowdError::AlreadyEnabled)
    } else if !a.creator_is_signer {
        Some(CrowdError::InvalidSignature)
    } else if a.creator_key != rec.creator {
        Some(CrowdError::CreatorMismatch)
    } else if spec_derived_authority(program_id, a.campaign_key, rec.nonce) != Some(
        a.authority_key,
    ) {
        Some(CrowdError::InvalidAuthority)
    } else if amount != FEE {
        Some(CrowdError::InvalidAmount)
    } else if !spec_token_account_wf(a.fee_vault_data) {
        Some(CrowdError::InvalidFeeAccount)
    } else if spec_token_account_owner(a.fee_vault_data) != a.authority_key {
        Some(CrowdError::InvalidFeeAccount)
    } else if a.token_program_key != engine_id {
        Some(CrowdError::InvalidSettlementEngine)
    } else {
        None
    }
}

/// The accounts after a successful activation: the campaign record is
/// re-serialized with its enabled flag set, and nothing else changes.
pub open spec fn spec_after_success(a: ActivationImage, rec: CampaignImage) -> ActivationImage {
    ActivationImage { campaign_data: spec_record_enc(spec_enabled_record(rec)), ..a }
}

/// Everything one activation call promises: the stored record decodes or the
/// call rejects; the first failing check names the error; failures change
/// nothing; and only a successful call, with every check passed and the
/// delegated transfer accepted, persists the enabled record.
pub open spec fn spec_activation_post(
    pre: ActivationImage,
    post: ActivationImage,
    amount: u64,
    program_id: Seq<u8>,
    engine_id: Seq<u8>,
    r: Result<(), CrowdError>,
) -> bool {
    match spec_record_dec(pre.campaign_data) {
        None => post == pre && (r matches Err(e) && e == CrowdError::DecodeError),
        Some(rec) => match spec_first_error(pre, rec, amount, program_id, engine_id) {
            Some(e0) => post == pre && (r matches Err(e) && e == e0),
            None => match r {
                Ok(_) => post == spec_after_success(pre, rec),
                Err(e) => post == pre && e == CrowdError::DelegatedTransferFailed,
            },
        },
    }
}

/// The activation processor: decode, validate, delegate the fee transfer,
/// persist.
pub struct Processor {}

impl Processor {
    /// Entry point: decodes the request envelope and dispatches it.
    ///
    /// `engine_id` is the configuration-pinned identity of the genuine
    /// settlement engine.
    pub fn process(
        program_id: &Vec<u8>,
        accounts: &mut ActivationAccounts,
        instruction_data: &[u8],
        engine_id: &Vec<u8>,
        handles: &TransferAccounts,
    ) -> (r: Result<(), CrowdError>)
        requires
            old(accounts)@.wf(),
            program_id@.len() == 32,
            engine_id@.len() == 32,
        ensures
            match spec_request_dec(instruction_data@) {
                None => final(accounts)@ == old(accounts)@ && (r matches Err(e) && e
                    == CrowdError::DecodeError),
                Some(ix) => match ix {
                    CrowdFundingInstruction::EnableCampaign { amount } => spec_activation_post(
                        old(accounts)@,
                        final(accounts)@,
                        amount,
                        program_id@,
                        engine_id@,
                        r,
                    ),
                },
            },
    {
        let ix = match CrowdFundingInstruction::decode(instruction_data) {
            Ok(i) => i,
            Err(e) => {
                return Err(e);
            },
        };
        match ix {
            CrowdFundingInstruction::EnableCampaign { amount } => {
                Self::process_enable_fund(accounts, amount, program_id, engine_id, handles)
            },
        }
    }

    /// Runs the validation chain in order, short-circuiting on the first
    /// failure, then delegates the fee transfer and, only if the engine
    /// accepted it, persists the record with its enabled flag set.
    pub fn process_enable_fund(
        accounts: &mut ActivationAccounts,
        amount: u64,
        program_id: &Vec<u8>,
        engine_id: &Vec<u8>,
        handles: &TransferAccounts,
    ) -> (r: Result<(), CrowdError>)
        requires
            old(accounts)@.wf(),
            program_id@.len() == 32,
            engine_id@.len() == 32,
        ensures
            spec_activation_post(
                old(accounts)@,
                final(accounts)@,
                amount,
                program_id@,
                engine_id@,
                r,
            ),
    {
        let rec = match CampaignAccount::deserialize(accounts.campaign_data.as_slice()) {
            Ok(c) => c,
            Err(e) => {
                return Err(e);
            },
        };
        let ghost rec0 = rec@;
        if rec.enabled == 1 {
            return Err(CrowdError::AlreadyEnabled);
        }
        if !accounts.creator_is_signer {
            return Err(CrowdError::InvalidSignature);
        }
        if !key_eq(&accounts.creator_key, &rec.creator) {
            return Err(CrowdError::CreatorMismatch);
        }
        let derived = match Self::authority_id(program_id, &accounts.campaign_key, rec.nonce) {
            Ok(k) => k,
            Err(e) => {
                return Err(e);
            },
        };
        if !key_eq(&accounts.authority_key, &derived) {
            return Err(CrowdError::InvalidAuthority);
        }
        if amount != FEE {
            return Err(CrowdError::InvalidAmount);
        }
        if accounts.fee_vault_data.len() < 165 {
            return Err(CrowdError::InvalidFeeAccount);
        }
        let vault_owner = match unpack_token_owner(&accounts.fee_vault_data) {
            Some(o) => o,
            None => {
                return Err(CrowdError::InvalidFeeAccount);
            },
        };
        if !key_eq(&vault_owner, &accounts.authority_key) {
            return Err(CrowdError::InvalidFeeAccount);
        }
        if !key_eq(&accounts.token_program_key, engine_id) {
            return Err(CrowdError::InvalidSettlementEngine);
        }
        match Self::token_transfer(
            handles,
            &accounts.campaign_key,
            &accounts.token_program_key,
            &accounts.creator_token_key,
            &accounts.fee_vault_key,
            &accounts.authority_key,
            rec.nonce,
            amount,
        ) {
            Ok(_) => {},
            Err(e) => {
                return Err(e);
            },
        }
        let enabled_rec = CampaignAccount {
            enabled: 1,
            nonce: rec.nonce,
            goal_amount: rec.goal_amount,
            creator: rec.creator,
            fee_vault: rec.fee_vault,
        };
        accounts.campaign_data = enabled_rec.serialize();
        proof {
            assert(enabled_rec@ =~= spec_enabled_record(rec0));
            assert(accounts@ =~= spec_after_success(old(accounts)@, rec0));
        }
        Ok(())
    }

    /// Recomputes the program's signing authority for a campaign record,
    /// failing with `InvalidAuthority` when the derivation degenerates.
    pub fn authority_id(program_id: &Vec<u8>, seed_key: &Vec<u8>, nonce: u8) -> (r: Result<
        Vec<u8>,
        CrowdError,
    >)
        requires
            program_id@.len() == 32,
            seed_key@.len() == 32,
        ensures
            match r {
                Ok(k) => spec_derived_authority(program_id@, seed_key@, nonce) == Some(k@)
                    && k@.len() == 32,
                Err(e) => spec_derived_authority(program_id@, seed_key@, nonce) is None && e
                    == CrowdError::InvalidAuthority,
            },
    {
        match create_authority(program_id, seed_key, nonce) {
            Some(k) => Ok(k),
            None => Err(CrowdError::InvalidAuthority),
        }
    }

    /// Builds the settlement engine's transfer request over the creator's
    /// fee-source account, the fee vault and the derived authority, and
    /// submits it under the program's seed signature. Fails with
    /// `DelegatedTransferFailed` when the engine rejects it.
    pub fn token_transfer(
        handles: &TransferAccounts,
        campaign_key: &Vec<u8>,
        token_program: &Vec<u8>,
        source: &Vec<u8>,
        destination: &Vec<u8>,
        authority: &Vec<u8>,
        nonce: u8,
        amount: u64,
    ) -> (r: Result<(), CrowdError>)
        requires
            campaign_key@.len() == 32,
            token_program@.len() == 32,
            source@.len() == 32,
            destination@.len() == 32,
            authority@.len() == 32,
        ensures
            r matches Err(e) ==> e == CrowdError::DelegatedTransferFailed,
    {
        let data = transfer_request_data(amount);
        let accepted = submit_transfer(
            handles,
            key_bytes(token_program),
            key_bytes(source),
            key_bytes(destination),
            key_bytes(authority),
            key_bytes(campaign_key),
            nonce,
            data,
        );
        if accepted {
            Ok(())
        } else {
            Err(CrowdError::DelegatedTransferFailed)
        }
    }
}

} // verus!
