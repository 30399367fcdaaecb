use vstd::prelude::*;
use vstd::bytes::*;

use crate::error::CrowdError;
use crate::keys::{append_bytes, copy_range};

verus! {

/// Fee, in smallest units, required to enable a crowdfunding campaign.
pub const FEE: u64 = 50000000;

/// Byte length of a serialized campaign record: enabled flag, nonce,
/// goal amount (8 bytes little endian), creator address, fee-vault address.
pub const RECORD_LEN: usize = 74;

/// Persisted state of one crowdfunding campaign.
///
/// The record is created and funded by an external initializer; this module
/// only reads it and performs exactly one conditional write: flipping
/// `enabled` from 0 to 1 after a successful fee transfer.
#[derive(Debug)]
pub struct CampaignAccount {
    /// 1 once the campaign is active; the transition is never reversed here.
    pub enabled: u8,
    /// Seed component for deriving the program's signing authority; fixed at
    /// record creation.
    pub nonce: u8,
    /// Funding target; read-only to this module.
    pub goal_amount: u64,
    /// Address expected to sign the activation call.
    pub creator: Vec<u8>,
    /// Address of the account that must receive the activation fee.
    pub fee_vault: Vec<u8>,
}

/// Mathematical image of a campaign record.
#[verifier::ext_equal]
pub ghost struct CampaignImage {
    pub enabled: u8,
    pub nonce: u8,
    pub goal_amount: u64,
    pub creator: Seq<u8>,
    pub fee_vault: Seq<u8>,
}

impl View for CampaignAccount {
    type V = CampaignImage;

    open spec fn view(&self) -> CampaignImage {
        CampaignImage {
            enabled: self.enabled,
            nonce: self.nonce,
            goal_amount: self.goal_amount,
            creator: self.creator@,
            fee_vault: self.fee_vault@,
        }
    }
}

impl CampaignImage {
    /// Both stored addresses have the ledger's address length.
    pub open spec fn wf(self) -> bool {
        &&& self.creator.len() == 32
        &&& self.fee_vault.len() == 32
    }
}

/// The image of a record after a successful activation: the enabled flag is
/// set and every other field is kept.
pub open spec fn spec_enabled_record(c: CampaignImage) -> CampaignImage {
    CampaignImage { enabled: 1u8, ..c }
}

/// Fixed-layout encoding of a campaign record.
pub open spec fn spec_record_enc(c: CampaignImage) -> Seq<u8> {
    seq![c.enabled, c.nonce] + spec_u64_to_le_bytes(c.goal_amount) + c.creator + c.fee_vault
}

/// Decoding of a record buffer: the leading fields must all be present;
/// trailing bytes are tolerated for forward compatibility.
pub open spec fn spec_record_dec(d: Seq<u8>) -> Option<CampaignImage> {
    if d.len() >= 74 {
        Some(
            CampaignImage {
                enabled: d[0],
                nonce: d[1],
                goal_amount: spec_u64_from_le_bytes(d.subrange(2, 10)),
                creator: d.subrange(10, 42),
                fee_vault: d.subrange(42, 74),
            },
        )
    } else {
        None
    }
}

impl CampaignAccount {
    /// Well-formedness of the stored addresses.
    pub open spec fn wf(&self) -> bool {
        self@.wf()
    }

    /// Serializes the record in the fixed field order.
    pub fn serialize(&self) -> (r: Vec<u8>)
        requires
            self.wf(),
        ensures
            r@ == spec_record_enc(self@),
            r@.len() == 74,
    {
        let mut out: Vec<u8> = Vec::new();
        out.push(self.enabled);
        out.push(self.nonce);
        let goal = u64_to_le_bytes(self.goal_amount);
        append_bytes(&mut out, &goal);
        append_bytes(&mut out, &self.creator);
        append_bytes(&mut out, &self.fee_vault);
        proof {
            assert(out@ =~= spec_record_enc(self@));
        }
        out
    }

    /// Decodes a record buffer, failing when the required leading fields are
    /// truncated and ignoring any trailing bytes.
    pub fn deserialize(data: &[u8]) -> (r: Result<CampaignAccount, CrowdError>)
        ensures
            match r {
                Ok(c) => spec_record_dec(data@) == Some(c@) && c.wf(),
                Err(e) => spec_record_dec(data@) is None && e == CrowdError::DecodeError,
            },
    {
        if data.len() < RECORD_LEN {
            return Err(CrowdError::DecodeError);
        }
        let goal_bytes = copy_range(data, 2, 10);
        let rec = CampaignAccount {
            enabled: data[0],
            nonce: data[1],
            goal_amount: u64_from_le_bytes(goal_bytes.as_slice()),
            creator: copy_range(data, 10, 42),
            fee_vault: copy_range(data, 42, 74),
        };
        proof {
            assert(spec_record_dec(data@) == Some(rec@));
        }
        Ok(rec)
    }
}

/// Codec law: decoding an encoded record gives the record back.
pub proof fn lemma_record_round_trip(c: CampaignImage)
    requires
        c.wf(),
    ensures
        spec_record_dec(spec_record_enc(c)) == Some(c),
{
    lemma_auto_spec_u64_to_from_le_bytes();
    let e = spec_record_enc(c);
    assert(e.subrange(2, 10) =~= spec_u64_to_le_bytes(c.goal_amount));
    assert(e.subrange(10, 42) =~= c.creator);
    assert(e.subrange(42, 74) =~= c.fee_vault);
    assert(spec_record_dec(e) == Some(c));
}

} // verus!
