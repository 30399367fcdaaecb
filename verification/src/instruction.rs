use vstd::prelude::*;
use vstd::bytes::*;

use crate::error::CrowdError;
use crate::keys::copy_range;

verus! {

/// Request envelope accepted by the processor: a tagged variant encoding with
/// a single variant at present.
///
/// Accounts expected alongside it, in order: campaign record (writable),
/// campaign authority, campaign creator (signer), the creator's fee-source
/// token account, the fee vault, and the settlement-engine (token program)
/// identity.
#[derive(Clone, Copy, Debug, PartialEq, Eq, Structural)]
pub enum CrowdFundingInstruction {
    /// Enable a crowdfunding campaign, paying `amount` as the activation fee.
    EnableCampaign { amount: u64 },
}

/// Encoding of a request: a one-byte variant tag, then the amount in
/// little-endian order.
pub open spec fn spec_request_enc(i: CrowdFundingInstruction) -> Seq<u8> {
    match i {
        CrowdFundingInstruction::EnableCampaign { amount } => seq![0u8] + spec_u64_to_le_bytes(
            amount,
        ),
    }
}

/// Strict decoding of a request: the tag must be known and the payload must
/// have exactly the variant's length.
pub open spec fn spec_request_dec(d: Seq<u8>) -> Option<CrowdFundingInstruction> {
    if d.len() == 9 && d[0] == 0u8 {
        Some(
            CrowdFundingInstruction::EnableCampaign {
                amount: spec_u64_from_le_bytes(d.subrange(1, 9)),
            },
        )
    } else {
        None
    }
}

impl CrowdFundingInstruction {
    /// Serializes the request envelope.
    pub fn encode(&self) -> (r: Vec<u8>)
        ensures
            r@ == spec_request_enc(*self),
    {
        match self {
            CrowdFundingInstruction::EnableCampaign { amount } => {
                let mut out: Vec<u8> = Vec::new();
                out.push(0u8);
                let le = u64_to_le_bytes(*amount);
                crate::keys::append_bytes(&mut out, &le);
                proof {
                    assert(out@ =~= spec_request_enc(*self));
                }
                out
            },
        }
    }

    /// Decodes a request envelope, rejecting unknown tags and payloads of the
    /// wrong length.
    pub fn decode(data: &[u8]) -> (r: Result<CrowdFundingInstruction, CrowdError>)
        ensures
            match r {
                Ok(i) => spec_request_dec(data@) == Some(i),
                Err(e) => spec_request_dec(data@) is None && e == CrowdError::DecodeError,
            },
    {
        if data.len() != 9 {
            return Err(CrowdError::DecodeError);
        }
        if data[0] != 0u8 {
            return Err(CrowdError::DecodeError);
        }
        let le = copy_range(data, 1, 9);
        let amount = u64_from_le_bytes(le.as_slice());
        Ok(CrowdFundingInstruction::EnableCampaign { amount })
    }
}

/// Round-trip law: decoding an encoded activation request gives the request
/// back.
pub proof fn lemma_request_round_trip(i: CrowdFundingInstruction)
    ensures
        spec_request_dec(spec_request_enc(i)) == Some(i),
{
    lemma_auto_spec_u64_to_from_le_bytes();
    let e = spec_request_enc(i);
    match i {
        CrowdFundingInstruction::EnableCampaign { amount } => {
            assert(e.subrange(1, 9) =~= spec_u64_to_le_bytes(amount));
        },
    }
}

} // verus!
