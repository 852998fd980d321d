//! The linker: a candidate stands above its anchor, on the same chain, and
//! its header declares the validator sets that came with it.

use crate::block::{LightBlock, LightBlockView, TrustedState, TrustedStateView};
use crate::primitives::Digest;
use crate::verdict::Linkage;
use vstd::prelude::*;

verus! {

/// The first broken link between `candidate` and `trusted`, if any. The
/// height is looked at first, then the validator set, then the next validator
/// set, then the chain identifier.
pub open spec fn linkage_fault(trusted: TrustedStateView, candidate: LightBlockView) -> Option<
    Linkage,
> {
    let header = candidate.signed_header.header;
    if candidate.height() <= trusted.height() {
        Some(Linkage::Height { trusted: trusted.height(), candidate: candidate.height() })
    } else if header.validators_hash != candidate.validator_set.hash {
        Some(
            Linkage::ValidatorsHash {
                declared: header.validators_hash,
                supplied: candidate.validator_set.hash,
            },
        )
    } else if header.next_validators_hash != candidate.next_validator_set.hash {
        Some(
            Linkage::NextValidatorsHash {
                declared: header.next_validators_hash,
                supplied: candidate.next_validator_set.hash,
            },
        )
    } else if header.chain_id != trusted.signed_header.header.chain_id {
        Some(Linkage::ChainId)
    } else {
        None
    }
}

/// Checks the links between `candidate` and `trusted`. No signature is looked
/// at here.
pub fn check_linkage(trusted: &TrustedState, candidate: &LightBlock) -> (r: Result<(), Linkage>)
    ensures
        r == match linkage_fault(trusted@, candidate@) {
            Some(fault) => Err::<(), Linkage>(fault),
            None => Ok(()),
        },
{
    let header = &candidate.signed_header.header;
    let trusted_height: u64 = trusted.signed_header.header.height;
    let supplied: Digest = candidate.validator_set.hash();
    let supplied_next: Digest = candidate.next_validator_set.hash();
    if header.height <= trusted_height {
        Err(Linkage::Height { trusted: trusted_height, candidate: header.height })
    } else if header.validators_hash != supplied {
        Err(Linkage::ValidatorsHash { declared: header.validators_hash, supplied })
    } else if header.next_validators_hash != supplied_next {
        Err(
            Linkage::NextValidatorsHash {
                declared: header.next_validators_hash,
                supplied: supplied_next,
            },
        )
    } else if header.chain_id != trusted.signed_header.header.chain_id {
        Err(Linkage::ChainId)
    } else {
        Ok(())
    }
}

} // verus!
