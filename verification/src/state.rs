use vstd::prelude::*;
use crate::checked::Int;
use crate::error::CctprError;
use crate::utils::spec_int_to_u64;
use crate::utils::int_to_u64;

verus! {

/// Denominator of the relative fee adjustment: the adjustment's
/// `relative_percent_bps` is expressed in basis points, so `10_000`
/// means "100 percent of the base fee".
pub const BASIS_POINTS: u64 = 10_000;

/// Number of per-corridor fee adjustment slots held by a [`ChainConfig`].
pub const FEE_ADJUSTMENT_COUNT: usize = 4;

/// Global configuration of the relay: role identities, the trusted
/// off-chain quoter address, and the seed bump of the rent custodian.
#[derive(Clone, Copy, Debug, PartialEq, Eq)]
pub struct Config {
    pub owner: [u8; 32],
    pub pending_owner: [u8; 32],
    pub fee_adjuster: [u8; 32],
    pub fee_recipient: [u8; 32],
    /// Low 20 bytes of the keccak-256 hash of the trusted off-chain
    /// quoter's public key, as in common ECDSA-chain convention.
    pub offchain_quoter: [u8; 20],
    pub rent_bump: u8,
}

/// Which fee adjustment slot a computation reads: one per transfer
/// corridor, plus one for the gas drop-off.
#[derive(Clone, Copy, Debug, PartialEq, Eq, Structural)]
pub enum FeeAdjustmentType {
    V1,
    V2Direct,
    AvaxHop,
    GasDropoff,
}

impl FeeAdjustmentType {
    /// Slot of this adjustment type in a [`ChainConfig`]'s table.
    pub open spec fn spec_index(self) -> int {
        match self {
            FeeAdjustmentType::V1 => 0,
            FeeAdjustmentType::V2Direct => 1,
            FeeAdjustmentType::AvaxHop => 2,
            FeeAdjustmentType::GasDropoff => 3,
        }
    }

    pub fn index(self) -> (i: usize)
        ensures
            i == self.spec_index(),
    {
        match self {
            FeeAdjustmentType::V1 => 0,
            FeeAdjustmentType::V2Direct => 1,
            FeeAdjustmentType::AvaxHop => 2,
            FeeAdjustmentType::GasDropoff => 3,
        }
    }
}

/// Markup/markdown rule applied to a base fee: a relative weight in basis
/// points followed by a signed absolute addend in USD micro-units.
#[derive(Clone, Copy, Debug, PartialEq, Eq, Structural)]
pub struct FeeAdjustment {
    pub absolute_usd: i32,
    pub relative_percent_bps: u32,
}

impl FeeAdjustment {
    /// The adjusted fee:
    /// `floor_at_zero(base * relative_percent_bps / 10_000 (+ absolute if
    /// non-negative, else saturating-subtract its magnitude))`.
    /// The relative step can overflow, which surfaces as
    /// `Err(CctprError::Overflow)`; the result is never negative.
    pub open spec fn spec_apply(self, micro_usd: u64) -> Result<u64, CctprError> {
        let with_relative = Int::Val(micro_usd)
            .spec_mul(self.relative_percent_bps as u64)
            .spec_div(BASIS_POINTS);
        if self.absolute_usd >= 0 {
            spec_int_to_u64(with_relative.spec_add(self.absolute_usd as u64))
        } else {
            match spec_int_to_u64(with_relative) {
                Ok(v) => {
                    let magnitude = (-(self.absolute_usd as int)) as u64;
                    if v > magnitude {
                        Ok((v - magnitude) as u64)
                    } else {
                        Ok(0u64)
                    }
                },
                Err(e) => Err(e),
            }
        }
    }

    pub fn apply(&self, micro_usd: u64) -> (r: Result<u64, CctprError>)
        ensures
            r == self.spec_apply(micro_usd),
    {
        let with_relative = Int::Val(micro_usd)
            .mul(self.relative_percent_bps as u64)
            .div(BASIS_POINTS);
        if self.absolute_usd >= 0 {
            int_to_u64(with_relative.add(self.absolute_usd as u64))
        } else {
            match int_to_u64(with_relative) {
                Ok(v) => {
                    let magnitude = (-(self.absolute_usd as i64)) as u64;
                    if v > magnitude {
                        Ok(v - magnitude)
                    } else {
                        Ok(0u64)
                    }
                },
                Err(e) => Err(e),
            }
        }
    }
}

/// For a fixed absolute addend and base fee, the adjusted fee is
/// monotonically non-decreasing in the relative weight: a larger
/// `relative_percent_bps` can only fail earlier (by overflow), never
/// produce a smaller fee.  The result, when there is one, is a `u64` and
/// therefore never negative.
pub proof fn lemma_apply_monotonic_in_relative_bps(
    lo: FeeAdjustment,
    hi: FeeAdjustment,
    micro_usd: u64,
)
    requires
        lo.absolute_usd == hi.absolute_usd,
        lo.relative_percent_bps <= hi.relative_percent_bps,
    ensures
        hi.spec_apply(micro_usd) is Ok ==> lo.spec_apply(micro_usd) is Ok,
        (lo.spec_apply(micro_usd) is Ok && hi.spec_apply(micro_usd) is Ok)
            ==> lo.spec_apply(micro_usd)->Ok_0 <= hi.spec_apply(micro_usd)->Ok_0,
        lo.spec_apply(micro_usd) is Ok ==> lo.spec_apply(micro_usd)->Ok_0 >= 0,
{
    let m = micro_usd as int;
    let b_lo = lo.relative_percent_bps as int;
    let b_hi = hi.relative_percent_bps as int;
    assert(m * b_lo <= m * b_hi) by (nonlinear_arith)
        requires
            0 <= m,
            0 <= b_lo <= b_hi,
    ;
    assert(m * b_lo / (BASIS_POINTS as int) <= m * b_hi / (BASIS_POINTS as int)) by {
        vstd::arithmetic::div_mod::lemma_div_is_ordered(
            m * b_lo,
            m * b_hi,
            BASIS_POINTS as int,
        );
    }
}

/// Per-destination-chain configuration: the protocol-level destination
/// domain, the chain identifier, and the four fee adjustment slots.
#[derive(Clone, Copy, Debug, PartialEq, Eq)]
pub struct ChainConfig {
    pub domain_id: u8,
    pub chain_id: u16,
    pub fee_adjustments: [FeeAdjustment; 4],
}

impl ChainConfig {
    /// A freshly registered chain: all four adjustment slots start zeroed
    /// (no relative weight, no absolute addend).
    pub fn new(domain_id: u8, chain_id: u16) -> (r: ChainConfig)
        ensures
            r.domain_id == domain_id,
            r.chain_id == chain_id,
            forall|t: FeeAdjustmentType| #[trigger] r.spec_get_fee_adjustment(t)
                == (FeeAdjustment { absolute_usd: 0, relative_percent_bps: 0 }),
    {
        let zero = FeeAdjustment { absolute_usd: 0, relative_percent_bps: 0 };
        let r = ChainConfig { domain_id, chain_id, fee_adjustments: [zero, zero, zero, zero] };
        proof {
            assert forall|t: FeeAdjustmentType| #[trigger] r.spec_get_fee_adjustment(t)
                == (FeeAdjustment { absolute_usd: 0, relative_percent_bps: 0 }) by {
                assert(0 <= t.spec_index() < 4);
            }
        }
        r
    }

    pub open spec fn spec_get_fee_adjustment(self, adjustment_type: FeeAdjustmentType) -> FeeAdjustment {
        self.fee_adjustments[adjustment_type.spec_index()]
    }

    pub fn get_fee_adjustment(&self, adjustment_type: FeeAdjustmentType) -> (r: &FeeAdjustment)
        ensures
            *r == self.spec_get_fee_adjustment(adjustment_type),
    {
        &self.fee_adjustments[adjustment_type.index()]
    }

    pub fn set_fee_adjustment(
        &mut self,
        adjustment_type: FeeAdjustmentType,
        adjustment: FeeAdjustment,
    )
        ensures
            final(self).domain_id == old(self).domain_id,
            final(self).chain_id == old(self).chain_id,
            forall|t: FeeAdjustmentType| #[trigger] final(self).spec_get_fee_adjustment(t)
                == if t == adjustment_type {
                    adjustment
                } else {
                    old(self).spec_get_fee_adjustment(t)
                },
    {
        let prev = self.fee_adjustments;
        self.fee_adjustments = match adjustment_type {
            FeeAdjustmentType::V1 => [adjustment, prev[1], prev[2], prev[3]],
            FeeAdjustmentType::V2Direct => [prev[0], adjustment, prev[2], prev[3]],
            FeeAdjustmentType::AvaxHop => [prev[0], prev[1], adjustment, prev[3]],
            FeeAdjustmentType::GasDropoff => [prev[0], prev[1], prev[2], adjustment],
        };
        proof {
            assert forall|t: FeeAdjustmentType| #[trigger] self.spec_get_fee_adjustment(t)
                == if t == adjustment_type {
                    adjustment
                } else {
                    old(self).spec_get_fee_adjustment(t)
                } by {
                assert(0 <= t.spec_index() < 4);
            }
        }
    }
}

} // verus!
