//! Rate limits of the two outgoing lanes.
//!
//! A lane hands out a submission only after its token bucket has granted a
//! permit. The bucket itself runs on the caller's clock; the library fixes
//! its parameters.

use crate::types::Lane;
use vstd::prelude::*;

verus! {

#[verifier::external_type_specification]
#[verifier::external_body]
pub struct ExQuota(governor::Quota);

/// The limiter's quota of `per_second` permits in a second, of which as
/// many may pass at once. Defined by `governor::Quota::per_second`.
pub uninterp spec fn governor_quota(per_second: u32) -> governor::Quota;

/// Builds the limiter's quota.
///
/// Trusted: calls `governor::Quota::per_second`, which takes a number
/// other than zero as rate and as burst size. The contract names the
/// result.
#[verifier::external_body]
fn quota_per_second(per_second: u32) -> (q: governor::Quota)
    requires
        per_second >= 1,
    ensures
        q == governor_quota(per_second),
{
    governor::Quota::per_second(std::num::NonZeroU32::new(per_second).unwrap())
}

/// Parameters of a token bucket: permits per second and burst capacity,
/// both at least one.
#[derive(Debug, Clone, Copy, PartialEq, Eq, Structural)]
pub struct LaneQuota {
    pub per_second: u32,
    pub burst: u32,
}

/// Permits per second on the general lane.
pub const GENERAL_RATE: u32 = 50;

/// Permits per second on the historical lane.
pub const HISTORICAL_RATE: u32 = 5;

impl LaneQuota {
    /// A quota can be served: rate and burst are positive.
    pub open spec fn valid(&self) -> bool {
        self.per_second >= 1 && self.burst >= 1
    }

    /// The quota of a lane: 50 per second with a burst of 50 on the general
    /// lane, 5 per second with a burst of 5 on the historical lane.
    pub open spec fn of(lane: Lane) -> LaneQuota {
        match lane {
            Lane::General => LaneQuota { per_second: GENERAL_RATE, burst: GENERAL_RATE },
            Lane::Historical => LaneQuota { per_second: HISTORICAL_RATE, burst: HISTORICAL_RATE },
        }
    }

    /// The quota of `lane`.
    pub fn for_lane(lane: Lane) -> (q: LaneQuota)
        ensures
            q == LaneQuota::of(lane),
            q.valid(),
    {
        match lane {
            Lane::General => LaneQuota { per_second: GENERAL_RATE, burst: GENERAL_RATE },
            Lane::Historical => LaneQuota { per_second: HISTORICAL_RATE, burst: HISTORICAL_RATE },
        }
    }

    /// The quota for the limiter of `lane`: the rate of the lane, which is
    /// its burst as well.
    pub fn quota_for_lane(lane: Lane) -> (q: governor::Quota)
        ensures
            q == governor_quota(LaneQuota::of(lane).per_second),
            LaneQuota::of(lane).burst == LaneQuota::of(lane).per_second,
    {
        let lane_quota = LaneQuota::for_lane(lane);
        quota_per_second(lane_quota.per_second)
    }
}

} // verus!
