use crate::calendar::{month_start, next_month_boundary, reset_due, utc_now, UtcDateTime};
use vstd::prelude::*;

verus! {

/// Credits granted each month on the free plan.
pub const FREE_MONTHLY_CREDITS: i64 = 1000;

/// Credits granted each month on the developer plan.
pub const DEVELOPER_MONTHLY_CREDITS: i64 = 10000;

/// Balance that stands for "unlimited" on the enterprise plan.
pub const UNLIMITED_CREDITS: i64 = -1;

/// A pricing plan; it fixes the monthly credit allotment.
#[derive(Clone, Copy, Debug, PartialEq, Eq, Structural)]
pub enum PricingTier {
    Free,
    Developer,
    Enterprise,
}

/// What `str::to_lowercase` makes of a string.
pub uninterp spec fn lower_of(s: Seq<char>) -> Seq<char>;

/// Relies on `str::to_lowercase`: the result depends on the characters alone.
#[verifier::external_body]
fn lowercase(s: &str) -> (r: String)
    ensures
        r@ == lower_of(s@),
{
    s.to_lowercase()
}

/// The tier that a lower-case plan name stands for; unknown names mean the free plan.
pub open spec fn tier_named(name: Seq<char>) -> PricingTier {
    if name == "developer"@ {
        PricingTier::Developer
    } else if name == "enterprise"@ {
        PricingTier::Enterprise
    } else {
        PricingTier::Free
    }
}

impl PricingTier {
    pub open spec fn spec_monthly_credits(self) -> i64 {
        match self {
            PricingTier::Free => FREE_MONTHLY_CREDITS,
            PricingTier::Developer => DEVELOPER_MONTHLY_CREDITS,
            PricingTier::Enterprise => UNLIMITED_CREDITS,
        }
    }

    /// The stored (lower-case) name of the plan.
    pub open spec fn name(self) -> Seq<char> {
        match self {
            PricingTier::Free => "free"@,
            PricingTier::Developer => "developer"@,
            PricingTier::Enterprise => "enterprise"@,
        }
    }

    /// Reads a plan name, ignoring case; anything unknown is the free plan.
    pub fn from_str(tier: &str) -> (r: Self)
        ensures
            r == tier_named(lower_of(tier@)),
    {
        let lower = lowercase(tier);
        Self::from_lowercase(&lower)
    }

    /// Reads a plan name that is already in lower case.
    pub fn from_lowercase(name: &String) -> (r: Self)
        ensures
            r == tier_named(name@),
    {
        if *name == String::from_str("developer") {
            PricingTier::Developer
        } else if *name == String::from_str("enterprise") {
            PricingTier::Enterprise
        } else {
            PricingTier::Free
        }
    }

    pub fn to_string(&self) -> (r: String)
        ensures
            r@ == self.name(),
    {
        match self {
            PricingTier::Free => String::from_str("free"),
            PricingTier::Developer => String::from_str("developer"),
            PricingTier::Enterprise => String::from_str("enterprise"),
        }
    }

    /// Monthly allotment: 1000 on the free plan, 10000 on the developer plan,
    /// and the unlimited sentinel -1 on the enterprise plan.
    pub fn monthly_credits(&self) -> (r: i64)
        ensures
            r == self.spec_monthly_credits(),
    {
        match self {
            PricingTier::Free => FREE_MONTHLY_CREDITS,
            PricingTier::Developer => DEVELOPER_MONTHLY_CREDITS,
            PricingTier::Enterprise => UNLIMITED_CREDITS,
        }
    }
}

/// The next reset boundary seen from the current time: the first instant of
/// next month.
pub fn get_next_reset_date() -> (r: UtcDateTime)
    ensures
        r.is_boundary(),
        exists|now: UtcDateTime| now.wf() && r == month_start(now.month_index() + 1),
{
    let now = utc_now();
    let r = next_month_boundary(now);
    assert(now.wf() && r == month_start(now.month_index() + 1));
    r
}

/// Whether the current time lies in a later calendar month than `last_reset`.
pub fn should_reset_credits(last_reset: &UtcDateTime) -> (r: bool)
    requires
        last_reset.fields_ok(),
    ensures
        exists|now: UtcDateTime| now.wf() && r == (now.month_index() > last_reset.month_index()),
{
    let now = utc_now();
    reset_due(&now, last_reset)
}

} // verus!
