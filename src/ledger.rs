use crate::calendar::{month_reached, month_start, next_month_boundary, UtcDateTime, FIRST_YEAR, LAST_YEAR};
use vstd::arithmetic::div_mod::lemma_fundamental_div_mod;
use crate::pricing::{PricingTier, UNLIMITED_CREDITS};
use vstd::prelude::*;

verus! {

/// The credit-metering state of one company.
#[derive(Clone, Copy, Debug, PartialEq, Eq, Structural)]
pub struct MeteringAccount {
    pub tier: PricingTier,
    /// Credits left this period; the enterprise plan holds the unlimited sentinel.
    pub balance: i64,
    /// The next scheduled reset: the first instant of some calendar month.
    pub reset_at: UtcDateTime,
}

/// Whether the scheduled reset of a metered account is due at `now`: `now`
/// has reached the boundary, that is, lies in its month or a later one.
pub open spec fn reset_is_due(a: MeteringAccount, now: UtcDateTime) -> bool {
    now.month_index() >= a.reset_at.month_index() && a.tier != PricingTier::Enterprise
}

/// The account after the lazy reset check at time `now`: when the scheduled
/// boundary has been reached and the plan is metered, the balance is refilled
/// to the monthly allotment and the next reset is the first instant of the
/// month after `now`. Otherwise nothing changes.
pub open spec fn reset_outcome(a: MeteringAccount, now: UtcDateTime) -> MeteringAccount {
    if reset_is_due(a, now) {
        MeteringAccount {
            tier: a.tier,
            balance: a.tier.spec_monthly_credits(),
            reset_at: month_start(now.month_index() + 1),
        }
    } else {
        a
    }
}

/// Whether a request may consume a credit.
pub open spec fn spec_has_credits(a: MeteringAccount) -> bool {
    a.tier == PricingTier::Enterprise || a.balance > 0
}

/// The account after one deduction attempt: a metered account with credits
/// left loses exactly one; an enterprise account and an exhausted one stay
/// as they are.
pub open spec fn deduct_outcome(a: MeteringAccount) -> MeteringAccount {
    if a.tier != PricingTier::Enterprise && a.balance > 0 {
        MeteringAccount { balance: (a.balance - 1) as i64, ..a }
    } else {
        a
    }
}

impl MeteringAccount {
    /// The account invariant: the reset is scheduled at the start of a month,
    /// the enterprise plan holds the sentinel, and a metered balance never
    /// drops below zero.
    pub open spec fn wf(self) -> bool {
        &&& self.reset_at.is_boundary()
        &&& self.tier == PricingTier::Enterprise ==> self.balance == UNLIMITED_CREDITS
        &&& self.tier != PricingTier::Enterprise ==> self.balance >= 0
    }

    /// A new account as created at onboarding: free plan, a full monthly
    /// allotment, and the first reset at the start of next month.
    pub fn open(now: UtcDateTime) -> (r: MeteringAccount)
        requires
            now.wf(),
        ensures
            r.wf(),
            r.tier == PricingTier::Free,
            r.balance == PricingTier::Free.spec_monthly_credits(),
            r.reset_at == month_start(now.month_index() + 1),
    {
        let tier = PricingTier::Free;
        MeteringAccount {
            tier,
            balance: tier.monthly_credits(),
            reset_at: next_month_boundary(now),
        }
    }

    /// Checks the invariant on an account read from storage.
    pub fn is_well_formed(&self) -> (r: bool)
        ensures
            r == self.wf(),
    {
        let balance_ok = match self.tier {
            PricingTier::Enterprise => self.balance == UNLIMITED_CREDITS,
            _ => self.balance >= 0,
        };
        self.reset_at.is_valid_boundary() && balance_ok
    }
}

/// The lazy reset check. Returns whether the account was reset, that is,
/// whether it has to be stored again.
pub fn check_and_reset_credits(account: &mut MeteringAccount, now: UtcDateTime) -> (reset: bool)
    requires
        old(account).wf(),
        now.wf(),
    ensures
        *final(account) == reset_outcome(*old(account), now),
        final(account).wf(),
        reset == (*final(account) != *old(account)),
        reset == reset_is_due(*old(account), now),
{
    if month_reached(&now, &account.reset_at) && account.tier != PricingTier::Enterprise {
        let old_reset = account.reset_at;
        account.balance = account.tier.monthly_credits();
        account.reset_at = next_month_boundary(now);
        assert(account.reset_at.month_index() != old_reset.month_index());
        true
    } else {
        false
    }
}

/// Runs the lazy reset check, then reports whether a credit may be consumed:
/// always on the enterprise plan, otherwise while the balance is positive.
pub fn check_api_credits(account: &mut MeteringAccount, now: UtcDateTime) -> (r: bool)
    requires
        old(account).wf(),
        now.wf(),
    ensures
        *final(account) == reset_outcome(*old(account), now),
        final(account).wf(),
        r == spec_has_credits(*final(account)),
{
    check_and_reset_credits(account, now);
    match account.tier {
        PricingTier::Enterprise => true,
        _ => account.balance > 0,
    }
}

/// Consumes one credit by the floor-at-zero rule: a metered account with
/// credits left loses one, an exhausted one is refused and left at zero, and
/// an enterprise account is never charged. Returns whether the request may go
/// ahead. This decides on one account value; where concurrent requests share
/// an account, the store has to apply the decrement atomically (a conditional
/// update that only succeeds while credits remain).
pub fn deduct_api_credit(account: &mut MeteringAccount) -> (consumed: bool)
    requires
        old(account).wf(),
    ensures
        *final(account) == deduct_outcome(*old(account)),
        final(account).wf(),
        consumed == spec_has_credits(*old(account)),
{
    match account.tier {
        PricingTier::Enterprise => true,
        _ => {
            if account.balance > 0 {
                account.balance = account.balance - 1;
                true
            } else {
                false
            }
        },
    }
}

/// The first instant of month `index` lies in month `index`.
pub proof fn lemma_month_start_index(index: int)
    requires
        FIRST_YEAR * 12 <= index <= (LAST_YEAR + 1) * 12 + 11,
    ensures
        month_start(index).month_index() == index,
        month_start(index).is_boundary(),
{
    lemma_fundamental_div_mod(index, 12);
    assert(FIRST_YEAR <= index / 12 <= LAST_YEAR + 1);
}

/// When `now` has reached the scheduled reset boundary, a metered account
/// comes out of the reset check with its full monthly allotment and the next
/// reset at the first instant of the month after `now`.
pub proof fn lemma_due_reset_refills(a: MeteringAccount, now: UtcDateTime)
    requires
        a.wf(),
        now.wf(),
        a.tier != PricingTier::Enterprise,
        now.month_index() >= a.reset_at.month_index(),
    ensures
        reset_outcome(a, now).balance == a.tier.spec_monthly_credits(),
        reset_outcome(a, now).reset_at == month_start(now.month_index() + 1),
        reset_outcome(a, now).reset_at.month_index() == now.month_index() + 1,
        reset_outcome(a, now).tier == a.tier,
{
    lemma_month_start_index(now.month_index() + 1);
}

/// The reset check is idempotent: a second check in the same calendar month
/// as the first leaves balance and reset date as the first one left them.
pub proof fn lemma_reset_idempotent(a: MeteringAccount, first: UtcDateTime, second: UtcDateTime)
    requires
        a.wf(),
        first.wf(),
        second.wf(),
        second.month_index() == first.month_index(),
    ensures
        reset_outcome(reset_outcome(a, first), second) == reset_outcome(a, first),
{
    lemma_month_start_index(first.month_index() + 1);
}

/// A free-plan account with a positive balance `n` goes to `n - 1` on a
/// deduction; at zero the deduction is refused and the balance stays zero.
pub proof fn lemma_free_deduction(a: MeteringAccount)
    requires
        a.wf(),
        a.tier == PricingTier::Free,
    ensures
        a.balance > 0 ==> spec_has_credits(a) && deduct_outcome(a).balance == a.balance - 1,
        a.balance == 0 ==> !spec_has_credits(a) && deduct_outcome(a) == a,
        deduct_outcome(a).balance >= 0,
{
}

/// An enterprise account always has credits, through any reset check, and a
/// deduction never changes it: the balance stays the unlimited sentinel.
pub proof fn lemma_enterprise_unmetered(a: MeteringAccount, now: UtcDateTime)
    requires
        a.wf(),
        a.tier == PricingTier::Enterprise,
    ensures
        reset_outcome(a, now) == a,
        spec_has_credits(reset_outcome(a, now)),
        deduct_outcome(a) == a,
        deduct_outcome(a).balance == UNLIMITED_CREDITS,
{
}

} // verus!
