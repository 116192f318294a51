use crate::calendar::{month_start, UtcDateTime};
use crate::errors::{blank, ValidationError};
use crate::keys::{is_key_value, ApiKeysController};
use crate::ledger::MeteringAccount;
use crate::pricing::PricingTier;
use vstd::prelude::*;

verus! {

/// Body of the request that sets up a user's company.
pub struct CompleteOnboardingRequest {
    pub company_name: String,
    pub website: Option<String>,
    pub industry: String,
    pub sending_domain: String,
    pub from_name: String,
    pub from_email: String,
    pub user_id: i64,
}

/// Answer to a completed onboarding: the new company and its first key.
pub struct OnboardingResponse {
    pub company_id: i64,
    pub api_key: String,
    pub message: String,
}

/// What onboarding creates besides the company's own fields: its industry,
/// its metering account and its first API key.
pub struct Onboarding {
    pub industry_id: i64,
    pub account: MeteringAccount,
    pub api_key: String,
}

/// Company setup after signup.
pub struct OnboardingController;

/// The industry number of a name; unknown names fall under "other" (6).
pub open spec fn industry_number(name: Seq<char>) -> i64 {
    if name == "Technology"@ {
        1
    } else if name == "E-commerce"@ {
        2
    } else if name == "Healthcare"@ {
        3
    } else if name == "Finance"@ {
        4
    } else if name == "Education"@ {
        5
    } else {
        6
    }
}

impl CompleteOnboardingRequest {

    /// All five required fields are given.
    pub open spec fn is_complete(&self) -> bool {
        self.company_name@.len() > 0 && self.industry@.len() > 0 && self.sending_domain@.len() > 0
            && self.from_name@.len() > 0 && self.from_email@.len() > 0
    }

    /// Company name and industry must be given, then all three sending fields.
    pub fn validate(&self) -> (r: Result<(), ValidationError>)
        ensures
            (self.company_name@.len() == 0 || self.industry@.len() == 0) ==> (r matches Err(e)
                && e.message@ == "Company name and industry are required"@),
            (self.company_name@.len() > 0 && self.industry@.len() > 0 && (
            self.sending_domain@.len() == 0 || self.from_name@.len() == 0
                || self.from_email@.len() == 0)) ==> (r matches Err(e) && e.message@
                == "All email configuration fields are required"@),
            r is Ok <==> self.is_complete(),
    {
        if blank(&self.company_name) || blank(&self.industry) {
            return Err(ValidationError::new("Company name and industry are required"));
        }
        if blank(&self.sending_domain) || blank(&self.from_name) || blank(&self.from_email) {
            return Err(ValidationError::new("All email configuration fields are required"));
        }
        Ok(())
    }
}

impl OnboardingController {
    pub fn industry_id(name: &String) -> (r: i64)
        ensures
            r == industry_number(name@),
    {
        if *name == String::from_str("Technology") {
            1
        } else if *name == String::from_str("E-commerce") {
            2
        } else if *name == String::from_str("Healthcare") {
            3
        } else if *name == String::from_str("Finance") {
            4
        } else if *name == String::from_str("Education") {
            5
        } else {
            6
        }
    }

    /// Checks the request and prepares the new company's industry, its
    /// metering account (free plan, full allotment, first reset at the start
    /// of next month) and a fresh API key.
    pub fn complete_onboarding(req: &CompleteOnboardingRequest, now: UtcDateTime) -> (r: Result<
        Onboarding,
        ValidationError,
    >)
        requires
            now.wf(),
        ensures
            r is Ok <==> req.is_complete(),
            r matches Ok(o) ==> {
                &&& o.industry_id == industry_number(req.industry@)
                &&& o.account.wf()
                &&& o.account.tier == PricingTier::Free
                &&& o.account.balance == PricingTier::Free.spec_monthly_credits()
                &&& o.account.reset_at == month_start(now.month_index() + 1)
                &&& is_key_value(o.api_key@)
            },
    {
        match req.validate() {
            Err(e) => Err(e),
            Ok(()) => Ok(
                Onboarding {
                    industry_id: Self::industry_id(&req.industry),
                    account: MeteringAccount::open(now),
                    api_key: ApiKeysController::new_key_value(),
                },
            ),
        }
    }
}

} // verus!
