use crate::errors::{blank, ValidationError};
use crate::sending::{hex_tail, prefixed_random_id, ApiKeyRecord};
use vstd::prelude::*;

verus! {

/// An API key as listed to its company.
pub struct ApiKeyResponse {
    pub id: i64,
    pub name: String,
    pub key: String,
    pub permissions: Option<String>,
    pub last_used: Option<String>,
    pub created: String,
    pub status: String,
}

/// Key counts of a company, with the usage figures the dashboard shows.
pub struct ApiKeyStats {
    pub total_keys: i32,
    pub active_keys: i32,
    pub api_calls_today: i32,
    pub rate_limit: String,
}

/// Body of a request for a new API key.
pub struct CreateApiKeyRequest {
    pub name: String,
    pub permissions: String,
    pub company_id: i64,
    pub user_id: i64,
}

/// Listing, issuing and revoking API keys.
pub struct ApiKeysController;

/// Usage figure shown until usage is tracked.
pub const API_CALLS_TODAY: i32 = 1247;

/// Number of active keys in `keys`.
pub open spec fn count_active(keys: Seq<ApiKeyRecord>) -> nat
    decreases keys.len(),
{
    if keys.len() == 0 {
        0
    } else {
        count_active(keys.drop_last()) + if keys.last().is_active {
            1nat
        } else {
            0nat
        }
    }
}

/// A new key value: `mn_live_` followed by 32 lower-case hexadecimal digits.
pub open spec fn is_key_value(k: Seq<char>) -> bool {
    k.subrange(0, 8) == "mn_live_"@ && hex_tail(k, 8)
}

proof fn lemma_count_active_bounded(keys: Seq<ApiKeyRecord>)
    ensures
        count_active(keys) <= keys.len(),
    decreases keys.len(),
{
    if keys.len() > 0 {
        lemma_count_active_bounded(keys.drop_last());
    }
}

impl CreateApiKeyRequest {
    /// The key must be named.
    pub fn validate(&self) -> (r: Result<(), ValidationError>)
        ensures
            r is Ok <==> self.name@.len() > 0,
            r matches Err(e) ==> e.message@ == "API key name is required"@,
    {
        if blank(&self.name) {
            return Err(ValidationError::new("API key name is required"));
        }
        Ok(())
    }
}

impl ApiKeyStats {
    /// The statistics of a company's keys.
    pub fn of(keys: &Vec<ApiKeyRecord>) -> (r: ApiKeyStats)
        requires
            keys@.len() <= i32::MAX,
        ensures
            r.total_keys == keys@.len(),
            r.active_keys == count_active(keys@),
            r.api_calls_today == API_CALLS_TODAY,
            r.rate_limit@ == "10k/hr"@,
    {
        let mut active: i32 = 0;
        let mut i: usize = 0;
        while i < keys.len()
            invariant
                i <= keys@.len() <= i32::MAX,
                active == count_active(keys@.subrange(0, i as int)),
            decreases keys@.len() - i,
        {
            proof {
                assert(keys@.subrange(0, i as int + 1).drop_last() =~= keys@.subrange(0, i as int));
                lemma_count_active_bounded(keys@.subrange(0, i as int));
            }
            if keys[i].is_active {
                active = active + 1;
            }
            i = i + 1;
        }
        assert(keys@.subrange(0, keys@.len() as int) =~= keys@);
        ApiKeyStats {
            total_keys: keys.len() as i32,
            active_keys: active,
            api_calls_today: API_CALLS_TODAY,
            rate_limit: String::from_str("10k/hr"),
        }
    }
}

impl ApiKeysController {
    /// Only a company's owners and admins may issue or revoke its keys.
    pub fn may_manage_keys(role: &String) -> (r: bool)
        ensures
            r == (role@ == "Owner"@ || role@ == "Admin"@),
    {
        *role == String::from_str("Owner") || *role == String::from_str("Admin")
    }

    /// The status shown for a key.
    pub fn status_label(is_active: bool) -> (r: String)
        ensures
            r@ == (if is_active {
                "active"@
            } else {
                "inactive"@
            }),
    {
        if is_active {
            String::from_str("active")
        } else {
            String::from_str("inactive")
        }
    }

    /// A fresh secret key value.
    pub fn new_key_value() -> (r: String)
        ensures
            is_key_value(r@),
    {
        proof {
            reveal_strlit("mn_live_");
        }
        prefixed_random_id("mn_live_")
    }
}

} // verus!
