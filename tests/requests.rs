use mailmeter::accounts::{JwtService, LoginRequest, SignupRequest, VerifyEmailRequest};
use mailmeter::calendar::UtcDateTime;
use mailmeter::keys::{ApiKeyStats, ApiKeysController, CreateApiKeyRequest};
use mailmeter::onboarding::{CompleteOnboardingRequest, OnboardingController};
use mailmeter::pricing::PricingTier;
use mailmeter::sending::ApiKeyRecord;
use mailmeter::team::{AcceptInviteRequest, InviteTeamMemberRequest};
use mailmeter::templates::{CreateTemplateRequest, TemplatesController};

fn signup(email: &str, password: &str) -> SignupRequest {
    SignupRequest {
        email: email.to_string(),
        password: password.to_string(),
        firstname: "Ada".to_string(),
        lastname: "Byron".to_string(),
    }
}

fn message<T>(r: Result<T, mailmeter::errors::ValidationError>) -> String {
    match r {
        Ok(_) => panic!("request passed its checks"),
        Err(e) => e.message,
    }
}

#[test]
fn signup_checks_fields_and_password_length() {
    assert_eq!(message(signup("", "longenough").validate()), "Email and password are required");
    assert_eq!(message(signup("a@b.c", "").validate()), "Email and password are required");
    assert_eq!(message(signup("a@b.c", "short").validate()), "Password must be at least 8 characters");
    assert!(signup("a@b.c", "exactly8").validate().is_ok());
    assert!(signup("a@b.c", "ééèè").validate().is_ok());
}

#[test]
fn login_and_verification_need_fields() {
    let login = LoginRequest { email: "a@b.c".to_string(), password: String::new() };
    assert_eq!(message(login.validate()), "Email and password are required");
    let ok = LoginRequest { email: "a@b.c".to_string(), password: "x".to_string() };
    assert!(ok.validate().is_ok());
    assert_eq!(message(VerifyEmailRequest { email: String::new() }.validate()), "Email is required");
    assert!(VerifyEmailRequest { email: "a@b.c".to_string() }.validate().is_ok());
}

#[test]
fn jwt_service_keeps_its_secret() {
    let s = JwtService::new("SECRET-REDACTED".to_string());
    assert_eq!(s.clone().secret(), "SECRET-REDACTED");
}

#[test]
fn key_stats_count_active_keys() {
    let keys = vec![
        ApiKeyRecord { key: "a".to_string(), company_id: 1, is_active: true },
        ApiKeyRecord { key: "b".to_string(), company_id: 1, is_active: false },
        ApiKeyRecord { key: "c".to_string(), company_id: 1, is_active: true },
    ];
    let stats = ApiKeyStats::of(&keys);
    assert_eq!(stats.total_keys, 3);
    assert_eq!(stats.active_keys, 2);
    assert_eq!(stats.api_calls_today, 1247);
    assert_eq!(stats.rate_limit, "10k/hr");
    let empty = ApiKeyStats::of(&Vec::new());
    assert_eq!((empty.total_keys, empty.active_keys), (0, 0));
}

#[test]
fn only_owners_and_admins_manage_keys() {
    assert!(ApiKeysController::may_manage_keys(&"Owner".to_string()));
    assert!(ApiKeysController::may_manage_keys(&"Admin".to_string()));
    assert!(!ApiKeysController::may_manage_keys(&"Member".to_string()));
    assert!(!ApiKeysController::may_manage_keys(&"owner".to_string()));
    assert_eq!(ApiKeysController::status_label(true), "active");
    assert_eq!(ApiKeysController::status_label(false), "inactive");
}

#[test]
fn key_request_needs_a_name() {
    let req = CreateApiKeyRequest { name: String::new(), permissions: "Full Access".to_string(), company_id: 1, user_id: 2 };
    assert_eq!(message(req.validate()), "API key name is required");
}

#[test]
fn new_key_values_are_prefixed() {
    let k = ApiKeysController::new_key_value();
    assert!(k.starts_with("mn_live_"));
    assert_eq!(k.len(), 40);
}

fn onboarding_request() -> CompleteOnboardingRequest {
    CompleteOnboardingRequest {
        company_name: "Acme".to_string(),
        website: None,
        industry: "Finance".to_string(),
        sending_domain: "acme.example".to_string(),
        from_name: "Acme".to_string(),
        from_email: "hello@acme.example".to_string(),
        user_id: 7,
    }
}

#[test]
fn onboarding_creates_free_account_and_key() {
    let now = UtcDateTime { year: 2025, month: 12, day: 9, hour: 8, minute: 0, second: 0, nanosecond: 0 };
    let o = OnboardingController::complete_onboarding(&onboarding_request(), now).ok().unwrap();
    assert_eq!(o.industry_id, 4);
    assert_eq!(o.account.tier, PricingTier::Free);
    assert_eq!(o.account.balance, 1000);
    assert_eq!(o.account.reset_at, UtcDateTime { year: 2026, month: 1, day: 1, hour: 0, minute: 0, second: 0, nanosecond: 0 });
    assert!(o.api_key.starts_with("mn_live_"));
}

#[test]
fn onboarding_checks_fields_in_order() {
    let mut req = onboarding_request();
    req.from_email = String::new();
    assert_eq!(message(req.validate()), "All email configuration fields are required");
    req.industry = String::new();
    assert_eq!(message(req.validate()), "Company name and industry are required");
}

#[test]
fn industry_names_map_to_numbers() {
    assert_eq!(OnboardingController::industry_id(&"Technology".to_string()), 1);
    assert_eq!(OnboardingController::industry_id(&"E-commerce".to_string()), 2);
    assert_eq!(OnboardingController::industry_id(&"Education".to_string()), 5);
    assert_eq!(OnboardingController::industry_id(&"Farming".to_string()), 6);
}

#[test]
fn template_and_team_requests_need_fields() {
    let t = CreateTemplateRequest { name: "n".to_string(), subject: String::new(), template_type: "html".to_string(), content: String::new() };
    assert_eq!(message(t.validate()), "Template name and subject are required");
    let i = InviteTeamMemberRequest { email: "a@b.c".to_string(), role: String::new(), company_id: 1 };
    assert_eq!(message(i.validate()), "Email and role are required");
    let a = AcceptInviteRequest { token: "t".to_string(), firstname: "A".to_string(), lastname: String::new(), password: "p".to_string() };
    assert_eq!(message(a.validate()), "All fields are required");
    assert_eq!(TemplatesController::get_template_stats().total_templates, 12);
}
