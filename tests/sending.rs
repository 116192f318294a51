use mailmeter::calendar::UtcDateTime;
use mailmeter::ledger::MeteringAccount;
use mailmeter::pricing::PricingTier;
use mailmeter::sending::{
    authorize, new_message_id, resolve_content, ApiKeyRecord, PublicEmailController,
    SendEmailRequest, SendError, SendOutcome, SendStatus, SmtpProfile, TemplateRecord, Tenant,
};

const COMPANY: i64 = 41;

fn day(year: i32, month: u32, day: u32) -> UtcDateTime {
    UtcDateTime { year, month, day, hour: 10, minute: 30, second: 0, nanosecond: 0 }
}

fn month_start(year: i32, month: u32) -> UtcDateTime {
    UtcDateTime { year, month, day: 1, hour: 0, minute: 0, second: 0, nanosecond: 0 }
}

fn key(active: bool) -> Option<ApiKeyRecord> {
    Some(ApiKeyRecord { key: "mn_live_abc".to_string(), company_id: COMPANY, is_active: active })
}

fn profile() -> SmtpProfile {
    SmtpProfile {
        id: 3,
        company_id: COMPANY,
        smtp_server: "smtp.example.org".to_string(),
        smtp_username: "mailer".to_string(),
        smtp_password: "SECRET-REDACTED".to_string(),
        smtp_port: 587,
    }
}

fn tenant(account: MeteringAccount) -> Option<Tenant> {
    Some(Tenant { company_id: COMPANY, account, default_profile: Some(profile()) })
}

fn free(balance: i64) -> MeteringAccount {
    MeteringAccount { tier: PricingTier::Free, balance, reset_at: month_start(2025, 3) }
}

fn html_request() -> SendEmailRequest {
    SendEmailRequest {
        from: "news@example.org".to_string(),
        to: "reader@example.net".to_string(),
        subject: "Hello".to_string(),
        html: Some("<p>Hi</p>".to_string()),
        text: Some("Hi".to_string()),
        template_id: None,
    }
}

fn send(key: &Option<ApiKeyRecord>, tenant: Option<Tenant>, now: UtcDateTime) -> SendOutcome {
    PublicEmailController::accept(key, tenant, &None, &html_request(), now, "msg_1".to_string())
}

fn error_of(o: &SendOutcome) -> SendError {
    match &o.result {
        Err(e) => *e,
        Ok(_) => panic!("request was accepted"),
    }
}

#[test]
fn month_of_credit_runs_out_and_refills() {
    let first = send(&key(true), tenant(free(1)), day(2025, 2, 15));
    assert!(first.result.is_ok());
    let after_first = first.account.unwrap();
    assert_eq!(after_first.balance, 0);

    let second = send(&key(true), tenant(after_first), day(2025, 2, 15));
    assert_eq!(error_of(&second), SendError::InsufficientCredits);
    let after_second = second.account.unwrap();
    assert_eq!(after_second.balance, 0);

    let third = send(&key(true), tenant(after_second), day(2025, 3, 2));
    assert!(third.result.is_ok());
    let after_third = third.account.unwrap();
    assert_eq!(after_third.balance, 999);
    assert_eq!(after_third.reset_at, month_start(2025, 4));
}

#[test]
fn foreign_template_is_not_found() {
    let mut req = html_request();
    req.template_id = Some(9);
    let template = Some(TemplateRecord {
        id: 9,
        company_id: COMPANY + 1,
        subject: "Other".to_string(),
        content: "<p>Other</p>".to_string(),
    });
    let out = PublicEmailController::accept(
        &key(true),
        tenant(free(5)),
        &template,
        &req,
        day(2025, 2, 15),
        "msg_2".to_string(),
    );
    assert_eq!(error_of(&out), SendError::TemplateNotFound);
    assert_eq!(out.account.unwrap().balance, 5);
}

#[test]
fn missing_template_is_not_found() {
    let mut req = html_request();
    req.template_id = Some(9);
    let out = PublicEmailController::accept(
        &key(true),
        tenant(free(5)),
        &None,
        &req,
        day(2025, 2, 15),
        "msg_3".to_string(),
    );
    assert_eq!(error_of(&out), SendError::TemplateNotFound);
}

#[test]
fn own_template_gives_subject_and_html_body() {
    let mut req = html_request();
    req.template_id = Some(9);
    let template = Some(TemplateRecord {
        id: 9,
        company_id: COMPANY,
        subject: "Welcome".to_string(),
        content: "<h1>Welcome</h1>".to_string(),
    });
    let c = resolve_content(&req, COMPANY, &template).ok().unwrap();
    assert_eq!(c.subject, "Welcome");
    assert_eq!(c.body, "<h1>Welcome</h1>");
    assert!(c.is_html);
}

#[test]
fn text_body_when_no_html() {
    let mut req = html_request();
    req.html = None;
    let c = resolve_content(&req, COMPANY, &None).ok().unwrap();
    assert_eq!(c.subject, "Hello");
    assert_eq!(c.body, "Hi");
    assert!(!c.is_html);
}

#[test]
fn no_body_is_refused() {
    let mut req = html_request();
    req.html = None;
    req.text = None;
    let out = PublicEmailController::accept(
        &key(true),
        tenant(free(5)),
        &None,
        &req,
        day(2025, 2, 15),
        "msg_4".to_string(),
    );
    assert_eq!(error_of(&out), SendError::NoContent);
    assert_eq!(out.account.unwrap().balance, 5);
}

#[test]
fn unknown_key_changes_nothing() {
    let out = send(&None, tenant(free(0)), day(2025, 2, 15));
    assert_eq!(error_of(&out), SendError::InvalidKey);
    assert!(out.account.is_none());
    let auth = authorize(&None, tenant(free(3)), day(2025, 2, 15));
    assert!(matches!(auth.result, Err(SendError::InvalidKey)));
    assert!(auth.account.is_none());
}

#[test]
fn inactive_key_is_refused() {
    let out = send(&key(false), tenant(free(5)), day(2025, 2, 15));
    assert_eq!(error_of(&out), SendError::InactiveKey);
    assert!(out.account.is_none());
}

#[test]
fn missing_company_is_reported() {
    let out = send(&key(true), None, day(2025, 2, 15));
    assert_eq!(error_of(&out), SendError::CompanyNotFound);
    let other = Some(Tenant { company_id: COMPANY + 1, account: free(5), default_profile: Some(profile()) });
    let out = send(&key(true), other, day(2025, 2, 15));
    assert_eq!(error_of(&out), SendError::CompanyNotFound);
}

#[test]
fn missing_default_profile_is_refused() {
    let t = Some(Tenant { company_id: COMPANY, account: free(5), default_profile: None });
    let out = send(&key(true), t, day(2025, 2, 15));
    assert_eq!(error_of(&out), SendError::NoTransportConfigured);
    assert_eq!(out.account.unwrap().balance, 5);
}

#[test]
fn accepted_send_is_queued_once() {
    let out = send(&key(true), tenant(free(5)), day(2025, 2, 15));
    let q = out.result.ok().unwrap();
    assert_eq!(q.response.message_id, "msg_1");
    assert_eq!(q.response.status, "queued");
    assert_eq!(q.log.status, SendStatus::Queued);
    assert_eq!(q.log.company_id, COMPANY);
    assert_eq!(q.log.from_email, "news@example.org");
    assert_eq!(q.log.to_email, "reader@example.net");
    assert_eq!(q.log.body, "<p>Hi</p>");
    assert_eq!(q.log.created_at, day(2025, 2, 15));
    assert_eq!(q.job.smtp_server, "smtp.example.org");
    assert_eq!(q.job.smtp_port, 587);
    assert!(q.job.is_html);
}

#[test]
fn enterprise_send_keeps_sentinel() {
    let a = MeteringAccount { tier: PricingTier::Enterprise, balance: -1, reset_at: month_start(2021, 5) };
    let out = send(&key(true), tenant(a), day(2025, 2, 15));
    assert!(out.result.is_ok());
    assert_eq!(out.account.unwrap(), a);
}

#[test]
fn authorize_deducts_on_success() {
    let auth = authorize(&key(true), tenant(free(2)), day(2025, 2, 15));
    let ctx = auth.result.ok().unwrap();
    assert_eq!(ctx.company_id, COMPANY);
    assert_eq!(ctx.profile.smtp_username, "mailer");
    assert_eq!(auth.account.unwrap().balance, 1);
}

#[test]
fn status_settles_once() {
    assert_eq!(SendStatus::Queued.settle(true), SendStatus::Success);
    assert_eq!(SendStatus::Queued.settle(false), SendStatus::Failed);
    assert_eq!(SendStatus::Success.settle(false), SendStatus::Success);
    assert_eq!(SendStatus::Failed.settle(true), SendStatus::Failed);
    assert_eq!(SendStatus::Queued.label(), "Queued");
    assert_eq!(SendStatus::Success.label(), "Success");
    assert_eq!(SendStatus::Failed.label(), "Failed");
}

#[test]
fn message_ids_are_fresh_and_well_formed() {
    let a = new_message_id();
    let b = new_message_id();
    assert_ne!(a, b);
    assert_eq!(a.len(), 36);
    assert!(a.starts_with("msg_"));
    assert!(a[4..].chars().all(|c| c.is_ascii_digit() || ('a'..='f').contains(&c)));
}

#[test]
fn send_email_hands_out_a_message_id() {
    let out = PublicEmailController::send_email(&key(true), tenant(free(5)), &None, &html_request(), day(2025, 2, 15));
    let q = out.result.ok().unwrap();
    assert!(q.response.message_id.starts_with("msg_"));
    assert_eq!(q.response.message_id.len(), 36);
}
