use crate::calendar::UtcDateTime;
use crate::ledger::{
    check_api_credits, deduct_api_credit, deduct_outcome, reset_outcome, spec_has_credits,
    MeteringAccount,
};
use vstd::prelude::*;

verus! {

/// An issued API key as stored.
pub struct ApiKeyRecord {
    pub key: String,
    pub company_id: i64,
    pub is_active: bool,
}

/// An outbound mail server configuration of a company.
pub struct SmtpProfile {
    pub id: i64,
    pub company_id: i64,
    pub smtp_server: String,
    pub smtp_username: String,
    pub smtp_password: String,
    pub smtp_port: i32,
}

/// A stored message template.
pub struct TemplateRecord {
    pub id: i64,
    pub company_id: i64,
    pub subject: String,
    pub content: String,
}

/// What the send path reads of the company that owns a key.
pub struct Tenant {
    pub company_id: i64,
    pub account: MeteringAccount,
    /// The profile marked as default, if any.
    pub default_profile: Option<SmtpProfile>,
}

/// Body of a public send request.
pub struct SendEmailRequest {
    pub from: String,
    pub to: String,
    pub subject: String,
    pub html: Option<String>,
    pub text: Option<String>,
    pub template_id: Option<i64>,
}

/// Immediate answer to an accepted send request.
pub struct SendEmailResponse {
    pub message_id: String,
    pub status: String,
}

/// Why a send request was turned away.
#[derive(Clone, Copy, Debug, PartialEq, Eq, Structural)]
pub enum SendError {
    /// No key with the given value exists.
    InvalidKey,
    /// The key exists but has been deactivated.
    InactiveKey,
    /// The owning company could not be read.
    CompanyNotFound,
    /// The company has no credit left this period.
    InsufficientCredits,
    /// The company has no default outbound profile.
    NoTransportConfigured,
    /// The referenced template is missing or belongs to another company.
    TemplateNotFound,
    /// Neither a template nor an HTML or text body was given.
    NoContent,
}

/// Delivery state of a logged send attempt.
#[derive(Clone, Copy, Debug, PartialEq, Eq, Structural)]
pub enum SendStatus {
    Queued,
    Success,
    Failed,
}

/// Subject and body of the message that goes out.
pub struct Content {
    pub subject: String,
    pub body: String,
    pub is_html: bool,
}

/// An authorised request: the company and the profile to send through.
pub struct AuthContext {
    pub company_id: i64,
    pub profile: SmtpProfile,
}

/// A send attempt log row to insert.
pub struct NewEmailLog {
    pub company_id: i64,
    pub from_email: String,
    pub to_email: String,
    pub subject: String,
    pub body: String,
    pub status: SendStatus,
    pub created_at: UtcDateTime,
}

/// Everything the background transport call needs.
pub struct DispatchJob {
    pub smtp_server: String,
    pub smtp_username: String,
    pub smtp_password: String,
    pub smtp_port: i32,
    pub from: String,
    pub to: String,
    pub subject: String,
    pub body: String,
    pub is_html: bool,
}

/// An accepted request: the answer for the caller, the one log row to
/// create before the transport is called, and the transport job.
pub struct QueuedSend {
    pub response: SendEmailResponse,
    pub log: NewEmailLog,
    pub job: DispatchJob,
}

/// Result of the authorisation steps, with the metering account as it must
/// be stored afterwards (`None`: nothing to store).
pub struct Authorization {
    pub result: Result<AuthContext, SendError>,
    pub account: Option<MeteringAccount>,
}

/// Result of a whole send request, with the metering account as it must be
/// stored afterwards (`None`: nothing to store).
pub struct SendOutcome {
    pub result: Result<QueuedSend, SendError>,
    pub account: Option<MeteringAccount>,
}

/// The preconditions of the send path: the tenant's account satisfies its
/// invariant and the clock reading is a valid instant.
pub open spec fn send_inputs_ok(tenant: Option<Tenant>, now: UtcDateTime) -> bool {
    &&& tenant matches Some(t) ==> t.account.wf()
    &&& now.wf()
}

/// The key checks, in order: it must exist, then be active, then its company
/// must have been read. `Ok` carries that company.
pub open spec fn key_check(key: Option<ApiKeyRecord>, tenant: Option<Tenant>) -> Result<Tenant, SendError> {
    match key {
        None => Err(SendError::InvalidKey),
        Some(k) => if !k.is_active {
            Err(SendError::InactiveKey)
        } else {
            match tenant {
                Some(t) => if t.company_id == k.company_id {
                    Ok(t)
                } else {
                    Err(SendError::CompanyNotFound)
                },
                None => Err(SendError::CompanyNotFound),
            }
        },
    }
}

/// Credit and transport checks on a company: its account must have credit
/// once the lazy reset has run, and it must have a default profile, which
/// `Ok` carries.
pub open spec fn gate(
    account: MeteringAccount,
    default_profile: Option<SmtpProfile>,
    now: UtcDateTime,
) -> Result<SmtpProfile, SendError> {
    if !spec_has_credits(reset_outcome(account, now)) {
        Err(SendError::InsufficientCredits)
    } else {
        match default_profile {
            Some(p) => Ok(p),
            None => Err(SendError::NoTransportConfigured),
        }
    }
}

/// Authorisation as a whole: key checks, lazy reset, credit check, default
/// profile, then one credit is deducted on success.
pub open spec fn authorization(key: Option<ApiKeyRecord>, tenant: Option<Tenant>, now: UtcDateTime) -> Authorization {
    match key_check(key, tenant) {
        Err(e) => Authorization { result: Err(e), account: None },
        Ok(t) => match gate(t.account, t.default_profile, now) {
            Err(e) => Authorization { result: Err(e), account: Some(reset_outcome(t.account, now)) },
            Ok(p) => Authorization {
                result: Ok(AuthContext { company_id: t.company_id, profile: p }),
                account: Some(deduct_outcome(reset_outcome(t.account, now))),
            },
        },
    }
}

/// The message content: a referenced template of the same company gives
/// subject and HTML body; otherwise the request's subject with its HTML body,
/// or failing that its text body.
pub open spec fn resolved_content(req: SendEmailRequest, company_id: i64, template: Option<TemplateRecord>) -> Result<Content, SendError> {
    match req.template_id {
        Some(id) => match template {
            Some(t) => if t.id == id && t.company_id == company_id {
                Ok(Content { subject: t.subject, body: t.content, is_html: true })
            } else {
                Err(SendError::TemplateNotFound)
            },
            None => Err(SendError::TemplateNotFound),
        },
        None => match req.html {
            Some(h) => Ok(Content { subject: req.subject, body: h, is_html: true }),
            None => match req.text {
                Some(x) => Ok(Content { subject: req.subject, body: x, is_html: false }),
                None => Err(SendError::NoContent),
            },
        },
    }
}

/// `q` is the queued attempt for an accepted request: a "queued" answer with
/// the message id, one log row in state `Queued`, and the transport job.
pub open spec fn queued_as(
    q: QueuedSend,
    req: SendEmailRequest,
    company_id: i64,
    p: SmtpProfile,
    c: Content,
    now: UtcDateTime,
    message_id: Seq<char>,
) -> bool {
    &&& q.response.message_id@ == message_id
    &&& q.response.status@ == "queued"@
    &&& q.log == NewEmailLog {
        company_id,
        from_email: req.from,
        to_email: req.to,
        subject: c.subject,
        body: c.body,
        status: SendStatus::Queued,
        created_at: now,
    }
    &&& q.job == DispatchJob {
        smtp_server: p.smtp_server,
        smtp_username: p.smtp_username,
        smtp_password: p.smtp_password,
        smtp_port: p.smtp_port,
        from: req.from,
        to: req.to,
        subject: c.subject,
        body: c.body,
        is_html: c.is_html,
    }
}

/// `r` is the outcome of a send request. Key checks, credit gate and content
/// come in that order, and the first failure is the answer. A failed key
/// check stores nothing; a later failure stores the account as the lazy reset
/// left it, without a deduction; success stores it with one credit deducted
/// and queues the attempt.
pub open spec fn send_outcome(
    r: SendOutcome,
    key: Option<ApiKeyRecord>,
    tenant: Option<Tenant>,
    template: Option<TemplateRecord>,
    req: SendEmailRequest,
    now: UtcDateTime,
    message_id: Seq<char>,
) -> bool {
    match key_check(key, tenant) {
        Err(e) => r.result == Err::<QueuedSend, SendError>(e) && r.account is None,
        Ok(t) => match gate(t.account, t.default_profile, now) {
            Err(e) => r.result == Err::<QueuedSend, SendError>(e)
                && r.account == Some(reset_outcome(t.account, now)),
            Ok(p) => match resolved_content(req, t.company_id, template) {
                Err(e) => r.result == Err::<QueuedSend, SendError>(e)
                    && r.account == Some(reset_outcome(t.account, now)),
                Ok(c) => r.account == Some(deduct_outcome(reset_outcome(t.account, now)))
                    && (r.result matches Ok(q) && queued_as(q, req, t.company_id, p, c, now, message_id)),
            },
        },
    }
}

/// The key checks of `key_check`.
pub fn check_key(key: &Option<ApiKeyRecord>, tenant: Option<Tenant>) -> (r: Result<Tenant, SendError>)
    ensures
        r == key_check(*key, tenant),
{
    match key {
        None => Err(SendError::InvalidKey),
        Some(k) => {
            if !k.is_active {
                Err(SendError::InactiveKey)
            } else {
                match tenant {
                    Some(t) => {
                        if t.company_id == k.company_id {
                            Ok(t)
                        } else {
                            Err(SendError::CompanyNotFound)
                        }
                    },
                    None => Err(SendError::CompanyNotFound),
                }
            }
        },
    }
}

/// Runs the checks of `gate`: the lazy reset on `account`, then credit and a
/// default profile are required. Nothing is deducted here.
pub fn pass_gate(
    account: &mut MeteringAccount,
    default_profile: Option<SmtpProfile>,
    now: UtcDateTime,
) -> (r: Result<SmtpProfile, SendError>)
    requires
        old(account).wf(),
        now.wf(),
    ensures
        *final(account) == reset_outcome(*old(account), now),
        final(account).wf(),
        r == gate(*old(account), default_profile, now),
{
    if !check_api_credits(account, now) {
        return Err(SendError::InsufficientCredits);
    }
    match default_profile {
        Some(p) => Ok(p),
        None => Err(SendError::NoTransportConfigured),
    }
}

/// Authorises a send request: the key must exist and be active, its company
/// must have credit after the lazy reset and a default profile; on success
/// one credit is deducted.
pub fn authorize(key: &Option<ApiKeyRecord>, tenant: Option<Tenant>, now: UtcDateTime) -> (r: Authorization)
    requires
        send_inputs_ok(tenant, now),
    ensures
        r == authorization(*key, tenant, now),
{
    match check_key(key, tenant) {
        Err(e) => Authorization { result: Err(e), account: None },
        Ok(t) => {
            let Tenant { company_id, mut account, default_profile } = t;
            match pass_gate(&mut account, default_profile, now) {
                Err(e) => Authorization { result: Err(e), account: Some(account) },
                Ok(profile) => {
                    deduct_api_credit(&mut account);
                    Authorization {
                        result: Ok(AuthContext { company_id, profile }),
                        account: Some(account),
                    }
                },
            }
        },
    }
}

/// The message content of `resolved_content`.
pub fn resolve_content(
    req: &SendEmailRequest,
    company_id: i64,
    template: &Option<TemplateRecord>,
) -> (r: Result<Content, SendError>)
    ensures
        r == resolved_content(*req, company_id, *template),
{
    match req.template_id {
        Some(id) => match template {
            Some(t) => {
                if t.id == id && t.company_id == company_id {
                    Ok(Content { subject: t.subject.clone(), body: t.content.clone(), is_html: true })
                } else {
                    Err(SendError::TemplateNotFound)
                }
            },
            None => Err(SendError::TemplateNotFound),
        },
        None => match &req.html {
            Some(h) => Ok(Content { subject: req.subject.clone(), body: h.clone(), is_html: true }),
            None => match &req.text {
                Some(x) => Ok(
                    Content { subject: req.subject.clone(), body: x.clone(), is_html: false },
                ),
                None => Err(SendError::NoContent),
            },
        },
    }
}

/// The state a log row is in after the attempt completes: a queued row
/// becomes `Success` or `Failed` by the transport outcome; a settled row stays
/// as it is.
pub open spec fn status_after(s: SendStatus, delivered: bool) -> SendStatus {
    match s {
        SendStatus::Queued => if delivered {
            SendStatus::Success
        } else {
            SendStatus::Failed
        },
        _ => s,
    }
}

impl SendStatus {
    /// The name under which the status is stored.
    pub open spec fn spec_label(self) -> Seq<char> {
        match self {
            SendStatus::Queued => "Queued"@,
            SendStatus::Success => "Success"@,
            SendStatus::Failed => "Failed"@,
        }
    }

    /// The status after the transport reported `delivered`.
    pub fn settle(self, delivered: bool) -> (r: SendStatus)
        ensures
            r == status_after(self, delivered),
    {
        match self {
            SendStatus::Queued => if delivered {
                SendStatus::Success
            } else {
                SendStatus::Failed
            },
            _ => self,
        }
    }

    pub fn label(&self) -> (r: String)
        ensures
            r@ == self.spec_label(),
    {
        match self {
            SendStatus::Queued => String::from_str("Queued"),
            SendStatus::Success => String::from_str("Success"),
            SendStatus::Failed => String::from_str("Failed"),
        }
    }
}

pub open spec fn is_lower_hex(c: char) -> bool {
    ('0' <= c && c <= '9') || ('a' <= c && c <= 'f')
}

/// `s` starts at `start` with 32 lower-case hexadecimal digits and ends there.
pub open spec fn hex_tail(s: Seq<char>, start: int) -> bool {
    &&& s.len() == start + 32
    &&& forall|i: int| start <= i < s.len() ==> #[trigger] is_lower_hex(s[i])
}

/// A message id: `msg_` followed by 32 lower-case hexadecimal digits.
pub open spec fn is_message_id(id: Seq<char>) -> bool {
    id.subrange(0, 4) == "msg_"@ && hex_tail(id, 4)
}

/// Relies on uuid's `Uuid::new_v4` and its `simple` form: a random UUID
/// written as 32 lower-case hexadecimal digits.
#[verifier::external_body]
pub(crate) fn random_uuid_simple() -> (r: String)
    ensures
        hex_tail(r@, 0),
{
    uuid::Uuid::new_v4().simple().to_string()
}

/// `prefix` followed by a fresh random 32-digit hexadecimal identifier.
pub(crate) fn prefixed_random_id(prefix: &str) -> (r: String)
    ensures
        r@.subrange(0, prefix@.len() as int) == prefix@,
        hex_tail(r@, prefix@.len() as int),
{
    let tail = random_uuid_simple();
    let r = String::from_str(prefix).concat(tail.as_str());
    assert(r@.subrange(0, prefix@.len() as int) =~= prefix@);
    assert forall|i: int| prefix@.len() <= i < r@.len() implies #[trigger] is_lower_hex(r@[i]) by {
        assert(r@[i] == tail@[i - prefix@.len()]);
    }
    r
}

/// A fresh message id.
pub fn new_message_id() -> (r: String)
    ensures
        is_message_id(r@),
{
    proof {
        reveal_strlit("msg_");
    }
    prefixed_random_id("msg_")
}

/// Hands composed messages to the outbound mail transport.
pub struct EmailService;

impl EmailService {
    pub fn new() -> (r: EmailService) {
        EmailService
    }
}

/// Handles the public send endpoint.
pub struct PublicEmailController;

impl PublicEmailController {
    /// Decides a send request given the key record found for the caller's
    /// key, the owning company as read, the referenced template as read, the
    /// current time and the message id to hand out.
    pub fn accept(
        key: &Option<ApiKeyRecord>,
        tenant: Option<Tenant>,
        template: &Option<TemplateRecord>,
        req: &SendEmailRequest,
        now: UtcDateTime,
        message_id: String,
    ) -> (r: SendOutcome)
        requires
            send_inputs_ok(tenant, now),
        ensures
            send_outcome(r, *key, tenant, *template, *req, now, message_id@),
    {
        let t = match check_key(key, tenant) {
            Err(e) => return SendOutcome { result: Err(e), account: None },
            Ok(t) => t,
        };
        let Tenant { company_id, mut account, default_profile } = t;
        let profile = match pass_gate(&mut account, default_profile, now) {
            Err(e) => return SendOutcome { result: Err(e), account: Some(account) },
            Ok(p) => p,
        };
        let content = match resolve_content(req, company_id, template) {
            Err(e) => return SendOutcome { result: Err(e), account: Some(account) },
            Ok(c) => c,
        };
        deduct_api_credit(&mut account);
        let Content { subject, body, is_html } = content;
        let log = NewEmailLog {
            company_id,
            from_email: req.from.clone(),
            to_email: req.to.clone(),
            subject: subject.clone(),
            body: body.clone(),
            status: SendStatus::Queued,
            created_at: now,
        };
        let job = DispatchJob {
            smtp_server: profile.smtp_server,
            smtp_username: profile.smtp_username,
            smtp_password: profile.smtp_password,
            smtp_port: profile.smtp_port,
            from: req.from.clone(),
            to: req.to.clone(),
            subject,
            body,
            is_html,
        };
        let response = SendEmailResponse { message_id, status: String::from_str("queued") };
        SendOutcome { result: Ok(QueuedSend { response, log, job }), account: Some(account) }
    }

    /// Decides a send request as `accept` does, under a fresh message id.
    pub fn send_email(
        key: &Option<ApiKeyRecord>,
        tenant: Option<Tenant>,
        template: &Option<TemplateRecord>,
        req: &SendEmailRequest,
        now: UtcDateTime,
    ) -> (r: SendOutcome)
        requires
            send_inputs_ok(tenant, now),
        ensures
            exists|id: Seq<char>|
                is_message_id(id) && send_outcome(r, *key, tenant, *template, *req, now, id),
    {
        let message_id = new_message_id();
        let ghost id = message_id@;
        let r = Self::accept(key, tenant, template, req, now, message_id);
        assert(is_message_id(id) && send_outcome(r, *key, tenant, *template, *req, now, id));
        r
    }
}

/// A request whose key is unknown is refused as `InvalidKey` whatever the
/// company's state: no account change is stored, no log row is created and no
/// transport job exists.
pub proof fn lemma_invalid_key_has_no_effect(
    r: SendOutcome,
    tenant: Option<Tenant>,
    template: Option<TemplateRecord>,
    req: SendEmailRequest,
    now: UtcDateTime,
    message_id: Seq<char>,
)
    requires
        send_outcome(r, None, tenant, template, req, now, message_id),
    ensures
        r.result == Err::<QueuedSend, SendError>(SendError::InvalidKey),
        r.account is None,
        authorization(None, tenant, now).result == Err::<AuthContext, SendError>(
            SendError::InvalidKey,
        ),
        authorization(None, tenant, now).account is None,
{
}

/// A deactivated key is refused as `InactiveKey` whatever the company's
/// state, so the caller learns nothing of its credit, and nothing is stored.
pub proof fn lemma_inactive_key_has_no_effect(
    r: SendOutcome,
    key: Option<ApiKeyRecord>,
    tenant: Option<Tenant>,
    template: Option<TemplateRecord>,
    req: SendEmailRequest,
    now: UtcDateTime,
    message_id: Seq<char>,
)
    requires
        send_outcome(r, key, tenant, template, req, now, message_id),
        key matches Some(k) && !k.is_active,
    ensures
        r.result == Err::<QueuedSend, SendError>(SendError::InactiveKey),
        r.account is None,
{
}

/// A send is queued only when the authoriser admits the same request, and
/// the account it stores is the one authorisation leaves: reset if due, then
/// charged one credit.
pub proof fn lemma_queued_only_when_authorized(
    r: SendOutcome,
    key: Option<ApiKeyRecord>,
    tenant: Option<Tenant>,
    template: Option<TemplateRecord>,
    req: SendEmailRequest,
    now: UtcDateTime,
    message_id: Seq<char>,
)
    requires
        send_outcome(r, key, tenant, template, req, now, message_id),
        r.result is Ok,
    ensures
        authorization(key, tenant, now).result is Ok,
        r.account == authorization(key, tenant, now).account,
{
}

/// A request that passes authorisation and has content is queued with
/// exactly one log row, in state `Queued`. Once the attempt completes the row
/// is in exactly one of `Success` and `Failed`, and no later report moves it
/// again, least of all back to `Queued`.
pub proof fn lemma_authorized_send_queues_one_row(
    r: SendOutcome,
    key: Option<ApiKeyRecord>,
    tenant: Option<Tenant>,
    template: Option<TemplateRecord>,
    req: SendEmailRequest,
    now: UtcDateTime,
    message_id: Seq<char>,
    delivered: bool,
    later: bool,
)
    requires
        send_outcome(r, key, tenant, template, req, now, message_id),
        authorization(key, tenant, now).result is Ok,
        resolved_content(req, key->Some_0.company_id, template) is Ok,
    ensures
        r.result is Ok,
        r.result->Ok_0.log.status == SendStatus::Queued,
        status_after(SendStatus::Queued, delivered) == (if delivered {
            SendStatus::Success
        } else {
            SendStatus::Failed
        }),
        status_after(SendStatus::Queued, delivered) != SendStatus::Queued,
        status_after(status_after(SendStatus::Queued, delivered), later) == status_after(
            SendStatus::Queued,
            delivered,
        ),
{
}

/// A template that belongs to another company is reported as
/// `TemplateNotFound`: no log row is created and no credit is deducted.
pub proof fn lemma_foreign_template_not_found(
    r: SendOutcome,
    key: Option<ApiKeyRecord>,
    tenant: Option<Tenant>,
    template: Option<TemplateRecord>,
    req: SendEmailRequest,
    now: UtcDateTime,
    message_id: Seq<char>,
)
    requires
        send_outcome(r, key, tenant, template, req, now, message_id),
        key_check(key, tenant) is Ok,
        gate(tenant->Some_0.account, tenant->Some_0.default_profile, now) is Ok,
        req.template_id == Some(template->Some_0.id),
        template is Some,
        template->Some_0.company_id != tenant->Some_0.company_id,
    ensures
        r.result == Err::<QueuedSend, SendError>(SendError::TemplateNotFound),
        r.account == Some(reset_outcome(tenant->Some_0.account, now)),
{
}

} // verus!
