//! The Isracard 360 session: credentials, the cached token, and the exchange
//! that creates a payment link.
//!
//! Creating a link takes one to four HTTP exchanges. `start_payment_link` and
//! `advance` decide each next request from the answer to the previous one; the
//! caller sends the requests and reports what came back.
use vstd::prelude::*;

use crate::models::{AuthRequest, CreateSaleRequest, Currency};
use crate::text::decimal;

verus! {

/// The host of the Isracard 360 API.
pub open spec fn base_url() -> Seq<char> {
    "https://www.isracard360.co.il"@
}

/// Where the login request goes.
pub fn auth_url() -> (s: String)
    ensures
        s@ == base_url() + "/api/v2/auth"@,
{
    let mut s = String::from_str("https://www.isracard360.co.il");
    s.append("/api/v2/auth");
    s
}

/// Where the sale request goes.
pub fn sales_url() -> (s: String)
    ensures
        s@ == base_url() + "/api/v2/sales"@,
{
    let mut s = String::from_str("https://www.isracard360.co.il");
    s.append("/api/v2/sales");
    s
}

// ---------------------------------------------------------------------------
// HTTP status codes
// ---------------------------------------------------------------------------

/// How `reqwest::StatusCode` displays the status `code`: the code and its
/// canonical reason phrase.
pub uninterp spec fn status_line(code: u16) -> Seq<char>;

/// The text of an HTTP status, as error messages show it.
///
/// Trusted: displays `reqwest::StatusCode::from_u16(code)`, which is valid for
/// codes from 100 to 999. Its `Display` writes the code, a space and the
/// canonical reason phrase (or `<unknown status code>`); the contract states
/// the first part and names the whole text.
#[verifier::external_body]
fn status_text(code: u16) -> (s: String)
    requires
        100 <= code <= 999,
    ensures
        s@ == status_line(code),
        s@.len() >= 4,
        s@.take(4) == decimal(code as nat).push(' '),
{
    reqwest::StatusCode::from_u16(code).unwrap().to_string()
}

/// Whether `code` is a success status.
///
/// Trusted: `reqwest::StatusCode::is_success`, true exactly for the codes from
/// 200 to 299.
#[verifier::external_body]
fn status_is_success(code: u16) -> (b: bool)
    requires
        100 <= code <= 999,
    ensures
        b == (200 <= code < 300),
{
    reqwest::StatusCode::from_u16(code).unwrap().is_success()
}

// ---------------------------------------------------------------------------
// The session
// ---------------------------------------------------------------------------

/// The Isracard 360 account and the token of its current session, if any.
#[derive(Clone, Debug, PartialEq, Eq)]
pub struct IsracardClient {
    email: String,
    password: String,
    token: Option<String>,
}

pub struct ClientView {
    pub email: Seq<char>,
    pub password: Seq<char>,
    pub token: Option<Seq<char>>,
}

impl View for IsracardClient {
    type V = ClientView;

    closed spec fn view(&self) -> ClientView {
        ClientView {
            email: self.email@,
            password: self.password@,
            token: match &self.token {
                Some(t) => Some(t@),
                None => None,
            },
        }
    }
}

impl IsracardClient {
    /// A client for the account, with no session yet.
    pub fn new(email: String, password: String) -> (c: IsracardClient)
        ensures
            c@.email == email@,
            c@.password == password@,
            c@.token is None,
    {
        IsracardClient { email, password, token: None }
    }

    /// The token of the current session, if there is one.
    pub fn token(&self) -> (t: Option<String>)
        ensures
            match t {
                Some(s) => self@.token == Some(s@),
                None => self@.token is None,
            },
    {
        match &self.token {
            Some(t) => Some(t.clone()),
            None => None,
        }
    }

    fn login_body(&self) -> (r: AuthRequest)
        ensures
            r.captcha is None,
            r.email@ == self@.email,
            r.password_open@ == self@.password,
    {
        AuthRequest::new(self.email.clone(), self.password.clone())
    }
}

// ---------------------------------------------------------------------------
// Creating a payment link
// ---------------------------------------------------------------------------

/// The request that the caller makes next, or the outcome.
#[derive(Debug, PartialEq, Eq)]
pub enum SaleStep {
    /// POST this body as JSON to `auth_url()`.
    PostAuth(AuthRequest),
    /// Read the login reply as an `AuthResponse` and report its token.
    ReadAuthBody,
    /// POST the flow's body as JSON to `sales_url()`, with this bearer token.
    PostSale { token: String },
    /// Read the sale reply as a `CreateSaleResponse` and report its URL.
    ReadSaleBody,
    /// The link, or why there is none.
    Done(Result<String, String>),
}

/// What the caller reports back.
#[derive(Debug, PartialEq, Eq)]
pub enum SaleEvent {
    /// The request was answered with this status code, or could not be made
    /// (with the transport error's text).
    Sent(Result<u16, String>),
    /// The token of the login reply, or the text of the error that reading it gave.
    AuthBody(Result<String, String>),
    /// The URL of the sale reply, or the text of the error that reading it gave.
    SaleBody(Result<String, String>),
}

/// What the flow waits for.
#[derive(Clone, Copy, Debug, PartialEq, Eq, Structural)]
pub enum Phase {
    AuthResponse,
    AuthBody,
    SaleResponse,
    SaleBody,
    Finished,
}

/// A payment link being created.
#[derive(Clone, Debug, PartialEq, Eq)]
pub struct PaymentLinkFlow {
    /// The sale that is asked for.
    pub body: CreateSaleRequest,
    pub phase: Phase,
    /// The first sale request was refused with status 401 and the session is
    /// being renewed; a second refusal is final.
    pub retried: bool,
}

pub enum SaleStepView {
    PostAuth { email: Seq<char>, password: Seq<char> },
    ReadAuthBody,
    PostSale { token: Seq<char> },
    ReadSaleBody,
    Done(Result<Seq<char>, Seq<char>>),
}

impl View for SaleStep {
    type V = SaleStepView;

    open spec fn view(&self) -> SaleStepView {
        match self {
            SaleStep::PostAuth(r) => SaleStepView::PostAuth {
                email: r.email@,
                password: r.password_open@,
            },
            SaleStep::ReadAuthBody => SaleStepView::ReadAuthBody,
            SaleStep::PostSale { token } => SaleStepView::PostSale { token: token@ },
            SaleStep::ReadSaleBody => SaleStepView::ReadSaleBody,
            SaleStep::Done(Ok(u)) => SaleStepView::Done(Ok(u@)),
            SaleStep::Done(Err(e)) => SaleStepView::Done(Err(e@)),
        }
    }
}

impl SaleStep {
    /// A login request is sent without a captcha.
    pub open spec fn well_formed(&self) -> bool {
        match self {
            SaleStep::PostAuth(r) => r.captcha is None,
            _ => true,
        }
    }
}

pub enum SaleEventView {
    Sent(Result<u16, Seq<char>>),
    AuthBody(Result<Seq<char>, Seq<char>>),
    SaleBody(Result<Seq<char>, Seq<char>>),
}

impl View for SaleEvent {
    type V = SaleEventView;

    open spec fn view(&self) -> SaleEventView {
        match self {
            SaleEvent::Sent(Ok(c)) => SaleEventView::Sent(Ok(*c)),
            SaleEvent::Sent(Err(e)) => SaleEventView::Sent(Err(e@)),
            SaleEvent::AuthBody(Ok(t)) => SaleEventView::AuthBody(Ok(t@)),
            SaleEvent::AuthBody(Err(e)) => SaleEventView::AuthBody(Err(e@)),
            SaleEvent::SaleBody(Ok(u)) => SaleEventView::SaleBody(Ok(u@)),
            SaleEvent::SaleBody(Err(e)) => SaleEventView::SaleBody(Err(e@)),
        }
    }
}

/// Whether `ev` answers what a flow in `phase` waits for. Status codes are
/// those that `reqwest::StatusCode` can hold.
pub open spec fn answers(phase: Phase, ev: SaleEventView) -> bool {
    match ev {
        SaleEventView::Sent(r) => (phase == Phase::AuthResponse || phase == Phase::SaleResponse)
            && (r matches Ok(c) ==> 100 <= c <= 999),
        SaleEventView::AuthBody(_) => phase == Phase::AuthBody,
        SaleEventView::SaleBody(_) => phase == Phase::SaleBody,
    }
}

/// How many more answers a flow can take at most.
pub open spec fn remaining(phase: Phase, retried: bool) -> nat {
    match phase {
        Phase::Finished => 0,
        Phase::SaleBody => 1,
        Phase::SaleResponse => if retried {
            2
        } else {
            5
        },
        Phase::AuthBody => if retried {
            3
        } else {
            6
        },
        Phase::AuthResponse => if retried {
            4
        } else {
            7
        },
    }
}

/// The next phase, whether the session is being renewed, the step, and the
/// token that the session holds, after `ev` answers a flow in `phase`.
pub open spec fn next_spec(
    client: ClientView,
    phase: Phase,
    retried: bool,
    ev: SaleEventView,
) -> (Phase, bool, SaleStepView, Option<Seq<char>>) {
    let keep = client.token;
    match ev {
        SaleEventView::Sent(Err(e)) => if phase == Phase::AuthResponse {
            (Phase::Finished, retried, SaleStepView::Done(Err("Auth request failed: "@ + e)), keep)
        } else if retried {
            (Phase::Finished, retried, SaleStepView::Done(Err("Sales retry failed: "@ + e)), keep)
        } else {
            (Phase::Finished, retried, SaleStepView::Done(Err("Sales request failed: "@ + e)), keep)
        },
        SaleEventView::Sent(Ok(code)) => if phase == Phase::AuthResponse {
            if 200 <= code < 300 {
                (Phase::AuthBody, retried, SaleStepView::ReadAuthBody, keep)
            } else {
                (
                    Phase::Finished,
                    retried,
                    SaleStepView::Done(Err("Auth failed with status "@ + status_line(code))),
                    keep,
                )
            }
        } else if code == 401 && !retried {
            (
                Phase::AuthResponse,
                true,
                SaleStepView::PostAuth { email: client.email, password: client.password },
                keep,
            )
        } else if 200 <= code < 300 {
            (Phase::SaleBody, retried, SaleStepView::ReadSaleBody, keep)
        } else {
            (
                Phase::Finished,
                retried,
                SaleStepView::Done(Err("Sales failed with status "@ + status_line(code))),
                keep,
            )
        },
        SaleEventView::AuthBody(Err(e)) => (
            Phase::Finished,
            retried,
            SaleStepView::Done(Err("Failed to parse auth response: "@ + e)),
            keep,
        ),
        SaleEventView::AuthBody(Ok(token)) => (
            Phase::SaleResponse,
            retried,
            SaleStepView::PostSale { token },
            Some(token),
        ),
        SaleEventView::SaleBody(Err(e)) => (
            Phase::Finished,
            retried,
            SaleStepView::Done(Err("Failed to parse sales response: "@ + e)),
            keep,
        ),
        SaleEventView::SaleBody(Ok(url)) => (
            Phase::Finished,
            retried,
            SaleStepView::Done(Ok(url)),
            keep,
        ),
    }
}

fn prefixed(prefix: &str, text: &String) -> (s: String)
    ensures
        s@ == prefix@ + text@,
{
    let mut s = String::from_str(prefix);
    s.append(text.as_str());
    s
}

impl IsracardClient {
    /// Starts creating a payment link for `price` in `currency` for the product
    /// `name`: with a session token at hand the sale is asked for at once,
    /// otherwise the client logs in first.
    pub fn start_payment_link(&self, name: String, currency: Currency, price: u32) -> (r: (
        PaymentLinkFlow,
        SaleStep,
    ))
        ensures
            r.0.body.describes(name@, currency, price),
            !r.0.retried,
            r.1.well_formed(),
            (r.0.phase, r.1@) == start_spec(self@),
            match self@.token {
                Some(t) => r.0.phase == Phase::SaleResponse && r.1@ == (SaleStepView::PostSale {
                    token: t,
                }),
                None => r.0.phase == Phase::AuthResponse && r.1@ == (SaleStepView::PostAuth {
                    email: self@.email,
                    password: self@.password,
                }),
            },
    {
        let body = CreateSaleRequest::new(name, currency, price);
        match self.token() {
            Some(t) => (
                PaymentLinkFlow { body, phase: Phase::SaleResponse, retried: false },
                SaleStep::PostSale { token: t },
            ),
            None => (
                PaymentLinkFlow { body, phase: Phase::AuthResponse, retried: false },
                SaleStep::PostAuth(self.login_body()),
            ),
        }
    }

    /// Takes the answer to the last step of `flow` and gives the next step.
    /// A successful login stores its token in the session.
    pub fn advance(&mut self, flow: &mut PaymentLinkFlow, ev: SaleEvent) -> (step: SaleStep)
        requires
            answers(old(flow).phase, ev@),
        ensures
            ({
                let (phase, retried, s, token) = next_spec(
                    old(self)@,
                    old(flow).phase,
                    old(flow).retried,
                    ev@,
                );
                &&& final(flow).phase == phase
                &&& final(flow).retried == retried
                &&& step@ == s
                &&& final(self)@.token == token
            }),
            final(self)@.email == old(self)@.email,
            final(self)@.password == old(self)@.password,
            final(flow).body == old(flow).body,
            step.well_formed(),
    {
        match ev {
            SaleEvent::Sent(Err(e)) => {
                let msg = if flow.phase == Phase::AuthResponse {
                    prefixed("Auth request failed: ", &e)
                } else if flow.retried {
                    prefixed("Sales retry failed: ", &e)
                } else {
                    prefixed("Sales request failed: ", &e)
                };
                flow.phase = Phase::Finished;
                SaleStep::Done(Err(msg))
            },
            SaleEvent::Sent(Ok(code)) => {
                if flow.phase == Phase::AuthResponse {
                    if status_is_success(code) {
                        flow.phase = Phase::AuthBody;
                        SaleStep::ReadAuthBody
                    } else {
                        flow.phase = Phase::Finished;
                        SaleStep::Done(Err(prefixed("Auth failed with status ", &status_text(code))))
                    }
                } else if code == 401 && !flow.retried {
                    flow.phase = Phase::AuthResponse;
                    flow.retried = true;
                    SaleStep::PostAuth(self.login_body())
                } else if status_is_success(code) {
                    flow.phase = Phase::SaleBody;
                    SaleStep::ReadSaleBody
                } else {
                    flow.phase = Phase::Finished;
                    SaleStep::Done(Err(prefixed("Sales failed with status ", &status_text(code))))
                }
            },
            SaleEvent::AuthBody(Err(e)) => {
                flow.phase = Phase::Finished;
                SaleStep::Done(Err(prefixed("Failed to parse auth response: ", &e)))
            },
            SaleEvent::AuthBody(Ok(token)) => {
                self.token = Some(token.clone());
                flow.phase = Phase::SaleResponse;
                SaleStep::PostSale { token }
            },
            SaleEvent::SaleBody(Err(e)) => {
                flow.phase = Phase::Finished;
                SaleStep::Done(Err(prefixed("Failed to parse sales response: ", &e)))
            },
            SaleEvent::SaleBody(Ok(url)) => {
                flow.phase = Phase::Finished;
                SaleStep::Done(Ok(url))
            },
        }
    }
}

// ---------------------------------------------------------------------------
// Laws
// ---------------------------------------------------------------------------

/// Every answer brings a flow closer to its end, and it ends exactly when it
/// gives its outcome: a payment link takes at most seven answers, so at most
/// two logins and two sale requests.
pub proof fn payment_link_flow_terminates(
    client: ClientView,
    phase: Phase,
    retried: bool,
    ev: SaleEventView,
)
    requires
        answers(phase, ev),
    ensures
        ({
            let (p, r, s, _) = next_spec(client, phase, retried, ev);
            &&& remaining(p, r) < remaining(phase, retried)
            &&& (s is Done) == (p == Phase::Finished)
        }),
        remaining(phase, retried) <= 7,
{
}

/// The token of a login is the one the next sale request carries, and the
/// session keeps it for later links.
pub proof fn login_token_is_used_and_kept(
    client: ClientView,
    retried: bool,
    token: Seq<char>,
)
    ensures
        next_spec(client, Phase::AuthBody, retried, SaleEventView::AuthBody(Ok(token))) == (
            Phase::SaleResponse,
            retried,
            SaleStepView::PostSale { token },
            Some(token),
        ),
{
}

/// A sale refused with status 401 leads to one new login and one more sale
/// request; a second refusal is the outcome.
pub proof fn unauthorized_sale_is_retried_once(client: ClientView)
    ensures
        next_spec(client, Phase::SaleResponse, false, SaleEventView::Sent(Ok(401))) == (
            Phase::AuthResponse,
            true,
            SaleStepView::PostAuth { email: client.email, password: client.password },
            client.token,
        ),
        next_spec(client, Phase::SaleResponse, true, SaleEventView::Sent(Ok(401))) == (
            Phase::Finished,
            true,
            SaleStepView::Done(Err("Sales failed with status "@ + status_line(401))),
            client.token,
        ),
{
}

/// How a flow starts for a session: with a cached token it asks for the sale
/// at once, otherwise it logs in first.
pub open spec fn start_spec(client: ClientView) -> (Phase, SaleStepView) {
    match client.token {
        Some(t) => (Phase::SaleResponse, SaleStepView::PostSale { token: t }),
        None => (
            Phase::AuthResponse,
            SaleStepView::PostAuth { email: client.email, password: client.password },
        ),
    }
}

pub open spec fn is_login(s: SaleStepView) -> nat {
    if s is PostAuth {
        1
    } else {
        0
    }
}

pub open spec fn is_sale(s: SaleStepView) -> nat {
    if s is PostSale {
        1
    } else {
        0
    }
}

/// The logins and the sale requests that a flow in `phase` sends while it
/// takes the answers `evs`, in order; answers after the end, or that do not
/// answer what the flow waits for, are not taken.
pub open spec fn requests_sent(
    client: ClientView,
    phase: Phase,
    retried: bool,
    evs: Seq<SaleEventView>,
) -> (nat, nat)
    decreases evs.len(),
{
    if evs.len() == 0 || !answers(phase, evs[0]) {
        (0, 0)
    } else {
        let (p, r, s, t) = next_spec(client, phase, retried, evs[0]);
        let rest = requests_sent(
            ClientView { token: t, ..client },
            p,
            r,
            evs.drop_first(),
        );
        (rest.0 + is_login(s), rest.1 + is_sale(s))
    }
}

/// How many more logins a flow in `phase` may still send.
pub open spec fn logins_left(phase: Phase, retried: bool) -> nat {
    if !retried && (phase == Phase::AuthResponse || phase == Phase::AuthBody
        || phase == Phase::SaleResponse) {
        1
    } else {
        0
    }
}

/// How many more sale requests a flow in `phase` may still send.
pub open spec fn sales_left(phase: Phase, retried: bool) -> nat {
    match phase {
        Phase::AuthResponse | Phase::AuthBody => if retried {
            1
        } else {
            2
        },
        Phase::SaleResponse => if retried {
            0
        } else {
            1
        },
        _ => 0,
    }
}

proof fn lemma_requests_left(
    client: ClientView,
    phase: Phase,
    retried: bool,
    evs: Seq<SaleEventView>,
)
    ensures
        requests_sent(client, phase, retried, evs).0 <= logins_left(phase, retried),
        requests_sent(client, phase, retried, evs).1 <= sales_left(phase, retried),
    decreases evs.len(),
{
    if evs.len() > 0 && answers(phase, evs[0]) {
        let (p, r, s, t) = next_spec(client, phase, retried, evs[0]);
        lemma_requests_left(ClientView { token: t, ..client }, p, r, evs.drop_first());
    }
}

/// Whatever the server answers, creating a payment link sends at most two
/// logins and at most two sale requests, the first step included.
pub proof fn payment_link_sends_at_most_two_of_each(client: ClientView, evs: Seq<SaleEventView>)
    ensures
        ({
            let (phase, first) = start_spec(client);
            let (logins, sales) = requests_sent(client, phase, false, evs);
            &&& logins + is_login(first) <= 2
            &&& sales + is_sale(first) <= 2
        }),
{
    let (phase, first) = start_spec(client);
    lemma_requests_left(client, phase, false, evs);
}

/// A link is the outcome only when it was read from the reply to a sale
/// request, and that reply is read only after a success status.
pub proof fn link_only_from_successful_sale(
    client: ClientView,
    phase: Phase,
    retried: bool,
    ev: SaleEventView,
)
    requires
        answers(phase, ev),
    ensures
        ({
            let (p, _, s, _) = next_spec(client, phase, retried, ev);
            &&& s matches SaleStepView::Done(Ok(u)) ==> phase == Phase::SaleBody
                && ev == SaleEventView::SaleBody(Ok(u))
            &&& p == Phase::SaleBody ==> phase == Phase::SaleResponse && (ev matches SaleEventView::Sent(
                Ok(c),
            ) && 200 <= c < 300)
        }),
{
}

} // verus!
