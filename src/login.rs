//! The identity exchange: the HTTP request that trades an email and a
//! password for an identity ticket, the reading of the reply's status line
//! and headers, and what the reply body means.

use vstd::prelude::*;
use vstd::string::StringSliceAdditionalSpecFns;

use crate::error::AuthError;

verus! {

/// The identity provider's reply body, as far as the client reads it.
#[derive(Clone, Debug)]
pub struct LoginResponse {
    pub ticket: Option<String>,
    pub session_id: Option<String>,
    pub user_id: Option<String>,
    pub profile_id: Option<String>,
    pub name_on_platform: Option<String>,
    pub remember_me_ticket: Option<String>,
    pub two_factor_authentication_ticket: Option<String>,
}

/// The identity ticket and session id that the exchange yields.
#[derive(Clone, Debug)]
pub struct LoginCredentials {
    pub ticket: String,
    pub session_id: String,
}

/// What a reply body yields: a second factor is asked for when the body has
/// a two-factor ticket and no ticket; otherwise both the ticket and the
/// session id are needed.
pub open spec fn credentials_result(r: LoginResponse) -> Result<(Seq<char>, Seq<char>), AuthError> {
    if r.two_factor_authentication_ticket is Some && r.ticket is None {
        Err(AuthError::TwoFactorRequired)
    } else {
        match r.ticket {
            None => Err(AuthError::MissingTicket),
            Some(t) => match r.session_id {
                None => Err(AuthError::MissingSessionId),
                Some(s) => Ok((t@, s@)),
            },
        }
    }
}

/// Reads the credentials out of a reply body.
pub fn credentials_from_response(r: LoginResponse) -> (c: Result<LoginCredentials, AuthError>)
    ensures
        credentials_result(r) == match c {
            Ok(v) => Ok((v.ticket@, v.session_id@)),
            Err(e) => Err::<(Seq<char>, Seq<char>), AuthError>(e),
        },
{
    if r.two_factor_authentication_ticket.is_some() && r.ticket.is_none() {
        return Err(AuthError::TwoFactorRequired);
    }
    match r.ticket {
        None => Err(AuthError::MissingTicket),
        Some(ticket) => match r.session_id {
            None => Err(AuthError::MissingSessionId),
            Some(session_id) => Ok(LoginCredentials { ticket, session_id }),
        },
    }
}

/// A reply whose body asks for a second factor and has no ticket never
/// yields credentials, so the workflow cannot go on to the session.
pub proof fn lemma_two_factor_detected(r: LoginResponse)
    requires
        r.two_factor_authentication_ticket is Some,
        r.ticket is None,
    ensures
        credentials_result(r) == Err::<(Seq<char>, Seq<char>), AuthError>(
            AuthError::TwoFactorRequired,
        ),
{
}

/// Whether a status code is a success (2xx).
pub open spec fn status_ok(status: u16) -> bool {
    200 <= status < 300
}

/// Refuses a reply whose status is not a success.
pub fn check_login_status(status: u16) -> (r: Result<(), AuthError>)
    ensures
        status_ok(status) ==> r == Ok::<(), AuthError>(()),
        !status_ok(status) ==> r == Err::<(), AuthError>(AuthError::LoginStatus(status)),
{
    if status < 200 || status >= 300 {
        Err(AuthError::LoginStatus(status))
    } else {
        Ok(())
    }
}

/// Names the standard padded base64 text of some bytes, as its ASCII bytes.
pub uninterp spec fn base64_of(b: Seq<u8>) -> Seq<u8>;

/// Relies on base64's STANDARD engine `encode`: the padded base64 text of the
/// input, four characters for each started group of three bytes.
#[verifier::external_body]
fn base64_encode(b: &[u8]) -> (r: Vec<u8>)
    requires
        b@.len() <= usize::MAX / 2,
    ensures
        r@ == base64_of(b@),
        r@.len() == 4 * ((b@.len() + 2) / 3),
{
    base64::Engine::encode(&base64::engine::general_purpose::STANDARD, b).into_bytes()
}

/// The decimal digits of `n`, as ASCII bytes.
pub open spec fn decimal(n: nat) -> Seq<u8>
    decreases n,
{
    if n < 10 {
        seq![(48 + n) as u8]
    } else {
        decimal(n / 10).push((48 + n % 10) as u8)
    }
}

fn push_decimal(out: &mut Vec<u8>, n: usize)
    ensures
        final(out)@ == old(out)@ + decimal(n as nat),
    decreases n,
{
    if n < 10 {
        out.push((48 + n) as u8);
        assert(final(out)@ =~= old(out)@ + decimal(n as nat));
    } else {
        push_decimal(out, n / 10);
        out.push((48 + n % 10) as u8);
        assert(final(out)@ =~= old(out)@ + decimal(n as nat));
    }
}

fn push_text(out: &mut Vec<u8>, s: &str)
    ensures
        final(out)@ == old(out)@ + s.spec_bytes(),
{
    out.extend_from_slice(s.as_bytes());
}

fn push_bytes(out: &mut Vec<u8>, b: &[u8])
    ensures
        final(out)@ == old(out)@ + b@,
{
    out.extend_from_slice(b);
}

/// The request line and the headers before the credentials.
pub open spec fn request_head() -> Seq<u8> {
    "POST /v3/profiles/sessions HTTP/1.1\r\nHost: public-ubiservices.ubi.com\r\nUser-Agent: Massgate\r\nAuthorization: Basic ".spec_bytes()
}

/// The headers between the credentials and the body's length.
pub open spec fn request_middle() -> Seq<u8> {
    "\r\nUbi-AppId: f68a4bb5-608a-4ff2-8123-be8ef797e0a6\r\nUbi-RequestedPlatformType: uplay\r\nContent-Type: application/json\r\nContent-Length: ".spec_bytes()
}

/// The end of the headers.
pub open spec fn request_tail() -> Seq<u8> {
    "\r\nConnection: close\r\n\r\n".spec_bytes()
}

/// The login request for `email` and `password`, with JSON `body`: HTTP
/// Basic credentials `email:password` in base64 (58 is the colon), the fixed application
/// headers, the body's length, then the body.
pub open spec fn login_request_bytes(email: Seq<u8>, password: Seq<u8>, body: Seq<u8>) -> Seq<u8> {
    request_head() + base64_of(email + seq![58u8] + password) + request_middle() + decimal(
        body.len(),
    ) + request_tail() + body
}

/// Builds the login request.
pub fn login_request(email: &str, password: &str, body: &str) -> (r: Vec<u8>)
    requires
        email.spec_bytes().len() + password.spec_bytes().len() < usize::MAX / 2,
        body.spec_bytes().len() <= usize::MAX,
    ensures
        r@ == login_request_bytes(email.spec_bytes(), password.spec_bytes(), body.spec_bytes()),
{
    let mut cred: Vec<u8> = Vec::new();
    push_text(&mut cred, email);
    cred.push(58u8);
    push_text(&mut cred, password);
    assert(cred@ =~= email.spec_bytes() + seq![58u8] + password.spec_bytes());
    let encoded = base64_encode(cred.as_slice());
    let mut r: Vec<u8> = Vec::new();
    push_text(
        &mut r,
        "POST /v3/profiles/sessions HTTP/1.1\r\nHost: public-ubiservices.ubi.com\r\nUser-Agent: Massgate\r\nAuthorization: Basic ",
    );
    assert(r@ =~= request_head());
    push_bytes(&mut r, encoded.as_slice());
    push_text(
        &mut r,
        "\r\nUbi-AppId: f68a4bb5-608a-4ff2-8123-be8ef797e0a6\r\nUbi-RequestedPlatformType: uplay\r\nContent-Type: application/json\r\nContent-Length: ",
    );
    assert(r@ == request_head() + base64_of(cred@) + request_middle());
    push_decimal(&mut r, body.len());
    push_text(&mut r, "\r\nConnection: close\r\n\r\n");
    assert(r@ == request_head() + base64_of(cred@) + request_middle() + decimal(
        body.spec_bytes().len(),
    ) + request_tail());
    push_text(&mut r, body);
    r
}

} // verus!
