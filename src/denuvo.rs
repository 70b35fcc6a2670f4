//! The token-issuance service: its requests and what its replies mean.

use vstd::prelude::*;
use vstd::string::StringSliceAdditionalSpecFns;
use vstd::utf8::{decode_utf8, valid_utf8};

use crate::error::AuthError;

verus! {

/// Service name of the token-issuance channel.
pub open spec fn token_service_text() -> Seq<char> {
    "denuvo_service"@
}

/// The result code of a successful token-issuance reply.
pub const RESULT_SUCCESS: i32 = 0;

/// What a token-issuance request asks.
#[derive(Clone, Debug)]
pub enum TokenCall {
    /// Exchange an ownership token and the caller's request token for an
    /// access token.
    GameToken { ownership_token: String, request_token: Vec<u8> },
    /// Exchange an access token and a set of add-ons for an entitlement
    /// token.
    OwnershipListToken { product_id: u32, game_token: Vec<u8>, addons_to_validate: Vec<u32> },
}

/// One request on the token-issuance channel.
#[derive(Clone, Debug)]
pub struct TokenReq {
    pub request_id: u32,
    pub call: TokenCall,
}

/// The parts of a token-issuance reply that the client reads.
#[derive(Clone, Debug)]
pub struct TokenRsp {
    pub result: i32,
    pub game_token: Option<Vec<u8>>,
    pub ownership_list_token: Option<Vec<u8>>,
}

/// One message from the token-issuance service.
#[derive(Clone, Debug)]
pub struct TokenDownstream {
    pub response: Option<TokenRsp>,
}

/// The client side of an open token-issuance channel.
#[derive(Clone, Copy, Debug)]
pub struct DenuvoConnection {
    pub connection_id: u32,
    pub next_id: u32,
}

/// `q` asks for an access token under id `id`.
pub open spec fn is_game_token_request(
    q: TokenReq,
    id: u32,
    ownership_token: Seq<char>,
    request_token: Seq<u8>,
) -> bool {
    &&& q.request_id == id
    &&& q.call matches TokenCall::GameToken { ownership_token: o, request_token: t }
    &&& o@ == ownership_token
    &&& t@ == request_token
}

/// `q` asks for an entitlement token under id `id`.
pub open spec fn is_list_token_request(
    q: TokenReq,
    id: u32,
    product_id: u32,
    game_token: Seq<u8>,
    add_ons: Seq<u32>,
) -> bool {
    &&& q.request_id == id
    &&& q.call matches TokenCall::OwnershipListToken { product_id: p, game_token: g, addons_to_validate: a }
    &&& p == product_id
    &&& g@ == game_token
    &&& a@ == add_ons
}

/// Relies on String::from_utf8: it succeeds exactly on valid UTF-8 and then
/// holds the text those bytes encode.
#[verifier::external_body]
fn text_from_utf8(bytes: Vec<u8>) -> (r: Option<String>)
    ensures
        r is Some <==> valid_utf8(bytes@),
        r matches Some(s) ==> s@ == decode_utf8(bytes@),
{
    String::from_utf8(bytes).ok()
}

/// The bytes of `s`, copied.
fn text_bytes(s: &str) -> (r: Vec<u8>)
    ensures
        r@ == s.spec_bytes(),
{
    let b = s.as_bytes();
    let mut r: Vec<u8> = Vec::with_capacity(b.len());
    let mut i: usize = 0;
    while i < b.len()
        invariant
            i <= b@.len(),
            r@ == b@.subrange(0, i as int),
        decreases b@.len() - i,
    {
        r.push(b[i]);
        i = i + 1;
        assert(r@ =~= b@.subrange(0, i as int));
    }
    assert(b@.subrange(0, b@.len() as int) =~= b@);
    r
}

impl DenuvoConnection {
    /// The channel opened under `connection_id`; its first request takes id 1.
    pub fn new(connection_id: u32) -> (r: DenuvoConnection)
        ensures
            r.connection_id == connection_id,
            r.next_id == 1,
    {
        DenuvoConnection { connection_id, next_id: 1 }
    }

    /// Takes the channel's next request id.
    pub fn next_request_id(&mut self) -> (r: u32)
        requires
            old(self).next_id < u32::MAX,
        ensures
            r == old(self).next_id,
            final(self).connection_id == old(self).connection_id,
            final(self).next_id == old(self).next_id + 1,
    {
        let id = self.next_id;
        self.next_id = id + 1;
        id
    }

    /// The request for an access token; the request token goes as its bytes,
    /// unchanged.
    pub fn game_token_request(&mut self, ownership_token: &str, request_token: &str) -> (r:
        TokenReq)
        requires
            old(self).next_id < u32::MAX,
        ensures
            final(self).connection_id == old(self).connection_id,
            final(self).next_id == old(self).next_id + 1,
            is_game_token_request(
                r,
                old(self).next_id,
                ownership_token@,
                request_token.spec_bytes(),
            ),
    {
        let id = self.next_request_id();
        TokenReq {
            request_id: id,
            call: TokenCall::GameToken {
                ownership_token: ownership_token.to_string(),
                request_token: text_bytes(request_token),
            },
        }
    }

    /// The request for an entitlement token covering `add_ons`; the access
    /// token goes as its bytes, unchanged.
    pub fn ownership_list_token_request(
        &mut self,
        product_id: u32,
        game_token: &str,
        add_ons: Vec<u32>,
    ) -> (r: TokenReq)
        requires
            old(self).next_id < u32::MAX,
        ensures
            final(self).connection_id == old(self).connection_id,
            final(self).next_id == old(self).next_id + 1,
            is_list_token_request(
                r,
                old(self).next_id,
                product_id,
                game_token.spec_bytes(),
                add_ons@,
            ),
    {
        let id = self.next_request_id();
        TokenReq {
            request_id: id,
            call: TokenCall::OwnershipListToken {
                product_id,
                game_token: text_bytes(game_token),
                addons_to_validate: add_ons,
            },
        }
    }
}

/// What a reply gives for the entitlement token (`want_list`) or else the
/// access token: an error with the result code unless it is success, an
/// error when the token is missing or is not UTF-8, and its text otherwise.
pub open spec fn token_result(d: TokenDownstream, want_list: bool) -> Result<Seq<char>, AuthError> {
    match d.response {
        None => Err(AuthError::UnexpectedResponse),
        Some(rsp) => if rsp.result != RESULT_SUCCESS {
            Err(AuthError::ServiceResult(rsp.result))
        } else {
            let tok = if want_list {
                rsp.ownership_list_token
            } else {
                rsp.game_token
            };
            match tok {
                None => Err(AuthError::UnexpectedResponse),
                Some(b) => if valid_utf8(b@) {
                    Ok(decode_utf8(b@))
                } else {
                    Err(AuthError::InvalidText)
                },
            }
        },
    }
}

/// A string result as text.
pub open spec fn text_result(r: Result<String, AuthError>) -> Result<Seq<char>, AuthError> {
    match r {
        Ok(s) => Ok(s@),
        Err(e) => Err(e),
    }
}

fn token_from(d: TokenDownstream, want_list: bool) -> (r: Result<String, AuthError>)
    ensures
        text_result(r) == token_result(d, want_list),
{
    match d.response {
        None => Err(AuthError::UnexpectedResponse),
        Some(rsp) => {
            if rsp.result != RESULT_SUCCESS {
                Err(AuthError::ServiceResult(rsp.result))
            } else {
                let tok = if want_list {
                    rsp.ownership_list_token
                } else {
                    rsp.game_token
                };
                match tok {
                    None => Err(AuthError::UnexpectedResponse),
                    Some(b) => match text_from_utf8(b) {
                        Some(s) => Ok(s),
                        None => Err(AuthError::InvalidText),
                    },
                }
            }
        },
    }
}

/// Reads the access token out of a reply.
pub fn game_token_from(d: TokenDownstream) -> (r: Result<String, AuthError>)
    ensures
        text_result(r) == token_result(d, false),
{
    token_from(d, false)
}

/// Reads the entitlement token out of a reply.
pub fn ownership_list_token_from(d: TokenDownstream) -> (r: Result<String, AuthError>)
    ensures
        text_result(r) == token_result(d, true),
{
    token_from(d, true)
}

} // verus!
