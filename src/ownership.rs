//! The ownership service: its requests, what its replies mean, and which
//! add-ons of a product the account owns.

use vstd::prelude::*;

use crate::error::AuthError;

verus! {

/// Service name of the ownership channel.
pub open spec fn ownership_service_text() -> Seq<char> {
    "ownership_service"@
}

/// Version of the ownership schema that the client speaks.
pub const OWNERSHIP_PROTO_VERSION: u32 = 7;

/// One product as the ownership service reports it.
#[derive(Clone, Debug)]
pub struct OwnedGame {
    pub product_id: u32,
    pub owned: Option<bool>,
    pub product_associations: Vec<u32>,
}

/// What an ownership request asks.
#[derive(Clone, Debug)]
pub enum OwnershipCall {
    /// Negotiate and list the account's products with their associations.
    Initialize { get_associations: bool, proto_version: u32, use_staging: bool },
    /// Ask for a signed ownership token for one product.
    OwnershipToken { product_id: u32 },
}

/// One request on the ownership channel.
#[derive(Clone, Debug)]
pub struct OwnershipReq {
    pub request_id: u32,
    pub ubi_ticket: String,
    pub ubi_session_id: String,
    pub call: OwnershipCall,
}

/// The list that an initialize reply carries, when it carries one.
#[derive(Clone, Debug)]
pub struct InitializeRsp {
    pub owned_games: Option<Vec<OwnedGame>>,
}

/// The ownership token and its expiry, as far as the reply gives them.
#[derive(Clone, Debug)]
pub struct OwnershipTokenRsp {
    pub token: Option<String>,
    pub expiration: Option<u64>,
}

/// The parts of an ownership reply that the client reads.
#[derive(Clone, Debug)]
pub struct OwnershipRsp {
    pub initialize_rsp: Option<InitializeRsp>,
    pub ownership_token_rsp: Option<OwnershipTokenRsp>,
}

/// One message from the ownership service.
#[derive(Clone, Debug)]
pub struct OwnershipDownstream {
    pub response: Option<OwnershipRsp>,
}

/// The client side of an open ownership channel: its handle, the identity
/// it speaks for, and its own request counter.
#[derive(Clone, Debug)]
pub struct OwnershipConnection {
    pub connection_id: u32,
    pub ticket: String,
    pub session_id: String,
    pub next_id: u32,
}

/// `q` is a request of `conn` under id `id` that makes call `call`.
pub open spec fn is_ownership_request(
    q: OwnershipReq,
    conn: OwnershipConnection,
    id: u32,
    call: OwnershipCall,
) -> bool {
    &&& q.request_id == id
    &&& q.ubi_ticket@ == conn.ticket@
    &&& q.ubi_session_id@ == conn.session_id@
    &&& q.call == call
}

impl OwnershipConnection {
    /// The channel opened under `connection_id`, for `ticket` and
    /// `session_id`; its first request takes id 1.
    pub fn new(connection_id: u32, ticket: String, session_id: String) -> (r: OwnershipConnection)
        ensures
            r.connection_id == connection_id,
            r.ticket == ticket,
            r.session_id == session_id,
            r.next_id == 1,
    {
        OwnershipConnection { connection_id, ticket, session_id, next_id: 1 }
    }

    /// Takes the channel's next request id.
    pub fn next_request_id(&mut self) -> (r: u32)
        requires
            old(self).next_id < u32::MAX,
        ensures
            r == old(self).next_id,
            *final(self) == (OwnershipConnection { next_id: (old(self).next_id + 1) as u32, ..*old(self) }),
    {
        let id = self.next_id;
        self.next_id = id + 1;
        id
    }

    fn request(&mut self, call: OwnershipCall) -> (r: OwnershipReq)
        requires
            old(self).next_id < u32::MAX,
        ensures
            *final(self) == (OwnershipConnection { next_id: (old(self).next_id + 1) as u32, ..*old(self) }),
            is_ownership_request(r, *old(self), old(self).next_id, call),
    {
        let id = self.next_request_id();
        OwnershipReq {
            request_id: id,
            ubi_ticket: self.ticket.clone(),
            ubi_session_id: self.session_id.clone(),
            call,
        }
    }

    /// The initialize request, which lists the account's products.
    pub fn initialize_request(&mut self) -> (r: OwnershipReq)
        requires
            old(self).next_id < u32::MAX,
        ensures
            *final(self) == (OwnershipConnection { next_id: (old(self).next_id + 1) as u32, ..*old(self) }),
            is_ownership_request(
                r,
                *old(self),
                old(self).next_id,
                OwnershipCall::Initialize {
                    get_associations: true,
                    proto_version: OWNERSHIP_PROTO_VERSION,
                    use_staging: false,
                },
            ),
    {
        self.request(
            OwnershipCall::Initialize {
                get_associations: true,
                proto_version: OWNERSHIP_PROTO_VERSION,
                use_staging: false,
            },
        )
    }

    /// The request for an ownership token of `product_id`.
    pub fn ownership_token_request(&mut self, product_id: u32) -> (r: OwnershipReq)
        requires
            old(self).next_id < u32::MAX,
        ensures
            *final(self) == (OwnershipConnection { next_id: (old(self).next_id + 1) as u32, ..*old(self) }),
            is_ownership_request(
                r,
                *old(self),
                old(self).next_id,
                OwnershipCall::OwnershipToken { product_id },
            ),
    {
        self.request(OwnershipCall::OwnershipToken { product_id })
    }
}

/// The product list of an initialize reply; a reply that has the initialize
/// part but no list means no products.
pub open spec fn owned_games_result(d: OwnershipDownstream) -> Result<Seq<OwnedGame>, AuthError> {
    match d.response {
        Some(rsp) => match rsp.initialize_rsp {
            Some(init) => match init.owned_games {
                Some(games) => Ok(games@),
                None => Ok(Seq::empty()),
            },
            None => Err(AuthError::UnexpectedResponse),
        },
        None => Err(AuthError::UnexpectedResponse),
    }
}

/// Reads the product list out of an initialize reply.
pub fn owned_games_from(d: OwnershipDownstream) -> (r: Result<Vec<OwnedGame>, AuthError>)
    ensures
        owned_games_result(d) matches Err(e) ==> r == Err::<Vec<OwnedGame>, AuthError>(e),
        owned_games_result(d) matches Ok(g) ==> (r matches Ok(v) && v@ == g),
{
    match d.response {
        Some(rsp) => match rsp.initialize_rsp {
            Some(init) => match init.owned_games {
                Some(games) => Ok(games),
                None => Ok(Vec::new()),
            },
            None => Err(AuthError::UnexpectedResponse),
        },
        None => Err(AuthError::UnexpectedResponse),
    }
}

/// The ownership token and its expiry that a reply gives: a missing token
/// is empty, a missing expiry is 0.
pub open spec fn ownership_token_result(d: OwnershipDownstream) -> Result<(Seq<char>, u64), AuthError> {
    match d.response {
        Some(rsp) => match rsp.ownership_token_rsp {
            Some(t) => Ok(
                (
                    match t.token {
                        Some(s) => s@,
                        None => Seq::empty(),
                    },
                    match t.expiration {
                        Some(e) => e,
                        None => 0,
                    },
                ),
            ),
            None => Err(AuthError::UnexpectedResponse),
        },
        None => Err(AuthError::UnexpectedResponse),
    }
}

/// Reads the ownership token and its expiry out of a reply.
pub fn ownership_token_from(d: OwnershipDownstream) -> (r: Result<(String, u64), AuthError>)
    ensures
        ownership_token_result(d) == match r {
            Ok(p) => Ok((p.0@, p.1)),
            Err(e) => Err::<(Seq<char>, u64), AuthError>(e),
        },
{
    match d.response {
        Some(rsp) => match rsp.ownership_token_rsp {
            Some(t) => {
                let token = match t.token {
                    Some(s) => s,
                    None => String::new(),
                };
                let expiration: u64 = match t.expiration {
                    Some(e) => e,
                    None => 0,
                };
                Ok((token, expiration))
            },
            None => Err(AuthError::UnexpectedResponse),
        },
        None => Err(AuthError::UnexpectedResponse),
    }
}

/// `records` lists product `id`.
pub open spec fn lists_product(records: Seq<OwnedGame>, id: u32) -> bool {
    exists|i: int| 0 <= i < records.len() && records[i].product_id == id
}

/// The add-ons of `target` that the account owns: in record order, the ids
/// of the records marked owned whose id the target's associations list.
pub open spec fn owned_add_ons(records: Seq<OwnedGame>, target: OwnedGame) -> Seq<u32>
    decreases records.len(),
{
    if records.len() == 0 {
        Seq::empty()
    } else {
        let rest = owned_add_ons(records.drop_last(), target);
        let g = records.last();
        if g.owned == Some(true) && target.product_associations@.contains(g.product_id) {
            rest.push(g.product_id)
        } else {
            rest
        }
    }
}

/// Whether `list` holds `id`.
pub fn contains_id(list: &Vec<u32>, id: u32) -> (r: bool)
    ensures
        r == list@.contains(id),
{
    let mut i: usize = 0;
    while i < list.len()
        invariant
            i <= list@.len(),
            forall|j: int| 0 <= j < i ==> list@[j] != id,
        decreases list@.len() - i,
    {
        if list[i] == id {
            assert(list@[i as int] == id);
            return true;
        }
        i = i + 1;
    }
    false
}

/// Finds the record of product `product_id`: the first one, if any.
pub fn find_product(records: &Vec<OwnedGame>, product_id: u32) -> (r: Option<usize>)
    ensures
        r is None <==> !lists_product(records@, product_id),
        r matches Some(i) ==> i < records@.len() && records@[i as int].product_id == product_id
            && forall|j: int| 0 <= j < i ==> records@[j].product_id != product_id,
{
    let mut i: usize = 0;
    while i < records.len()
        invariant
            i <= records@.len(),
            forall|j: int| 0 <= j < i ==> records@[j].product_id != product_id,
        decreases records@.len() - i,
    {
        if records[i].product_id == product_id {
            return Some(i);
        }
        i = i + 1;
    }
    None
}

/// The ids of the add-ons of `target` that the account owns.
pub fn collect_owned_add_ons(records: &Vec<OwnedGame>, target: &OwnedGame) -> (r: Vec<u32>)
    ensures
        r@ == owned_add_ons(records@, *target),
{
    let mut r: Vec<u32> = Vec::new();
    let mut i: usize = 0;
    while i < records.len()
        invariant
            i <= records@.len(),
            r@ == owned_add_ons(records@.subrange(0, i as int), *target),
        decreases records@.len() - i,
    {
        let g = &records[i];
        assert(records@.subrange(0, i + 1).drop_last() =~= records@.subrange(0, i as int));
        let owned = match g.owned {
            Some(b) => b,
            None => false,
        };
        if owned && contains_id(&target.product_associations, g.product_id) {
            r.push(g.product_id);
        }
        i = i + 1;
    }
    assert(records@.subrange(0, records@.len() as int) =~= records@);
    r
}

} // verus!
