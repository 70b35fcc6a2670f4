//! The token workflow as a state machine. Each step names the outside work
//! to do next; the driver does it and hands back what came of it. Steps run
//! strictly in order and any failure is final, except for the entitlement
//! exchange at the end: when it fails the workflow still finishes with the
//! access token alone.

use vstd::prelude::*;

use crate::config::UplayConfig;
use crate::error::AuthError;
use crate::login::LoginCredentials;
use crate::ownership::{collect_owned_add_ons, find_product, lists_product, owned_add_ons, OwnedGame};

verus! {

/// What the workflow delivers.
#[derive(Clone, Debug)]
pub struct AuthResult {
    /// The access token.
    pub game_token: String,
    /// The entitlement token, when the add-on exchange ran and succeeded.
    pub ownership_token: Option<String>,
    /// The add-ons of the product that the account owns.
    pub owned_dlcs: Vec<u32>,
}

/// Where the workflow stands.
#[derive(Clone, Copy, Debug, PartialEq, Eq, Structural)]
pub enum FlowStage {
    LoggingIn,
    Connecting,
    AnnouncingVersion,
    Authenticating,
    OpeningOwnership,
    Initializing,
    RequestingOwnershipToken,
    OpeningTokenService,
    RequestingAccessToken,
    RequestingEntitlement,
    Closing,
    Done,
    Failed,
}

/// The outside work that the workflow asks for next.
#[derive(Debug)]
pub enum FlowAction {
    /// Run the identity exchange.
    Login { email: String, password: String },
    /// Open the transport session.
    Connect,
    /// Announce the client version; its failure does not stop the workflow.
    PushVersion,
    /// Authenticate the session.
    Authenticate { ticket: String, keep_alive: bool },
    /// Open the ownership channel for this identity.
    OpenOwnership { ticket: String, session_id: String },
    /// List the account's products.
    InitializeOwnership,
    /// Ask for the ownership token of the product.
    GetOwnershipToken { product_id: u32 },
    /// Open the token-issuance channel.
    OpenTokenService,
    /// Exchange the ownership token for an access token.
    GetAccessToken { ownership_token: String, request_token: String },
    /// Exchange the access token for an entitlement token over `add_ons`.
    GetEntitlementToken { product_id: u32, access_token: String, add_ons: Vec<u32> },
    /// Close the transport session; failures are ignored.
    Disconnect,
    /// The workflow succeeded.
    Finish(AuthResult),
    /// The workflow failed.
    Abort(AuthError),
}

/// What came of the work that the workflow asked for.
#[derive(Debug)]
pub enum FlowEvent {
    LoggedIn(Result<LoginCredentials, AuthError>),
    Connected(Result<(), AuthError>),
    VersionPushed(Result<(), AuthError>),
    Authenticated(Result<bool, AuthError>),
    OwnershipOpened(Result<(), AuthError>),
    OwnedGames(Result<Vec<OwnedGame>, AuthError>),
    OwnershipToken(Result<(String, u64), AuthError>),
    TokenServiceOpened(Result<(), AuthError>),
    AccessToken(Result<String, AuthError>),
    EntitlementToken(Result<String, AuthError>),
    Disconnected,
}

/// The workflow's state: its stage and what the earlier steps produced.
#[derive(Clone, Debug)]
pub struct AuthFlow {
    pub stage: FlowStage,
    pub app_id: u32,
    pub request_token: String,
    /// Add-ons that the caller asked to have validated; empty when none.
    pub dlcs: Vec<u32>,
    pub ticket: String,
    pub session_id: String,
    pub owned_dlcs: Vec<u32>,
    pub ownership_token: String,
    pub game_token: String,
    pub entitlement: Option<String>,
}

/// `a` and `b` agree on everything but the stage.
pub open spec fn same_data(a: AuthFlow, b: AuthFlow) -> bool {
    &&& a.app_id == b.app_id
    &&& a.request_token@ == b.request_token@
    &&& a.dlcs@ == b.dlcs@
    &&& a.ticket@ == b.ticket@
    &&& a.session_id@ == b.session_id@
    &&& a.owned_dlcs@ == b.owned_dlcs@
    &&& a.ownership_token@ == b.ownership_token@
    &&& a.game_token@ == b.game_token@
    &&& a.entitlement == b.entitlement
}

/// The workflow has failed with `e`.
pub open spec fn fails_with(after: AuthFlow, act: FlowAction, e: AuthError) -> bool {
    after.stage == FlowStage::Failed && act == FlowAction::Abort(e)
}

/// The index of the first record of product `id`.
pub open spec fn first_record(records: Seq<OwnedGame>, id: u32) -> int {
    choose|i: int|
        0 <= i < records.len() && records[i].product_id == id && forall|j: int|
            0 <= j < i ==> records[j].product_id != id
}

/// The add-ons to validate: the caller's when it gave any, else the owned
/// ones.
pub open spec fn add_ons_to_validate(dlcs: Seq<u32>, owned: Seq<u32>) -> Seq<u32> {
    if dlcs.len() > 0 {
        dlcs
    } else {
        owned
    }
}

/// One step of the workflow: from state `before` and event `ev` to state
/// `after` and the next action `act`. An event that does not answer the
/// work the stage asked for fails the workflow.
pub open spec fn flow_step(before: AuthFlow, ev: FlowEvent, after: AuthFlow, act: FlowAction) -> bool {
    let out_of_order = fails_with(after, act, AuthError::UnexpectedResponse);
    match before.stage {
        FlowStage::LoggingIn => match ev {
            FlowEvent::LoggedIn(Ok(c)) => {
                &&& after.stage == FlowStage::Connecting
                &&& after.ticket@ == c.ticket@
                &&& after.session_id@ == c.session_id@
                &&& same_data(
                    before,
                    AuthFlow { ticket: before.ticket, session_id: before.session_id, ..after },
                )
                &&& act is Connect
            },
            FlowEvent::LoggedIn(Err(e)) => fails_with(after, act, e),
            _ => out_of_order,
        },
        FlowStage::Connecting => match ev {
            FlowEvent::Connected(Ok(())) => same_data(before, after) && after.stage
                == FlowStage::AnnouncingVersion && act is PushVersion,
            FlowEvent::Connected(Err(e)) => fails_with(after, act, e),
            _ => out_of_order,
        },
        FlowStage::AnnouncingVersion => match ev {
            FlowEvent::VersionPushed(_) => {
                &&& same_data(before, after)
                &&& after.stage == FlowStage::Authenticating
                &&& act matches FlowAction::Authenticate { ticket, keep_alive }
                &&& ticket@ == before.ticket@
                &&& keep_alive
            },
            _ => out_of_order,
        },
        FlowStage::Authenticating => match ev {
            FlowEvent::Authenticated(Ok(true)) => {
                &&& same_data(before, after)
                &&& after.stage == FlowStage::OpeningOwnership
                &&& act matches FlowAction::OpenOwnership { ticket, session_id }
                &&& ticket@ == before.ticket@
                &&& session_id@ == before.session_id@
            },
            FlowEvent::Authenticated(Ok(false)) => fails_with(after, act, AuthError::AuthRejected),
            FlowEvent::Authenticated(Err(e)) => fails_with(after, act, e),
            _ => out_of_order,
        },
        FlowStage::OpeningOwnership => match ev {
            FlowEvent::OwnershipOpened(Ok(())) => same_data(before, after) && after.stage
                == FlowStage::Initializing && act is InitializeOwnership,
            FlowEvent::OwnershipOpened(Err(e)) => fails_with(after, act, e),
            _ => out_of_order,
        },
        FlowStage::Initializing => match ev {
            FlowEvent::OwnedGames(Ok(records)) => if !lists_product(records@, before.app_id) {
                fails_with(after, act, AuthError::NotOwned)
            } else {
                &&& after.stage == FlowStage::RequestingOwnershipToken
                &&& after.owned_dlcs@ == owned_add_ons(
                    records@,
                    records@[first_record(records@, before.app_id)],
                )
                &&& same_data(before, AuthFlow { owned_dlcs: before.owned_dlcs, ..after })
                &&& act == FlowAction::GetOwnershipToken { product_id: before.app_id }
            },
            FlowEvent::OwnedGames(Err(e)) => fails_with(after, act, e),
            _ => out_of_order,
        },
        FlowStage::RequestingOwnershipToken => match ev {
            FlowEvent::OwnershipToken(Ok(t)) => {
                &&& after.stage == FlowStage::OpeningTokenService
                &&& after.ownership_token@ == t.0@
                &&& same_data(before, AuthFlow { ownership_token: before.ownership_token, ..after })
                &&& act is OpenTokenService
            },
            FlowEvent::OwnershipToken(Err(e)) => fails_with(after, act, e),
            _ => out_of_order,
        },
        FlowStage::OpeningTokenService => match ev {
            FlowEvent::TokenServiceOpened(Ok(())) => {
                &&& same_data(before, after)
                &&& after.stage == FlowStage::RequestingAccessToken
                &&& act matches FlowAction::GetAccessToken { ownership_token, request_token }
                &&& ownership_token@ == before.ownership_token@
                &&& request_token@ == before.request_token@
            },
            FlowEvent::TokenServiceOpened(Err(e)) => fails_with(after, act, e),
            _ => out_of_order,
        },
        FlowStage::RequestingAccessToken => match ev {
            FlowEvent::AccessToken(Ok(t)) => {
                &&& after.game_token@ == t@
                &&& same_data(before, AuthFlow { game_token: before.game_token, ..after })
                &&& if before.dlcs@.len() > 0 || before.owned_dlcs@.len() > 0 {
                    &&& after.stage == FlowStage::RequestingEntitlement
                    &&& act matches FlowAction::GetEntitlementToken {
                        product_id,
                        access_token,
                        add_ons,
                    }
                    &&& product_id == before.app_id
                    &&& access_token@ == t@
                    &&& add_ons@ == add_ons_to_validate(before.dlcs@, before.owned_dlcs@)
                } else {
                    after.stage == FlowStage::Closing && act is Disconnect
                }
            },
            FlowEvent::AccessToken(Err(e)) => fails_with(after, act, e),
            _ => out_of_order,
        },
        FlowStage::RequestingEntitlement => match ev {
            FlowEvent::EntitlementToken(r) => {
                &&& after.stage == FlowStage::Closing
                &&& act is Disconnect
                &&& same_data(before, AuthFlow { entitlement: before.entitlement, ..after })
                &&& match r {
                    Ok(t) => after.entitlement matches Some(s) && s@ == t@,
                    Err(_) => after.entitlement is None,
                }
            },
            _ => out_of_order,
        },
        FlowStage::Closing => match ev {
            FlowEvent::Disconnected => {
                &&& after.stage == FlowStage::Done
                &&& same_data(before, after)
                &&& act matches FlowAction::Finish(res)
                &&& res.game_token@ == before.game_token@
                &&& res.owned_dlcs@ == before.owned_dlcs@
                &&& match before.entitlement {
                    Some(s) => res.ownership_token matches Some(o) && o@ == s@,
                    None => res.ownership_token is None,
                }
            },
            _ => out_of_order,
        },
        _ => out_of_order,
    }
}

fn fail(flow: &mut AuthFlow, e: AuthError) -> (act: FlowAction)
    ensures
        fails_with(*final(flow), act, e),
{
    flow.stage = FlowStage::Failed;
    FlowAction::Abort(e)
}

fn copy_ids(v: &Vec<u32>) -> (r: Vec<u32>)
    ensures
        r@ == v@,
{
    let mut r: Vec<u32> = Vec::new();
    let mut i: usize = 0;
    while i < v.len()
        invariant
            i <= v@.len(),
            r@ == v@.subrange(0, i as int),
        decreases v@.len() - i,
    {
        r.push(v[i]);
        i = i + 1;
        assert(r@ =~= v@.subrange(0, i as int));
    }
    assert(v@.subrange(0, v@.len() as int) =~= v@);
    r
}

impl AuthFlow {
    /// Takes what came of the last action and says what to do next.
    pub fn on_event(&mut self, ev: FlowEvent) -> (act: FlowAction)
        ensures
            flow_step(*old(self), ev, *final(self), act),
    {
        match self.stage {
            FlowStage::LoggingIn => match ev {
                FlowEvent::LoggedIn(Ok(c)) => {
                    self.stage = FlowStage::Connecting;
                    self.ticket = c.ticket;
                    self.session_id = c.session_id;
                    FlowAction::Connect
                },
                FlowEvent::LoggedIn(Err(e)) => fail(self, e),
                _ => fail(self, AuthError::UnexpectedResponse),
            },
            FlowStage::Connecting => match ev {
                FlowEvent::Connected(Ok(())) => {
                    self.stage = FlowStage::AnnouncingVersion;
                    FlowAction::PushVersion
                },
                FlowEvent::Connected(Err(e)) => fail(self, e),
                _ => fail(self, AuthError::UnexpectedResponse),
            },
            FlowStage::AnnouncingVersion => match ev {
                FlowEvent::VersionPushed(_) => {
                    self.stage = FlowStage::Authenticating;
                    FlowAction::Authenticate { ticket: self.ticket.clone(), keep_alive: true }
                },
                _ => fail(self, AuthError::UnexpectedResponse),
            },
            FlowStage::Authenticating => match ev {
                FlowEvent::Authenticated(Ok(ok)) => {
                    if ok {
                        self.stage = FlowStage::OpeningOwnership;
                        FlowAction::OpenOwnership {
                            ticket: self.ticket.clone(),
                            session_id: self.session_id.clone(),
                        }
                    } else {
                        fail(self, AuthError::AuthRejected)
                    }
                },
                FlowEvent::Authenticated(Err(e)) => fail(self, e),
                _ => fail(self, AuthError::UnexpectedResponse),
            },
            FlowStage::OpeningOwnership => match ev {
                FlowEvent::OwnershipOpened(Ok(())) => {
                    self.stage = FlowStage::Initializing;
                    FlowAction::InitializeOwnership
                },
                FlowEvent::OwnershipOpened(Err(e)) => fail(self, e),
                _ => fail(self, AuthError::UnexpectedResponse),
            },
            FlowStage::Initializing => match ev {
                FlowEvent::OwnedGames(Ok(records)) => match find_product(&records, self.app_id) {
                    None => fail(self, AuthError::NotOwned),
                    Some(i) => {
                        proof {
                            let k = first_record(records@, self.app_id);
                            assert(0 <= i < records@.len() && records@[i as int].product_id
                                == self.app_id);
                            assert(0 <= k < records@.len() && records@[k].product_id == self.app_id
                                && forall|j: int| 0 <= j < k ==> records@[j].product_id != self.app_id);
                            assert(k == i as int);
                        }
                        self.owned_dlcs = collect_owned_add_ons(&records, &records[i]);
                        self.stage = FlowStage::RequestingOwnershipToken;
                        FlowAction::GetOwnershipToken { product_id: self.app_id }
                    },
                },
                FlowEvent::OwnedGames(Err(e)) => fail(self, e),
                _ => fail(self, AuthError::UnexpectedResponse),
            },
            FlowStage::RequestingOwnershipToken => match ev {
                FlowEvent::OwnershipToken(Ok(t)) => {
                    self.ownership_token = t.0;
                    self.stage = FlowStage::OpeningTokenService;
                    FlowAction::OpenTokenService
                },
                FlowEvent::OwnershipToken(Err(e)) => fail(self, e),
                _ => fail(self, AuthError::UnexpectedResponse),
            },
            FlowStage::OpeningTokenService => match ev {
                FlowEvent::TokenServiceOpened(Ok(())) => {
                    self.stage = FlowStage::RequestingAccessToken;
                    FlowAction::GetAccessToken {
                        ownership_token: self.ownership_token.clone(),
                        request_token: self.request_token.clone(),
                    }
                },
                FlowEvent::TokenServiceOpened(Err(e)) => fail(self, e),
                _ => fail(self, AuthError::UnexpectedResponse),
            },
            FlowStage::RequestingAccessToken => match ev {
                FlowEvent::AccessToken(Ok(t)) => {
                    self.game_token = t.clone();
                    if self.dlcs.len() > 0 || self.owned_dlcs.len() > 0 {
                        let add_ons = if self.dlcs.len() > 0 {
                            copy_ids(&self.dlcs)
                        } else {
                            copy_ids(&self.owned_dlcs)
                        };
                        self.stage = FlowStage::RequestingEntitlement;
                        FlowAction::GetEntitlementToken {
                            product_id: self.app_id,
                            access_token: t,
                            add_ons,
                        }
                    } else {
                        self.stage = FlowStage::Closing;
                        FlowAction::Disconnect
                    }
                },
                FlowEvent::AccessToken(Err(e)) => fail(self, e),
                _ => fail(self, AuthError::UnexpectedResponse),
            },
            FlowStage::RequestingEntitlement => match ev {
                FlowEvent::EntitlementToken(r) => {
                    self.entitlement = match r {
                        Ok(t) => Some(t),
                        Err(_) => None,
                    };
                    self.stage = FlowStage::Closing;
                    FlowAction::Disconnect
                },
                _ => fail(self, AuthError::UnexpectedResponse),
            },
            FlowStage::Closing => match ev {
                FlowEvent::Disconnected => {
                    self.stage = FlowStage::Done;
                    FlowAction::Finish(
                        AuthResult {
                            game_token: self.game_token.clone(),
                            ownership_token: self.entitlement.clone(),
                            owned_dlcs: copy_ids(&self.owned_dlcs),
                        },
                    )
                },
                _ => fail(self, AuthError::UnexpectedResponse),
            },
            _ => fail(self, AuthError::UnexpectedResponse),
        }
    }
}

/// `flow` is the workflow for `config`, `request_token` and `dlcs` before
/// any step has run.
pub open spec fn is_start(flow: AuthFlow, config: UplayConfig, request_token: Seq<char>, dlcs: Seq<u32>) -> bool {
    &&& flow.stage == FlowStage::LoggingIn
    &&& flow.app_id == config.app_id
    &&& flow.request_token@ == request_token
    &&& flow.dlcs@ == dlcs
    &&& flow.owned_dlcs@.len() == 0
    &&& flow.entitlement is None
}

/// Starts the workflow that authenticates `config`'s account, proves that
/// it owns `config.app_id` and exchanges that proof and `request_token` for
/// an access token, and for an entitlement token over `dlcs` (or, when
/// `dlcs` is empty, over the owned add-ons, if any). Gives the workflow and
/// its first action, the identity exchange; `AuthFlow::on_event` does the
/// rest.
pub fn authenticate_and_get_tokens(config: &UplayConfig, request_token: &str, dlcs: Vec<u32>) -> (r: (
    AuthFlow,
    FlowAction,
))
    ensures
        is_start(r.0, *config, request_token@, dlcs@),
        r.1 matches FlowAction::Login { email, password } && email@ == config.email@
            && password@ == config.password@,
{
    let flow = AuthFlow {
        stage: FlowStage::LoggingIn,
        app_id: config.app_id,
        request_token: request_token.to_string(),
        dlcs,
        ticket: String::new(),
        session_id: String::new(),
        owned_dlcs: Vec::new(),
        ownership_token: String::new(),
        game_token: String::new(),
        entitlement: None,
    };
    (flow, FlowAction::Login { email: config.email.clone(), password: config.password.clone() })
}

/// When the entitlement exchange fails after the earlier steps succeeded,
/// the workflow still finishes: with the access token it has and no
/// entitlement token.
pub proof fn lemma_entitlement_failure_tolerated(
    before: AuthFlow,
    e: AuthError,
    mid: AuthFlow,
    a1: FlowAction,
    after: AuthFlow,
    a2: FlowAction,
)
    requires
        before.stage == FlowStage::RequestingEntitlement,
        flow_step(before, FlowEvent::EntitlementToken(Err(e)), mid, a1),
        flow_step(mid, FlowEvent::Disconnected, after, a2),
    ensures
        a1 is Disconnect,
        after.stage == FlowStage::Done,
        a2 matches FlowAction::Finish(res) && res.game_token@ == before.game_token@
            && res.ownership_token is None && res.owned_dlcs@ == before.owned_dlcs@,
{
}

} // verus!
