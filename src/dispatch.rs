//! Routing: the table from request kind to query handler, and the decision of
//! what one request asks of the connection given the session's credentials.

use vstd::prelude::*;
use crate::request::{QueryParams, Request, RequestKind};
use crate::session::Credentials;

verus! {

/// The query handlers a request can be routed to, one per non-authentication kind.
#[derive(Debug, Clone, Copy, PartialEq, Eq, Structural)]
pub enum Handler {
    NodeStatus,
    PacketsForAllNodes,
    PacketsForNode,
    ThroughputForAllNodes,
    ThroughputForNode,
    ThroughputBySite,
    ThroughputByCircuit,
    RttForAllNodes,
    RttBySite,
    RttForNode,
    RttByCircuit,
    SiteStack,
    RootHeatMap,
    SiteHeatMap,
    PerfForNode,
    SiteTree,
    SiteInfo,
    SiteParents,
    Search,
    CircuitInfo,
}

/// The routing table: the handler for each kind, `None` for Auth and Login.
pub open spec fn handler_of(kind: RequestKind) -> Option<Handler> {
    match kind {
        RequestKind::Auth => None,
        RequestKind::Login => None,
        RequestKind::GetNodeStatus => Some(Handler::NodeStatus),
        RequestKind::PacketChart => Some(Handler::PacketsForAllNodes),
        RequestKind::PacketChartSingle => Some(Handler::PacketsForNode),
        RequestKind::ThroughputChart => Some(Handler::ThroughputForAllNodes),
        RequestKind::ThroughputChartSingle => Some(Handler::ThroughputForNode),
        RequestKind::ThroughputChartSite => Some(Handler::ThroughputBySite),
        RequestKind::ThroughputChartCircuit => Some(Handler::ThroughputByCircuit),
        RequestKind::RttChart => Some(Handler::RttForAllNodes),
        RequestKind::RttChartSite => Some(Handler::RttBySite),
        RequestKind::RttChartSingle => Some(Handler::RttForNode),
        RequestKind::RttChartCircuit => Some(Handler::RttByCircuit),
        RequestKind::SiteStack => Some(Handler::SiteStack),
        RequestKind::RootHeat => Some(Handler::RootHeatMap),
        RequestKind::SiteHeat => Some(Handler::SiteHeatMap),
        RequestKind::NodePerfChart => Some(Handler::PerfForNode),
        RequestKind::Tree => Some(Handler::SiteTree),
        RequestKind::SiteInfo => Some(Handler::SiteInfo),
        RequestKind::SiteParents => Some(Handler::SiteParents),
        RequestKind::Search => Some(Handler::Search),
        RequestKind::CircuitInfo => Some(Handler::CircuitInfo),
    }
}

/// Looks up the handler registered for `kind`.
pub fn handler_for(kind: RequestKind) -> (r: Option<Handler>)
    ensures
        r == handler_of(kind),
{
    match kind {
        RequestKind::Auth => None,
        RequestKind::Login => None,
        RequestKind::GetNodeStatus => Some(Handler::NodeStatus),
        RequestKind::PacketChart => Some(Handler::PacketsForAllNodes),
        RequestKind::PacketChartSingle => Some(Handler::PacketsForNode),
        RequestKind::ThroughputChart => Some(Handler::ThroughputForAllNodes),
        RequestKind::ThroughputChartSingle => Some(Handler::ThroughputForNode),
        RequestKind::ThroughputChartSite => Some(Handler::ThroughputBySite),
        RequestKind::ThroughputChartCircuit => Some(Handler::ThroughputByCircuit),
        RequestKind::RttChart => Some(Handler::RttForAllNodes),
        RequestKind::RttChartSite => Some(Handler::RttBySite),
        RequestKind::RttChartSingle => Some(Handler::RttForNode),
        RequestKind::RttChartCircuit => Some(Handler::RttByCircuit),
        RequestKind::SiteStack => Some(Handler::SiteStack),
        RequestKind::RootHeat => Some(Handler::RootHeatMap),
        RequestKind::SiteHeat => Some(Handler::SiteHeatMap),
        RequestKind::NodePerfChart => Some(Handler::PerfForNode),
        RequestKind::Tree => Some(Handler::SiteTree),
        RequestKind::SiteInfo => Some(Handler::SiteInfo),
        RequestKind::SiteParents => Some(Handler::SiteParents),
        RequestKind::Search => Some(Handler::Search),
        RequestKind::CircuitInfo => Some(Handler::CircuitInfo),
    }
}

/// The table is total over the kinds that need credentials, and gives
/// distinct kinds distinct handlers: every request reaches exactly one handler.
pub proof fn lemma_routing_table_exact(a: RequestKind, b: RequestKind)
    ensures
        handler_of(a) is None <==> a.is_authentication(),
        handler_of(a) is Some && handler_of(a) == handler_of(b) ==> a == b,
{
}

/// One invocation of a query handler.
#[derive(Debug, Clone, PartialEq, Eq)]
pub struct Query {
    pub handler: Handler,
    /// The tenant every query is scoped to.
    pub license_key: String,
    pub params: QueryParams,
}

/// What the connection must do with one request.
#[derive(Debug, Clone, PartialEq, Eq)]
pub enum Action {
    /// Validate a token with the credential store, then record the outcome.
    ValidateToken { token: String },
    /// Validate a license, user name and password, then record the outcome.
    ValidateLogin { license: String, username: String, password: String },
    /// Run one query handler and send whatever responses it produces.
    Run { query: Query },
    /// Drop the request: it needs credentials and the session has none.
    /// Nothing is sent; the event is only worth a diagnostic.
    Skip { kind: RequestKind },
}

/// The decision for one request: an optional best-effort token refresh,
/// to be made first and whose failure is ignored, then the action.
#[derive(Debug, Clone, PartialEq, Eq)]
pub struct Step {
    pub refresh: Option<String>,
    pub action: Action,
}

/// The action for `req` under the credentials `creds`.
pub open spec fn action_for(creds: Option<Credentials>, req: Request) -> Action {
    match req {
        Request::Auth { token } => Action::ValidateToken { token },
        Request::Login { license, username, password } => Action::ValidateLogin {
            license,
            username,
            password,
        },
        _ => match (creds, handler_of(req.spec_kind())) {
            (Some(c), Some(h)) => Action::Run {
                query: Query { handler: h, license_key: c.license_key, params: req.spec_params() },
            },
            _ => Action::Skip { kind: req.spec_kind() },
        },
    }
}

/// The token to refresh before acting on `req`: that of the session, for every
/// request but Auth and Login.
pub open spec fn refresh_for(creds: Option<Credentials>, req: Request) -> Option<String> {
    match creds {
        Some(c) => if req.spec_kind().is_authentication() {
            None
        } else {
            Some(c.token)
        },
        None => None,
    }
}

pub open spec fn step_for(creds: Option<Credentials>, req: Request) -> Step {
    Step { refresh: refresh_for(creds, req), action: action_for(creds, req) }
}

/// Decides what `req` asks of the connection under the credentials `creds`.
pub fn route(creds: &Option<Credentials>, req: &Request) -> (r: Step)
    ensures
        r == step_for(*creds, *req),
{
    let kind = req.kind();
    let refresh = match creds {
        Some(c) => match kind {
            RequestKind::Auth | RequestKind::Login => None,
            _ => Some(c.token.clone()),
        },
        None => None,
    };
    let action = match req {
        Request::Auth { token } => Action::ValidateToken { token: token.clone() },
        Request::Login { license, username, password } => Action::ValidateLogin {
            license: license.clone(),
            username: username.clone(),
            password: password.clone(),
        },
        _ => match (creds, handler_for(kind)) {
            (Some(c), Some(h)) => Action::Run {
                query: Query { handler: h, license_key: c.license_key.clone(), params: req.params() },
            },
            _ => Action::Skip { kind },
        },
    };
    Step { refresh, action }
}

} // verus!
