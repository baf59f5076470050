//! The closed set of operations a client may ask for, and the parameters each carries.

use vstd::prelude::*;

verus! {

/// One decoded client request.
#[derive(Debug, Clone, PartialEq, Eq)]
pub enum Request {
    Auth { token: String },
    Login { license: String, username: String, password: String },
    GetNodeStatus,
    PacketChart { period: String },
    PacketChartSingle { period: String, node_id: String, node_name: String },
    ThroughputChart { period: String },
    ThroughputChartSingle { period: String, node_id: String, node_name: String },
    ThroughputChartSite { period: String, site_id: String },
    ThroughputChartCircuit { period: String, circuit_id: String },
    RttChart { period: String },
    RttChartSite { period: String, site_id: String },
    RttChartSingle { period: String, node_id: String, node_name: String },
    RttChartCircuit { period: String, circuit_id: String },
    SiteStack { period: String, site_id: String },
    RootHeat { period: String },
    SiteHeat { period: String, site_id: String },
    NodePerfChart { period: String, node_id: String, node_name: String },
    Tree { parent: String },
    SiteInfo { site_id: String },
    SiteParents { site_id: String },
    Search { term: String },
    CircuitInfo { circuit_id: String },
}

/// The tag of a request, without its parameters.
#[derive(Debug, Clone, Copy, PartialEq, Eq, Structural)]
pub enum RequestKind {
    Auth,
    Login,
    GetNodeStatus,
    PacketChart,
    PacketChartSingle,
    ThroughputChart,
    ThroughputChartSingle,
    ThroughputChartSite,
    ThroughputChartCircuit,
    RttChart,
    RttChartSite,
    RttChartSingle,
    RttChartCircuit,
    SiteStack,
    RootHeat,
    SiteHeat,
    NodePerfChart,
    Tree,
    SiteInfo,
    SiteParents,
    Search,
    CircuitInfo,
}

/// The parameters a query handler receives besides the license key.
/// A field is `None` where the request kind carries no such parameter.
#[derive(Debug, Clone, PartialEq, Eq)]
pub struct QueryParams {
    /// The period token, resolved into a time range by the handler's side.
    pub period: Option<String>,
    /// The node, site or circuit the query is about (the parent, for a tree).
    pub target_id: Option<String>,
    /// The display name of the node the query is about.
    pub target_name: Option<String>,
    /// The search term.
    pub term: Option<String>,
}

/// A parameter set with every field given.
pub open spec fn params(
    period: Option<String>,
    target_id: Option<String>,
    target_name: Option<String>,
    term: Option<String>,
) -> QueryParams {
    QueryParams { period, target_id, target_name, term }
}

impl RequestKind {
    /// Auth and Login are the only kinds handled without credentials.
    pub open spec fn is_authentication(self) -> bool {
        self is Auth || self is Login
    }
}

impl Request {
    pub open spec fn spec_kind(&self) -> RequestKind {
        match self {
            Request::Auth { .. } => RequestKind::Auth,
            Request::Login { .. } => RequestKind::Login,
            Request::GetNodeStatus => RequestKind::GetNodeStatus,
            Request::PacketChart { .. } => RequestKind::PacketChart,
            Request::PacketChartSingle { .. } => RequestKind::PacketChartSingle,
            Request::ThroughputChart { .. } => RequestKind::ThroughputChart,
            Request::ThroughputChartSingle { .. } => RequestKind::ThroughputChartSingle,
            Request::ThroughputChartSite { .. } => RequestKind::ThroughputChartSite,
            Request::ThroughputChartCircuit { .. } => RequestKind::ThroughputChartCircuit,
            Request::RttChart { .. } => RequestKind::RttChart,
            Request::RttChartSite { .. } => RequestKind::RttChartSite,
            Request::RttChartSingle { .. } => RequestKind::RttChartSingle,
            Request::RttChartCircuit { .. } => RequestKind::RttChartCircuit,
            Request::SiteStack { .. } => RequestKind::SiteStack,
            Request::RootHeat { .. } => RequestKind::RootHeat,
            Request::SiteHeat { .. } => RequestKind::SiteHeat,
            Request::NodePerfChart { .. } => RequestKind::NodePerfChart,
            Request::Tree { .. } => RequestKind::Tree,
            Request::SiteInfo { .. } => RequestKind::SiteInfo,
            Request::SiteParents { .. } => RequestKind::SiteParents,
            Request::Search { .. } => RequestKind::Search,
            Request::CircuitInfo { .. } => RequestKind::CircuitInfo,
        }
    }

    /// The tag of this request.
    pub fn kind(&self) -> (r: RequestKind)
        ensures
            r == self.spec_kind(),
    {
        match self {
            Request::Auth { .. } => RequestKind::Auth,
            Request::Login { .. } => RequestKind::Login,
            Request::GetNodeStatus => RequestKind::GetNodeStatus,
            Request::PacketChart { .. } => RequestKind::PacketChart,
            Request::PacketChartSingle { .. } => RequestKind::PacketChartSingle,
            Request::ThroughputChart { .. } => RequestKind::ThroughputChart,
            Request::ThroughputChartSingle { .. } => RequestKind::ThroughputChartSingle,
            Request::ThroughputChartSite { .. } => RequestKind::ThroughputChartSite,
            Request::ThroughputChartCircuit { .. } => RequestKind::ThroughputChartCircuit,
            Request::RttChart { .. } => RequestKind::RttChart,
            Request::RttChartSite { .. } => RequestKind::RttChartSite,
            Request::RttChartSingle { .. } => RequestKind::RttChartSingle,
            Request::RttChartCircuit { .. } => RequestKind::RttChartCircuit,
            Request::SiteStack { .. } => RequestKind::SiteStack,
            Request::RootHeat { .. } => RequestKind::RootHeat,
            Request::SiteHeat { .. } => RequestKind::SiteHeat,
            Request::NodePerfChart { .. } => RequestKind::NodePerfChart,
            Request::Tree { .. } => RequestKind::Tree,
            Request::SiteInfo { .. } => RequestKind::SiteInfo,
            Request::SiteParents { .. } => RequestKind::SiteParents,
            Request::Search { .. } => RequestKind::Search,
            Request::CircuitInfo { .. } => RequestKind::CircuitInfo,
        }
    }

    /// The parameters this request hands to its query handler.
    pub open spec fn spec_params(&self) -> QueryParams {
        match self {
            Request::PacketChart { period }
            | Request::ThroughputChart { period }
            | Request::RttChart { period }
            | Request::RootHeat { period } => params(Some(*period), None, None, None),
            Request::PacketChartSingle { period, node_id, node_name }
            | Request::ThroughputChartSingle { period, node_id, node_name }
            | Request::RttChartSingle { period, node_id, node_name }
            | Request::NodePerfChart { period, node_id, node_name } => params(
                Some(*period),
                Some(*node_id),
                Some(*node_name),
                None,
            ),
            Request::ThroughputChartSite { period, site_id }
            | Request::RttChartSite { period, site_id }
            | Request::SiteStack { period, site_id }
            | Request::SiteHeat { period, site_id } => params(Some(*period), Some(*site_id), None, None),
            Request::ThroughputChartCircuit { period, circuit_id }
            | Request::RttChartCircuit { period, circuit_id } => params(
                Some(*period),
                Some(*circuit_id),
                None,
                None,
            ),
            Request::Tree { parent } => params(None, Some(*parent), None, None),
            Request::SiteInfo { site_id } | Request::SiteParents { site_id } => params(
                None,
                Some(*site_id),
                None,
                None,
            ),
            Request::CircuitInfo { circuit_id } => params(None, Some(*circuit_id), None, None),
            Request::Search { term } => params(None, None, None, Some(*term)),
            _ => params(None, None, None, None),
        }
    }

    /// Copies out the parameters this request hands to its query handler.
    pub fn params(&self) -> (r: QueryParams)
        ensures
            r == self.spec_params(),
    {
        match self {
            Request::PacketChart { period }
            | Request::ThroughputChart { period }
            | Request::RttChart { period }
            | Request::RootHeat { period } => QueryParams {
                period: Some(period.clone()),
                target_id: None,
                target_name: None,
                term: None,
            },
            Request::PacketChartSingle { period, node_id, node_name }
            | Request::ThroughputChartSingle { period, node_id, node_name }
            | Request::RttChartSingle { period, node_id, node_name }
            | Request::NodePerfChart { period, node_id, node_name } => QueryParams {
                period: Some(period.clone()),
                target_id: Some(node_id.clone()),
                target_name: Some(node_name.clone()),
                term: None,
            },
            Request::ThroughputChartSite { period, site_id }
            | Request::RttChartSite { period, site_id }
            | Request::SiteStack { period, site_id }
            | Request::SiteHeat { period, site_id } => QueryParams {
                period: Some(period.clone()),
                target_id: Some(site_id.clone()),
                target_name: None,
                term: None,
            },
            Request::ThroughputChartCircuit { period, circuit_id }
            | Request::RttChartCircuit { period, circuit_id } => QueryParams {
                period: Some(period.clone()),
                target_id: Some(circuit_id.clone()),
                target_name: None,
                term: None,
            },
            Request::Tree { parent } => QueryParams {
                period: None,
                target_id: Some(parent.clone()),
                target_name: None,
                term: None,
            },
            Request::SiteInfo { site_id } | Request::SiteParents { site_id } => QueryParams {
                period: None,
                target_id: Some(site_id.clone()),
                target_name: None,
                term: None,
            },
            Request::CircuitInfo { circuit_id } => QueryParams {
                period: None,
                target_id: Some(circuit_id.clone()),
                target_name: None,
                term: None,
            },
            Request::Search { term } => QueryParams {
                period: None,
                target_id: None,
                target_name: None,
                term: Some(term.clone()),
            },
            _ => QueryParams { period: None, target_id: None, target_name: None, term: None },
        }
    }
}

} // verus!
