//! The node manager: what a node knows of itself, and how it answers.

use crate::alias::{is_alias, Alias};
use crate::authorities::{Authorities, AuthorityView};
use crate::config::{
    bytes_of, default_vault_path, text_of, vault_path_in, ConfigView, NodeManConfig,
};
use crate::envelope::{split_path, texts, Method, Request, RequestView, Status};
use crate::error::{ApiError, ErrorView, Kind, Origin};
use crate::registry::{
    address_in_use, addresses, distinct_addresses, occupied, registered, released, runs,
    unknown_worker, Registry, Worker, WorkerKind,
};
use crate::router::{
    captures, lemma_listed_request_reaches_its_handler, lemma_route_exists_iff_listed,
    pattern_accepts, route_of_path, routing_table, rule_accepts, Endpoint, Route, RouteView, Router,
};
use crate::transport::{
    holds, inserted, listing, place_of, removed, sorted_aliases, statuses, unknown_transport,
    Entry, StatusView, Transport, TransportMode, TransportRegistry, TransportStatus,
};
use vstd::prelude::*;
use vstd::string::StringExecFns;

verus! {

/// An identity made elsewhere, with the vault file that holds its keys, to
/// seed a node that has none yet.
#[derive(Clone, Debug, PartialEq, Eq)]
pub struct IdentityOverride {
    pub identity: Vec<u8>,
    pub vault_path: String,
}

/// What a node says of itself.
#[derive(Clone, Debug, PartialEq, Eq)]
pub struct NodeStatus {
    pub node_name: String,
    pub status: String,
    pub workers: u32,
    pub pid: i32,
    pub transports: u32,
}

pub struct NodeStatusView {
    pub node_name: Seq<char>,
    pub status: Seq<char>,
    pub workers: u32,
    pub pid: i32,
    pub transports: u32,
}

impl View for NodeStatus {
    type V = NodeStatusView;

    open spec fn view(&self) -> NodeStatusView {
        NodeStatusView {
            node_name: self.node_name@,
            status: self.status@,
            workers: self.workers,
            pid: self.pid,
            transports: self.transports,
        }
    }
}

/// What a response made by the manager itself carries.
#[derive(Clone, Debug, PartialEq, Eq)]
pub enum Body {
    Empty,
    Text(String),
    NodeStatus(NodeStatus),
    Transports(Vec<TransportStatus>),
}

pub enum BodyView {
    Empty,
    Text(Seq<char>),
    NodeStatus(NodeStatusView),
    Transports(Seq<StatusView>),
}

impl View for Body {
    type V = BodyView;

    open spec fn view(&self) -> BodyView {
        match self {
            Body::Empty => BodyView::Empty,
            Body::Text(t) => BodyView::Text(t@),
            Body::NodeStatus(s) => BodyView::NodeStatus(s@),
            Body::Transports(l) => BodyView::Transports(statuses(l@)),
        }
    }
}

/// A response before it is encoded. `re` is the id of the request that it
/// answers.
#[derive(Clone, Debug, PartialEq, Eq)]
pub struct Response {
    pub re: u32,
    pub status: Status,
    pub body: Body,
}

pub struct ResponseView {
    pub re: u32,
    pub status: Status,
    pub body: BodyView,
}

impl View for Response {
    type V = ResponseView;

    open spec fn view(&self) -> ResponseView {
        ResponseView { re: self.re, status: self.status, body: self.body@ }
    }
}

/// What the manager does with a message that came in.
#[derive(Clone, Debug, PartialEq, Eq)]
pub enum Step {
    /// The message could not be read: nothing is sent back.
    Ignore,
    /// The manager answers by itself.
    Reply(Response),
    /// A handler has to do the work, and its outcome goes to
    /// [`conclude`].
    Invoke(Route),
}

pub enum StepView {
    Ignore,
    Reply(ResponseView),
    Invoke(RouteView),
}

impl View for Step {
    type V = StepView;

    open spec fn view(&self) -> StepView {
        match self {
            Step::Ignore => StepView::Ignore,
            Step::Reply(r) => StepView::Reply(r@),
            Step::Invoke(r) => StepView::Invoke(r@),
        }
    }
}

/// What goes back to the sender of a request.
#[derive(Clone, Debug, PartialEq, Eq)]
pub enum Outgoing {
    /// A response that a handler has encoded.
    Encoded(Vec<u8>),
    /// A response that is still to be encoded.
    Plain(Response),
}

pub enum OutgoingView {
    Encoded(Seq<u8>),
    Plain(ResponseView),
}

impl View for Outgoing {
    type V = OutgoingView;

    open spec fn view(&self) -> OutgoingView {
        match self {
            Outgoing::Encoded(b) => OutgoingView::Encoded(b@),
            Outgoing::Plain(r) => OutgoingView::Plain(r@),
        }
    }
}

/// The addresses at which a node starts its services.
pub struct DefaultAddress;

impl DefaultAddress {
    pub const VAULT_SERVICE: &'static str = "vault_service";

    pub const IDENTITY_SERVICE: &'static str = "identity_service";

    pub const AUTHENTICATED_SERVICE: &'static str = "authenticated";

    pub const UPPERCASE_SERVICE: &'static str = "uppercase";

    pub const ECHO_SERVICE: &'static str = "echo";

    pub const SECURE_CHANNEL_LISTENER: &'static str = "api";

    pub const CREDENTIAL_SERVICE: &'static str = "credentials";
}

/// The services that a node starts when it begins to serve, each with what
/// its start is given.
#[derive(Clone, Debug, PartialEq, Eq)]
pub enum DefaultService {
    Vault { address: &'static str },
    Identity { address: &'static str },
    Authenticated { address: &'static str },
    Uppercase { address: &'static str },
    Echoer { address: &'static str },
    /// The registrar of forwarders, at the address that is its own.
    Forwarding,
    /// The listener for secure channels. Without a list of identifiers it
    /// accepts every peer: whom to trust is decided when credentials are
    /// exchanged.
    SecureChannelListener { address: &'static str, authorized_identifiers: Option<Vec<String>> },
    /// The exchange of credentials, in both directions unless `oneway`.
    Credentials { address: &'static str, oneway: bool },
}

pub enum DefaultServiceView {
    Vault { address: Seq<char> },
    Identity { address: Seq<char> },
    Authenticated { address: Seq<char> },
    Uppercase { address: Seq<char> },
    Echoer { address: Seq<char> },
    Forwarding,
    SecureChannelListener { address: Seq<char>, authorized_identifiers: Option<Seq<Seq<char>>> },
    Credentials { address: Seq<char>, oneway: bool },
}

impl View for DefaultService {
    type V = DefaultServiceView;

    open spec fn view(&self) -> DefaultServiceView {
        match self {
            DefaultService::Vault { address } => DefaultServiceView::Vault { address: address@ },
            DefaultService::Identity { address } => DefaultServiceView::Identity {
                address: address@,
            },
            DefaultService::Authenticated { address } => DefaultServiceView::Authenticated {
                address: address@,
            },
            DefaultService::Uppercase { address } => DefaultServiceView::Uppercase {
                address: address@,
            },
            DefaultService::Echoer { address } => DefaultServiceView::Echoer { address: address@ },
            DefaultService::Forwarding => DefaultServiceView::Forwarding,
            DefaultService::SecureChannelListener {
                address,
                authorized_identifiers,
            } => DefaultServiceView::SecureChannelListener {
                address: address@,
                authorized_identifiers: match authorized_identifiers {
                    Some(list) => Some(texts(list@)),
                    None => None,
                },
            },
            DefaultService::Credentials { address, oneway } => DefaultServiceView::Credentials {
                address: address@,
                oneway: *oneway,
            },
        }
    }
}

pub open spec fn service_views(plan: Seq<DefaultService>) -> Seq<DefaultServiceView> {
    plan.map_values(|s: DefaultService| s@)
}

/// What comes next when a node starts its services.
#[derive(Clone, Debug, PartialEq, Eq)]
pub enum Startup {
    /// Start this service.
    Start(DefaultService),
    /// Every service runs.
    Done,
    /// A service did not start: the node does not serve.
    Failed(ApiError),
}

pub enum StartupView {
    Start(DefaultServiceView),
    Done,
    Failed(ErrorView),
}

impl View for Startup {
    type V = StartupView;

    open spec fn view(&self) -> StartupView {
        match self {
            Startup::Start(s) => StartupView::Start(s@),
            Startup::Done => StartupView::Done,
            Startup::Failed(e) => StartupView::Failed(e@),
        }
    }
}

/// What a request to create a vault or an identity comes to.
#[derive(Clone, Debug, PartialEq, Eq)]
pub enum Creation {
    /// The resource is there and is used as it is.
    Existing,
    /// The resource has to be made. For a vault, `path` says where.
    Create { path: Option<String> },
}

pub enum CreationView {
    Existing,
    Create { path: Option<Seq<char>> },
}

impl View for Creation {
    type V = CreationView;

    open spec fn view(&self) -> CreationView {
        match self {
            Creation::Existing => CreationView::Existing,
            Creation::Create { path } => CreationView::Create { path: text_of(*path) },
        }
    }
}

/// A node manager as a mathematical value.
pub struct ManagerView {
    pub node_name: Seq<char>,
    pub node_dir: Seq<char>,
    pub config: ConfigView,
    pub api_transport_id: Seq<char>,
    pub transports: Seq<Entry>,
    pub controller_identity_id: Seq<char>,
    pub skip_defaults: bool,
    pub enable_credential_checks: bool,
    pub vault: Option<Seq<char>>,
    pub identity: Option<Seq<u8>>,
    pub project_id: Option<Seq<u8>>,
    pub authorities: Option<Seq<AuthorityView>>,
    pub registry: Seq<Worker>,
}

pub open spec fn authorities_of(a: Option<Authorities>) -> Option<Seq<AuthorityView>> {
    match a {
        Some(l) => Some(l@),
        None => None,
    }
}

/// What has to hold of every node manager: an identity needs a vault, and
/// credential checks need a project.
pub open spec fn manager_inv(m: ManagerView) -> bool {
    &&& m.identity is Some ==> m.vault is Some
    &&& m.enable_credential_checks ==> m.project_id is Some
    &&& sorted_aliases(m.transports)
    &&& distinct_addresses(m.registry)
}

pub open spec fn missing(message: Seq<char>) -> ErrorView {
    ErrorView { origin: Origin::Api, kind: Kind::NotFound, message }
}

pub open spec fn already_there(message: Seq<char>) -> ErrorView {
    ErrorView { origin: Origin::Api, kind: Kind::Conflict, message }
}

/// The answer to a request that no line of the routing table accepts.
pub open spec fn invalid_endpoint(req_id: u32, path: Seq<char>) -> ResponseView {
    ResponseView {
        re: req_id,
        status: Status::BadRequest,
        body: BodyView::Text("Invalid endpoint: "@ + path),
    }
}

/// The answer to a request whose handler failed.
pub open spec fn failure_response(req_id: u32, error: ErrorView) -> ResponseView {
    ResponseView {
        re: req_id,
        status: Status::InternalServerError,
        body: BodyView::Text("Failed to handle request: "@ + error.message),
    }
}

/// Where the routing table sends a request. A request without a method goes
/// nowhere.
pub open spec fn routed(method: Option<Method>, path: Seq<char>) -> Option<RouteView> {
    match method {
        Some(method) => route_of_path(method, path),
        None => None,
    }
}

/// The answer to a request for the status of the node.
pub open spec fn node_status_answer(
    m: ManagerView,
    id: u32,
    workers: u32,
    pid: i32,
) -> ResponseView {
    ResponseView {
        re: id,
        status: Status::Success,
        body: BodyView::NodeStatus(
            NodeStatusView {
                node_name: m.node_name,
                status: "Running"@,
                workers,
                pid,
                transports: (m.transports.len() as usize) as u32,
            },
        ),
    }
}

/// What the manager does with a request: it refuses what the routing table
/// does not list, it answers a listing of transports by itself, and it
/// passes the rest to the handler that the table names.
pub open spec fn handling(
    m: ManagerView,
    id: u32,
    method: Option<Method>,
    path: Seq<char>,
) -> StepView {
    match routed(method, path) {
        None => StepView::Reply(invalid_endpoint(id, path)),
        Some(route) => match route.endpoint {
            Endpoint::ListTcpConnections => StepView::Reply(
                ResponseView {
                    re: id,
                    status: Status::Success,
                    body: BodyView::Transports(listing(m.transports, TransportMode::Connect)),
                },
            ),
            Endpoint::ListTcpListeners => StepView::Reply(
                ResponseView {
                    re: id,
                    status: Status::Success,
                    body: BodyView::Transports(listing(m.transports, TransportMode::Listen)),
                },
            ),
            _ => StepView::Invoke(route),
        },
    }
}

/// The services that a node starts, in order. The credential service is
/// among them only for a node that has authorities.
pub open spec fn default_services(has_authorities: bool) -> Seq<DefaultServiceView> {
    let always = seq![
        DefaultServiceView::Vault { address: DefaultAddress::VAULT_SERVICE@ },
        DefaultServiceView::Identity { address: DefaultAddress::IDENTITY_SERVICE@ },
        DefaultServiceView::Authenticated { address: DefaultAddress::AUTHENTICATED_SERVICE@ },
        DefaultServiceView::Uppercase { address: DefaultAddress::UPPERCASE_SERVICE@ },
        DefaultServiceView::Echoer { address: DefaultAddress::ECHO_SERVICE@ },
        DefaultServiceView::Forwarding,
        DefaultServiceView::SecureChannelListener {
            address: DefaultAddress::SECURE_CHANNEL_LISTENER@,
            authorized_identifiers: None,
        },
    ];
    if has_authorities {
        always.push(
            DefaultServiceView::Credentials {
                address: DefaultAddress::CREDENTIAL_SERVICE@,
                oneway: false,
            },
        )
    } else {
        always
    }
}

/// The services that a manager starts when it begins to serve: none where
/// it skips its defaults.
pub open spec fn startup_plan(m: ManagerView) -> Seq<DefaultServiceView> {
    if m.skip_defaults {
        Seq::empty()
    } else {
        default_services(m.authorities is Some)
    }
}

/// What comes next after `started` services were asked for, the last of
/// them with the outcome `last`: the first failure ends the start, and
/// else the services follow each other in the order of the plan.
pub open spec fn startup_step(
    m: ManagerView,
    started: nat,
    last: Result<(), ErrorView>,
) -> StartupView {
    match last {
        Err(e) => StartupView::Failed(e),
        Ok(_) => if started < startup_plan(m).len() {
            StartupView::Start(startup_plan(m)[started as int])
        } else {
            StartupView::Done
        },
    }
}

pub struct NodeManager {
    node_name: String,
    node_dir: String,
    config: NodeManConfig,
    api_transport_id: Alias,
    transports: TransportRegistry,
    controller_identity_id: String,
    skip_defaults: bool,
    enable_credential_checks: bool,
    vault: Option<String>,
    identity: Option<Vec<u8>>,
    project_id: Option<Vec<u8>>,
    authorities: Option<Authorities>,
    registry: Registry,
    router: Router,
}

impl View for NodeManager {
    type V = ManagerView;

    closed spec fn view(&self) -> ManagerView {
        ManagerView {
            node_name: self.node_name@,
            node_dir: self.node_dir@,
            config: self.config@,
            api_transport_id: self.api_transport_id@,
            transports: self.transports@,
            controller_identity_id: self.controller_identity_id@,
            skip_defaults: self.skip_defaults,
            enable_credential_checks: self.enable_credential_checks,
            vault: text_of(self.vault),
            identity: bytes_of(self.identity),
            project_id: bytes_of(self.project_id),
            authorities: authorities_of(self.authorities),
            registry: self.registry@,
        }
    }
}

impl NodeManager {
    pub open spec fn wf(&self) -> bool {
        manager_inv(self@)
    }

    /// Puts a node manager together from its parts.
    pub(crate) fn assemble(
        node_name: String,
        node_dir: String,
        config: NodeManConfig,
        api_transport_id: Alias,
        transports: TransportRegistry,
        controller_identity_id: String,
        skip_defaults: bool,
        enable_credential_checks: bool,
        vault: Option<String>,
        identity: Option<Vec<u8>>,
        project_id: Option<Vec<u8>>,
        authorities: Option<Authorities>,
    ) -> (m: NodeManager)
        requires
            transports.wf(),
            identity is Some ==> vault is Some,
            enable_credential_checks ==> project_id is Some,
        ensures
            m.wf(),
            m@ == (ManagerView {
                node_name: node_name@,
                node_dir: node_dir@,
                config: config@,
                api_transport_id: api_transport_id@,
                transports: transports@,
                controller_identity_id: controller_identity_id@,
                skip_defaults,
                enable_credential_checks,
                vault: text_of(vault),
                identity: bytes_of(identity),
                project_id: bytes_of(project_id),
                authorities: authorities_of(authorities),
                registry: Seq::empty(),
            }),
    {
        NodeManager {
            node_name,
            node_dir,
            config,
            api_transport_id,
            transports,
            controller_identity_id,
            skip_defaults,
            enable_credential_checks,
            vault,
            identity,
            project_id,
            authorities,
            registry: Registry::new(),
            router: Router::new(),
        }
    }

    pub fn identity(&self) -> (r: Result<&Vec<u8>, ApiError>)
        ensures
            match r {
                Ok(identity) => self@.identity == Some(identity@),
                Err(e) => self@.identity is None && e@ == missing("Identity doesn't exist"@),
            },
    {
        match &self.identity {
            Some(identity) => Ok(identity),
            None => Err(ApiError::not_found("Identity doesn't exist")),
        }
    }

    pub fn vault(&self) -> (r: Result<&String, ApiError>)
        ensures
            match r {
                Ok(vault) => self@.vault == Some(vault@),
                Err(e) => self@.vault is None && e@ == missing("Vault doesn't exist"@),
            },
    {
        match &self.vault {
            Some(vault) => Ok(vault),
            None => Err(ApiError::not_found("Vault doesn't exist")),
        }
    }

    pub fn authorities(&self) -> (r: Result<&Authorities, ApiError>)
        ensures
            match r {
                Ok(authorities) => self@.authorities == Some(authorities@),
                Err(e) => self@.authorities is None && e@ == missing("Authorities don't exist"@),
            },
    {
        match &self.authorities {
            Some(authorities) => Ok(authorities),
            None => Err(ApiError::not_found("Authorities don't exist")),
        }
    }

    /// The project of a member node.
    pub fn project_id(&self) -> (r: Result<&Vec<u8>, ApiError>)
        ensures
            match r {
                Ok(project_id) => self@.project_id == Some(project_id@),
                Err(e) => self@.project_id is None && e@ == missing("Project id is not set"@),
            },
    {
        match &self.project_id {
            Some(project_id) => Ok(project_id),
            None => Err(ApiError::not_found("Project id is not set")),
        }
    }

    pub fn node_name(&self) -> (name: &str)
        ensures
            name@ == self@.node_name,
    {
        self.node_name.as_str()
    }

    pub fn node_dir(&self) -> (dir: &str)
        ensures
            dir@ == self@.node_dir,
    {
        self.node_dir.as_str()
    }

    /// The record as it has to stand on disk.
    pub fn config(&self) -> (config: &NodeManConfig)
        ensures
            config@ == self@.config,
    {
        &self.config
    }

    pub fn api_transport_id(&self) -> (alias: &str)
        ensures
            alias@ == self@.api_transport_id,
    {
        self.api_transport_id.as_str()
    }

    pub fn controller_identity_id(&self) -> (id: &str)
        ensures
            id@ == self@.controller_identity_id,
    {
        self.controller_identity_id.as_str()
    }

    pub fn skip_defaults(&self) -> (skip: bool)
        ensures
            skip == self@.skip_defaults,
    {
        self.skip_defaults
    }

    pub fn enable_credential_checks(&self) -> (enabled: bool)
        ensures
            enabled == self@.enable_credential_checks,
    {
        self.enable_credential_checks
    }

    pub fn transports(&self) -> (registry: &TransportRegistry)
        ensures
            registry@ == self@.transports,
            self.wf() ==> registry.wf(),
    {
        &self.transports
    }

    /// What the node says of itself, given the number of its workers and the
    /// number of its process. The count of transports is cut to its low 32 bits.
    pub fn node_status(&self, workers: u32, pid: i32) -> (status: NodeStatus)
        ensures
            status@ == (NodeStatusView {
                node_name: self@.node_name,
                status: "Running"@,
                workers,
                pid,
                transports: (self@.transports.len() as usize) as u32,
            }),
    {
        let n = self.transports.len();
        NodeStatus {
            node_name: self.node_name.clone(),
            status: String::from_str("Running"),
            workers,
            pid,
            transports: #[verifier::truncate] (n as u32),
        }
    }

    /// The answer to a request for the status of the node, given the number
    /// of its workers and the number of its process.
    pub fn node_status_response(&self, req: &Request, workers: u32, pid: i32) -> (response:
        Response)
        ensures
            response@ == node_status_answer(self@, req.id, workers, pid),
    {
        Response {
            re: req.id,
            status: Status::Success,
            body: Body::NodeStatus(self.node_status(workers, pid)),
        }
    }

    /// Decides what to do with a request.
    pub fn handle_request(&self, req: &Request) -> (step: Step)
        ensures
            step@ == handling(self@, req.id, req.method, req.path@),
    {
        let route = match req.method {
            Some(method) => self.router.route_path(method, req.path.as_str()),
            None => None,
        };
        match route {
            None => {
                let mut text = String::from_str("Invalid endpoint: ");
                text.append(req.path.as_str());
                Step::Reply(
                    Response { re: req.id, status: Status::BadRequest, body: Body::Text(text) },
                )
            },
            Some(route) => match route.endpoint {
                Endpoint::ListTcpConnections => Step::Reply(
                    Response {
                        re: req.id,
                        status: Status::Success,
                        body: Body::Transports(self.transports.list(TransportMode::Connect)),
                    },
                ),
                Endpoint::ListTcpListeners => Step::Reply(
                    Response {
                        re: req.id,
                        status: Status::Success,
                        body: Body::Transports(self.transports.list(TransportMode::Listen)),
                    },
                ),
                _ => Step::Invoke(route),
            },
        }
    }

    /// Decides what to do with a message, read or not. A message that could
    /// not be read gets no answer.
    pub fn handle_message(&self, decoded: Option<&Request>) -> (step: Step)
        ensures
            match decoded {
                None => step@ == StepView::Ignore,
                Some(req) => step@ == handling(self@, req.id, req.method, req.path@),
            },
    {
        match decoded {
            None => Step::Ignore,
            Some(req) => self.handle_request(req),
        }
    }

    /// The services to start when the node begins to serve: none for a node
    /// that skips its defaults.
    pub fn initialize(&self) -> (plan: Vec<DefaultService>)
        ensures
            service_views(plan@) == startup_plan(self@),
    {
        if !self.skip_defaults {
            self.initialize_defaults()
        } else {
            let plan: Vec<DefaultService> = Vec::new();
            assert(service_views(plan@) =~= Seq::<DefaultServiceView>::empty());
            plan
        }
    }

    /// Says what comes next while the node starts its services: `started`
    /// services were asked for so far, and `last` is the outcome of the one
    /// asked for last.
    pub fn start_next(&self, started: usize, last: Result<(), ApiError>) -> (next: Startup)
        ensures
            next@ == startup_step(
                self@,
                started as nat,
                match last {
                    Ok(_) => Ok(()),
                    Err(e) => Err(e@),
                },
            ),
    {
        match last {
            Err(e) => Startup::Failed(e),
            Ok(_) => {
                let mut plan = self.initialize();
                if started < plan.len() {
                    let service = plan.remove(started);
                    Startup::Start(service)
                } else {
                    Startup::Done
                }
            },
        }
    }

    /// The services of a node that takes its defaults, in the order in which
    /// they start.
    pub fn initialize_defaults(&self) -> (plan: Vec<DefaultService>)
        ensures
            service_views(plan@) == default_services(self@.authorities is Some),
    {
        let mut plan: Vec<DefaultService> = Vec::new();
        plan.push(DefaultService::Vault { address: DefaultAddress::VAULT_SERVICE });
        plan.push(DefaultService::Identity { address: DefaultAddress::IDENTITY_SERVICE });
        plan.push(
            DefaultService::Authenticated { address: DefaultAddress::AUTHENTICATED_SERVICE },
        );
        plan.push(DefaultService::Uppercase { address: DefaultAddress::UPPERCASE_SERVICE });
        plan.push(DefaultService::Echoer { address: DefaultAddress::ECHO_SERVICE });
        plan.push(DefaultService::Forwarding);
        plan.push(
            DefaultService::SecureChannelListener {
                address: DefaultAddress::SECURE_CHANNEL_LISTENER,
                authorized_identifiers: None,
            },
        );
        if self.authorities().is_ok() {
            plan.push(
                DefaultService::Credentials {
                    address: DefaultAddress::CREDENTIAL_SERVICE,
                    oneway: false,
                },
            );
        }
        assert(service_views(plan@) =~= default_services(self@.authorities is Some));
        plan
    }

    /// Registers a transport under a new alias.
    pub fn add_transport(&mut self, transport: Transport) -> (alias: Alias)
        requires
            old(self).wf(),
        ensures
            final(self).wf(),
            is_alias(alias@),
            final(self)@ == (ManagerView {
                transports: inserted(old(self)@.transports, alias@, transport@),
                ..old(self)@
            }),
    {
        self.transports.add_transport(transport)
    }

    /// The transport to tear down before the entry under `alias` is taken
    /// out of the registry.
    pub fn begin_delete_transport(&self, alias: &str) -> (r: Result<Transport, ApiError>)
        requires
            self.wf(),
        ensures
            match r {
                Ok(t) => holds(self@.transports, alias@) && t@ == self@.transports[place_of(
                    self@.transports,
                    alias@,
                )].transport,
                Err(e) => !holds(self@.transports, alias@) && e@ == unknown_transport(),
            },
    {
        match self.transports.get(alias) {
            Some(t) => Ok(t.duplicate()),
            None => Err(ApiError::not_found("Transport not found")),
        }
    }

    /// Takes the entry under `alias` out of the registry, once its transport
    /// was torn down.
    pub fn finish_delete_transport(&mut self, alias: &str) -> (r: Result<(), ApiError>)
        requires
            old(self).wf(),
        ensures
            final(self).wf(),
            final(self)@ == (ManagerView {
                transports: removed(old(self)@.transports, alias@),
                ..old(self)@
            }),
            match r {
                Ok(_) => holds(old(self)@.transports, alias@),
                Err(e) => !holds(old(self)@.transports, alias@) && e@ == unknown_transport(),
            },
    {
        match self.transports.remove(alias) {
            Ok(_) => Ok(()),
            Err(e) => Err(e),
        }
    }

    /// The transports of one mode.
    pub fn get_tcp_con_or_list(&self, mode: TransportMode) -> (found: Vec<TransportStatus>)
        ensures
            statuses(found@) == listing(self@.transports, mode),
    {
        self.transports.list(mode)
    }

    /// Records a worker that was started for a request. An address that is
    /// taken is refused.
    pub fn register_worker(&mut self, kind: WorkerKind, address: String) -> (r: Result<
        (),
        ApiError,
    >)
        requires
            old(self).wf(),
        ensures
            final(self).wf(),
            final(self)@ == (ManagerView {
                registry: registered(old(self)@.registry, kind, address@),
                ..old(self)@
            }),
            match r {
                Ok(_) => !occupied(old(self)@.registry, address@),
                Err(e) => occupied(old(self)@.registry, address@) && e@ == address_in_use(),
            },
    {
        self.registry.register(kind, address)
    }

    /// Takes a worker that was stopped out of the inventory.
    pub fn release_worker(&mut self, kind: WorkerKind, address: &str) -> (r: Result<(), ApiError>)
        requires
            old(self).wf(),
        ensures
            final(self).wf(),
            final(self)@ == (ManagerView {
                registry: released(old(self)@.registry, kind, address@),
                ..old(self)@
            }),
            match r {
                Ok(_) => runs(old(self)@.registry, kind, address@),
                Err(e) => !runs(old(self)@.registry, kind, address@) && e@ == unknown_worker(),
            },
    {
        self.registry.release(kind, address)
    }

    /// The addresses of the workers of one kind.
    pub fn list_workers(&self, kind: WorkerKind) -> (found: Vec<String>)
        ensures
            texts(found@) == addresses(self@.registry, kind),
    {
        self.registry.list(kind)
    }

    /// Decides on the creation of a vault. With `reuse_if_exists` a vault
    /// that is there is used; without it, it is in the way.
    pub fn create_vault(&self, path: Option<String>, reuse_if_exists: bool) -> (r: Result<
        Creation,
        ApiError,
    >)
        ensures
            match r {
                Ok(c) => {
                    if self@.vault is Some {
                        reuse_if_exists && c@ == CreationView::Existing
                    } else {
                        c@ == (CreationView::Create {
                            path: Some(
                                match path {
                                    Some(p) => p@,
                                    None => default_vault_path(self@.node_dir),
                                },
                            ),
                        })
                    }
                },
                Err(e) => self@.vault is Some && !reuse_if_exists && e@ == already_there(
                    "Vault already exists"@,
                ),
            },
    {
        if self.vault.is_some() {
            if reuse_if_exists {
                Ok(Creation::Existing)
            } else {
                Err(ApiError::conflict("Vault already exists"))
            }
        } else {
            let path = match path {
                Some(p) => p,
                None => vault_path_in(self.node_dir.as_str()),
            };
            Ok(Creation::Create { path: Some(path) })
        }
    }

    /// Takes note of a vault that was made at `path`, and returns the record
    /// to write to disk before the request is answered. A manager that has a
    /// vault takes no other.
    pub fn vault_created(&mut self, path: String) -> (r: Result<NodeManConfig, ApiError>)
        requires
            old(self).wf(),
        ensures
            final(self).wf(),
            match r {
                Ok(config) => {
                    &&& old(self)@.vault is None
                    &&& final(self)@ == (ManagerView {
                        config: ConfigView { vault_path: Some(path@), ..old(self)@.config },
                        vault: Some(path@),
                        ..old(self)@
                    })
                    &&& config@ == final(self)@.config
                },
                Err(e) => {
                    &&& old(self)@.vault is Some
                    &&& final(self)@ == old(self)@
                    &&& e@ == already_there("Vault already exists"@)
                },
            },
    {
        if self.vault.is_some() {
            return Err(ApiError::conflict("Vault already exists"));
        }
        self.config.vault_path = Some(path.clone());
        self.vault = Some(path);
        Ok(self.config.duplicate())
    }

    /// Decides on the creation of an identity. With `reuse_if_exists` an
    /// identity that is there is used; without it, it is in the way. A new
    /// identity needs a vault.
    pub fn create_identity(&self, reuse_if_exists: bool) -> (r: Result<Creation, ApiError>)
        ensures
            match r {
                Ok(c) => {
                    if self@.identity is Some {
                        reuse_if_exists && c@ == CreationView::Existing
                    } else {
                        self@.vault is Some && c@ == (CreationView::Create { path: None })
                    }
                },
                Err(e) => {
                    if self@.identity is Some {
                        !reuse_if_exists && e@ == already_there("Identity already exists"@)
                    } else {
                        self@.vault is None && e@ == missing("Vault doesn't exist"@)
                    }
                },
            },
    {
        if self.identity.is_some() {
            if reuse_if_exists {
                Ok(Creation::Existing)
            } else {
                Err(ApiError::conflict("Identity already exists"))
            }
        } else {
            match self.vault() {
                Ok(_) => Ok(Creation::Create { path: None }),
                Err(e) => Err(e),
            }
        }
    }

    /// Takes note of an identity that was made in the node's vault, and
    /// returns the record to write to disk before the request is answered.
    /// A manager that has an identity takes no other, and one without a
    /// vault takes none.
    pub fn identity_created(&mut self, exported: Vec<u8>) -> (r: Result<NodeManConfig, ApiError>)
        requires
            old(self).wf(),
        ensures
            final(self).wf(),
            match r {
                Ok(config) => {
                    &&& old(self)@.identity is None
                    &&& old(self)@.vault is Some
                    &&& final(self)@ == (ManagerView {
                        config: ConfigView {
                            identity: Some(exported@),
                            identity_was_overridden: false,
                            ..old(self)@.config
                        },
                        identity: Some(exported@),
                        ..old(self)@
                    })
                    &&& config@ == final(self)@.config
                },
                Err(e) => {
                    &&& final(self)@ == old(self)@
                    &&& if old(self)@.identity is Some {
                        e@ == already_there("Identity already exists"@)
                    } else {
                        old(self)@.vault is None && e@ == missing("Vault doesn't exist"@)
                    }
                },
            },
    {
        if self.identity.is_some() {
            return Err(ApiError::conflict("Identity already exists"));
        }
        if self.vault.is_none() {
            return Err(ApiError::not_found("Vault doesn't exist"));
        }
        self.config.identity = Some(exported.clone());
        self.config.identity_was_overridden = false;
        self.identity = Some(exported);
        Ok(self.config.duplicate())
    }
}

/// A request that no line of the routing table accepts is refused as a bad
/// request, with the text `Invalid endpoint: ` and the path as it came. So
/// is every request without a method.
pub proof fn lemma_unlisted_request_is_refused(
    m: ManagerView,
    id: u32,
    method: Option<Method>,
    path: Seq<char>,
)
    requires
        method matches Some(given) ==> forall|i: int|
            0 <= i < routing_table().len() ==> !rule_accepts(
                #[trigger] routing_table()[i],
                given,
                split_path(path),
            ),
    ensures
        handling(m, id, method, path) == StepView::Reply(invalid_endpoint(id, path)),
        invalid_endpoint(id, path).status.spec_code() == 400,
{
    match method {
        Some(given) => {
            lemma_route_exists_iff_listed(given, split_path(path));
        },
        None => {},
    }
}

/// A request that a line of the routing table accepts is never refused as
/// an invalid endpoint: it is answered with a listing of transports where
/// the line names one, and else it goes to the handler that the line names,
/// with what the line's pattern captures.
pub proof fn lemma_listed_request_is_served(m: ManagerView, id: u32, i: int, path: Seq<char>)
    requires
        0 <= i < routing_table().len(),
        pattern_accepts(routing_table()[i].pattern, split_path(path)),
    ensures
        match handling(m, id, Some(routing_table()[i].method), path) {
            StepView::Invoke(route) => route.endpoint == routing_table()[i].endpoint
                && route.params == captures(routing_table()[i].pattern, split_path(path)),
            StepView::Reply(r) => r.re == id && r.status == Status::Success && (
            routing_table()[i].endpoint == Endpoint::ListTcpConnections
                || routing_table()[i].endpoint == Endpoint::ListTcpListeners),
            StepView::Ignore => false,
        },
{
    lemma_listed_request_reaches_its_handler(i, split_path(path));
}

/// A message as the manager meets it: what could be read of it, the state
/// of the manager at that time, and the outcome of its handler, should it
/// need one.
pub struct Inbound {
    pub decoded: Option<RequestView>,
    pub manager: ManagerView,
    pub outcome: Result<Seq<u8>, ErrorView>,
}

pub open spec fn concluded(req_id: u32, outcome: Result<Seq<u8>, ErrorView>) -> OutgoingView {
    match outcome {
        Ok(encoded) => OutgoingView::Encoded(encoded),
        Err(e) => OutgoingView::Plain(failure_response(req_id, e)),
    }
}

/// What goes back for one message: nothing for a message that could not be
/// read, and one answer for every other.
pub open spec fn answer(msg: Inbound) -> Option<OutgoingView> {
    match msg.decoded {
        None => None,
        Some(req) => match handling(msg.manager, req.id, req.method, req.path) {
            StepView::Ignore => None,
            StepView::Reply(r) => Some(OutgoingView::Plain(r)),
            StepView::Invoke(_) => Some(concluded(req.id, msg.outcome)),
        },
    }
}

/// What goes back for a queue of messages that are taken one after the
/// other.
pub open spec fn answers(inbox: Seq<Inbound>) -> Seq<OutgoingView>
    decreases inbox.len(),
{
    if inbox.len() == 0 {
        Seq::empty()
    } else {
        match answer(inbox.last()) {
            Some(out) => answers(inbox.drop_last()).push(out),
            None => answers(inbox.drop_last()),
        }
    }
}

/// The request that an answer made by the manager itself belongs to.
pub open spec fn answers_request(out: OutgoingView, req: RequestView) -> bool {
    out matches OutgoingView::Plain(r) ==> r.re == req.id
}

/// Messages that cannot be read get no answer at all.
pub proof fn lemma_unreadable_messages_get_no_answer(inbox: Seq<Inbound>)
    requires
        forall|i: int| 0 <= i < inbox.len() ==> (#[trigger] inbox[i]).decoded is None,
    ensures
        answers(inbox).len() == 0,
    decreases inbox.len(),
{
    if inbox.len() > 0 {
        assert(inbox.drop_last() =~= inbox.take(inbox.len() - 1));
        assert forall|i: int| 0 <= i < inbox.drop_last().len() implies (
        #[trigger] inbox.drop_last()[i]).decoded is None by {
            assert(inbox.drop_last()[i] == inbox[i]);
        }
        lemma_unreadable_messages_get_no_answer(inbox.drop_last());
        assert(inbox.last() == inbox[inbox.len() - 1]);
    }
}

/// The messages of a queue that can be read get one answer each, in the
/// order of the queue, and an answer that the manager makes by itself names
/// the request that it belongs to.
pub proof fn lemma_answers_keep_order(inbox: Seq<Inbound>)
    requires
        forall|i: int| 0 <= i < inbox.len() ==> (#[trigger] inbox[i]).decoded is Some,
    ensures
        answers(inbox).len() == inbox.len(),
        forall|i: int|
            0 <= i < inbox.len() ==> answer(#[trigger] inbox[i]) == Some(answers(inbox)[i])
                && answers_request(answers(inbox)[i], inbox[i].decoded->0),
    decreases inbox.len(),
{
    if inbox.len() > 0 {
        let before = inbox.drop_last();
        assert forall|i: int| 0 <= i < before.len() implies (
        #[trigger] before[i]).decoded is Some by {
            assert(before[i] == inbox[i]);
        }
        lemma_answers_keep_order(before);
        assert(inbox.last() == inbox[inbox.len() - 1]);
        assert forall|i: int| 0 <= i < inbox.len() implies answer(#[trigger] inbox[i]) == Some(
            answers(inbox)[i],
        ) && answers_request(answers(inbox)[i], inbox[i].decoded->0) by {
            if i < before.len() {
                assert(before[i] == inbox[i]);
                assert(answers(inbox)[i] == answers(before)[i]);
            }
        }
    }
}

/// Turns the outcome of a handler into what goes back to the sender: the
/// handler's own response, or a response that tells of its failure.
pub fn conclude(req: &Request, outcome: Result<Vec<u8>, ApiError>) -> (out: Outgoing)
    ensures
        out@ == concluded(
            req.id,
            match outcome {
                Ok(encoded) => Ok(encoded@),
                Err(e) => Err(e@),
            },
        ),
{
    match outcome {
        Ok(encoded) => Outgoing::Encoded(encoded),
        Err(e) => {
            let mut text = String::from_str("Failed to handle request: ");
            text.append(e.description());
            Outgoing::Plain(
                Response {
                    re: req.id,
                    status: Status::InternalServerError,
                    body: Body::Text(text),
                },
            )
        },
    }
}

} // verus!
