//! The construction of a node manager, step by step.
//!
//! Construction needs storage, a vault and identities, which the caller
//! provides. The caller runs each [`Action`] and reports its outcome as an
//! [`Event`]; [`Bootstrap::step`] decides what comes next.

use crate::alias::{is_alias, random_alias, Alias};
use crate::authorities::{
    authority_views, entry_views, verified, Authorities, AuthorityEntry, AuthorityEntryView,
    AuthorityInfo, AuthorityView,
};
use crate::config::{
    bytes_of, default_storage_path, default_vault_path, storage_path_in, text_of, vault_path_in,
    ConfigView, NodeManConfig,
};
use crate::error::{ApiError, ErrorView, Kind, Origin};
use crate::manager::{
    authorities_of, manager_inv, missing, IdentityOverride, ManagerView, NodeManager,
};
use crate::transport::{Entry, Transport, TransportRegistry};
use vstd::prelude::*;
use vstd::string::StringExecFns;

verus! {

/// What the construction waits for.
#[derive(Clone, Copy, Debug, PartialEq, Eq, Structural)]
pub enum Stage {
    AwaitConfig,
    AwaitStoragePersist,
    AwaitStorage,
    AwaitVaultCopy,
    AwaitOverridePersist,
    AwaitVault,
    AwaitIdentity,
    AwaitControllerIdentity,
    AwaitDefaultVault,
    AwaitDefaultVaultPersist,
    AwaitDefaultIdentity,
    AwaitDefaultIdentityPersist,
    AwaitAuthority,
    /// The manager is complete.
    Ready,
    /// The construction has failed.
    Failed,
}

/// The outcome of the work that the last [`Action`] asked for.
#[derive(Clone, Debug, PartialEq, Eq)]
pub enum Event {
    /// The record of the node directory was read. A directory without a
    /// record gives a blank one.
    ConfigLoaded(NodeManConfig),
    /// The work is done, and hands nothing back.
    Completed,
    /// A new identity was made in the vault; here it is, exported.
    IdentityCreated(Vec<u8>),
    /// The identifier of the controller's identity.
    ControllerIdentity(String),
    /// The work failed.
    Failed(ApiError),
}

pub enum EventView {
    ConfigLoaded(ConfigView),
    Completed,
    IdentityCreated(Seq<u8>),
    ControllerIdentity(Seq<char>),
    Failed(ErrorView),
}

impl View for Event {
    type V = EventView;

    open spec fn view(&self) -> EventView {
        match self {
            Event::ConfigLoaded(c) => EventView::ConfigLoaded(c@),
            Event::Completed => EventView::Completed,
            Event::IdentityCreated(b) => EventView::IdentityCreated(b@),
            Event::ControllerIdentity(id) => EventView::ControllerIdentity(id@),
            Event::Failed(e) => EventView::Failed(e@),
        }
    }
}

/// The work that the caller has to do next.
#[derive(Clone, Debug, PartialEq, Eq)]
pub enum Action {
    /// Read the record in the node directory.
    LoadConfig { node_dir: String },
    /// Write this record to the node directory.
    PersistConfig(NodeManConfig),
    /// Open, or make, the authenticated storage at `path`.
    OpenStorage { path: String },
    /// Copy the vault file `from` to `to`.
    CopyVault { from: String, to: String },
    /// Open the vault at `path`.
    OpenVault { path: String },
    /// Bring this identity into the vault.
    ImportIdentity { identity: Vec<u8> },
    /// Find the identifier of the controller's identity.
    LoadControllerIdentity,
    /// Make a vault at `path`.
    CreateVault { path: String },
    /// Make an identity in the vault, and export it.
    CreateIdentity,
    /// Verify this identity of an authority against the vault.
    ImportAuthority { identity: Vec<u8> },
    /// Nothing is left to do: take the manager.
    Finish,
    /// The construction has failed with this error.
    Abort(ApiError),
}

pub enum ActionView {
    LoadConfig { node_dir: Seq<char> },
    PersistConfig(ConfigView),
    OpenStorage { path: Seq<char> },
    CopyVault { from: Seq<char>, to: Seq<char> },
    OpenVault { path: Seq<char> },
    ImportIdentity { identity: Seq<u8> },
    LoadControllerIdentity,
    CreateVault { path: Seq<char> },
    CreateIdentity,
    ImportAuthority { identity: Seq<u8> },
    Finish,
    Abort(ErrorView),
}

impl View for Action {
    type V = ActionView;

    open spec fn view(&self) -> ActionView {
        match self {
            Action::LoadConfig { node_dir } => ActionView::LoadConfig { node_dir: node_dir@ },
            Action::PersistConfig(c) => ActionView::PersistConfig(c@),
            Action::OpenStorage { path } => ActionView::OpenStorage { path: path@ },
            Action::CopyVault { from, to } => ActionView::CopyVault { from: from@, to: to@ },
            Action::OpenVault { path } => ActionView::OpenVault { path: path@ },
            Action::ImportIdentity { identity } => ActionView::ImportIdentity {
                identity: identity@,
            },
            Action::LoadControllerIdentity => ActionView::LoadControllerIdentity,
            Action::CreateVault { path } => ActionView::CreateVault { path: path@ },
            Action::CreateIdentity => ActionView::CreateIdentity,
            Action::ImportAuthority { identity } => ActionView::ImportAuthority {
                identity: identity@,
            },
            Action::Finish => ActionView::Finish,
            Action::Abort(e) => ActionView::Abort(e@),
        }
    }
}

pub struct OverrideView {
    pub identity: Seq<u8>,
    pub vault_path: Seq<char>,
}

pub open spec fn override_of(o: Option<IdentityOverride>) -> Option<OverrideView> {
    match o {
        Some(v) => Some(OverrideView { identity: v.identity@, vault_path: v.vault_path@ }),
        None => None,
    }
}

pub open spec fn entries_of_config(c: Option<Vec<AuthorityEntry>>) -> Option<
    Seq<AuthorityEntryView>,
> {
    match c {
        Some(v) => Some(entry_views(v@)),
        None => None,
    }
}

pub open spec fn error_of(e: Option<ApiError>) -> Option<ErrorView> {
    match e {
        Some(v) => Some(v@),
        None => None,
    }
}

/// A construction as a mathematical value: what it was asked for, what it
/// has gathered, and what it waits for.
pub struct BootView {
    pub stage: Stage,
    pub node_name: Seq<char>,
    pub node_dir: Seq<char>,
    pub identity_override: Option<OverrideView>,
    pub skip_defaults: bool,
    pub enable_credential_checks: bool,
    pub authorities_config: Option<Seq<AuthorityEntryView>>,
    pub project_id: Option<Seq<u8>>,
    pub api_transport_id: Seq<char>,
    pub transports: Seq<Entry>,
    pub config: ConfigView,
    pub vault: Option<Seq<char>>,
    pub identity: Option<Seq<u8>>,
    pub controller_identity_id: Seq<char>,
    /// The authorities verified so far.
    pub imported: Seq<AuthorityView>,
    pub authorities: Option<Seq<AuthorityView>>,
    pub error: Option<ErrorView>,
}

/// Credential checks were asked for without the means to enforce them.
pub open spec fn invalid_options() -> ErrorView {
    ErrorView {
        origin: Origin::Ockam,
        kind: Kind::Invalid,
        message: "Invalid NodeManager options"@,
    }
}

/// An event came that the construction did not wait for.
pub open spec fn unexpected_event() -> ErrorView {
    ErrorView { origin: Origin::Api, kind: Kind::Invalid, message: "Unexpected event"@ }
}

pub open spec fn copy_failed() -> ErrorView {
    ErrorView {
        origin: Origin::Application,
        kind: Kind::Internal,
        message: "Error while copying default node"@,
    }
}

pub open spec fn not_complete() -> ErrorView {
    ErrorView { origin: Origin::Api, kind: Kind::Invalid, message: "Construction is not complete"@ }
}

/// Whether credential checks can be enforced: they need both authorities
/// and a project.
pub open spec fn options_valid(s: BootView) -> bool {
    s.enable_credential_checks ==> (s.authorities_config is Some && s.project_id is Some)
}

/// Whether the stage waits for the record to reach the disk.
pub open spec fn persists(stage: Stage) -> bool {
    stage == Stage::AwaitStoragePersist || stage == Stage::AwaitOverridePersist || stage
        == Stage::AwaitDefaultVaultPersist || stage == Stage::AwaitDefaultIdentityPersist
}

/// The error with which the construction ends when the work of `stage`
/// fails with `error`.
pub open spec fn failure_at(stage: Stage, error: ErrorView) -> ErrorView {
    if persists(stage) {
        ErrorView { origin: Origin::Application, kind: Kind::Internal, message: error.message }
    } else if stage == Stage::AwaitVaultCopy {
        copy_failed()
    } else {
        error
    }
}

pub open spec fn fail(s: BootView, error: ErrorView) -> (BootView, ActionView) {
    (BootView { stage: Stage::Failed, error: Some(error), ..s }, ActionView::Abort(error))
}

pub open spec fn persist(s: BootView, stage: Stage, config: ConfigView) -> (BootView, ActionView) {
    (BootView { stage, config, ..s }, ActionView::PersistConfig(config))
}

pub open spec fn enter_storage(s: BootView) -> (BootView, ActionView) {
    match s.config.authenticated_storage_path {
        Some(path) => (
            BootView { stage: Stage::AwaitStorage, ..s },
            ActionView::OpenStorage { path },
        ),
        None => persist(
            s,
            Stage::AwaitStoragePersist,
            ConfigView {
                authenticated_storage_path: Some(default_storage_path(s.node_dir)),
                ..s.config
            },
        ),
    }
}

pub open spec fn enter_override(s: BootView) -> (BootView, ActionView) {
    match s.identity_override {
        Some(o) if s.config.vault_path is None => (
            BootView { stage: Stage::AwaitVaultCopy, ..s },
            ActionView::CopyVault { from: o.vault_path, to: default_vault_path(s.node_dir) },
        ),
        _ => enter_vault(s),
    }
}

pub open spec fn after_copy(s: BootView) -> (BootView, ActionView) {
    match s.identity_override {
        Some(o) => persist(
            s,
            Stage::AwaitOverridePersist,
            ConfigView {
                vault_path: Some(default_vault_path(s.node_dir)),
                identity: Some(o.identity),
                identity_was_overridden: true,
                ..s.config
            },
        ),
        None => fail(s, unexpected_event()),
    }
}

pub open spec fn enter_vault(s: BootView) -> (BootView, ActionView) {
    match s.config.vault_path {
        Some(path) => (BootView { stage: Stage::AwaitVault, ..s }, ActionView::OpenVault { path }),
        None => enter_validation(s),
    }
}

pub open spec fn enter_identity(s: BootView) -> (BootView, ActionView) {
    match s.config.identity {
        Some(identity) => (
            BootView { stage: Stage::AwaitIdentity, ..s },
            ActionView::ImportIdentity { identity },
        ),
        None => enter_validation(s),
    }
}

pub open spec fn enter_validation(s: BootView) -> (BootView, ActionView) {
    if options_valid(s) {
        (
            BootView { stage: Stage::AwaitControllerIdentity, ..s },
            ActionView::LoadControllerIdentity,
        )
    } else {
        fail(s, invalid_options())
    }
}

pub open spec fn create_defaults(s: BootView) -> (BootView, ActionView) {
    if s.skip_defaults {
        (BootView { stage: Stage::Ready, ..s }, ActionView::Finish)
    } else if s.vault is None {
        (
            BootView { stage: Stage::AwaitDefaultVault, ..s },
            ActionView::CreateVault { path: default_vault_path(s.node_dir) },
        )
    } else {
        enter_default_identity(s)
    }
}

pub open spec fn enter_default_identity(s: BootView) -> (BootView, ActionView) {
    if s.identity is None {
        (BootView { stage: Stage::AwaitDefaultIdentity, ..s }, ActionView::CreateIdentity)
    } else {
        configure_authorities(s)
    }
}

pub open spec fn configure_authorities(s: BootView) -> (BootView, ActionView) {
    match s.authorities_config {
        None => (BootView { stage: Stage::Ready, ..s }, ActionView::Finish),
        Some(list) => {
            if s.vault is None {
                fail(s, missing("Vault doesn't exist"@))
            } else if s.imported.len() < list.len() {
                (
                    BootView { stage: Stage::AwaitAuthority, ..s },
                    ActionView::ImportAuthority {
                        identity: list[s.imported.len() as int].identity,
                    },
                )
            } else {
                (
                    BootView {
                        stage: Stage::Ready,
                        authorities: Some(s.imported),
                        imported: Seq::empty(),
                        ..s
                    },
                    ActionView::Finish,
                )
            }
        },
    }
}

pub open spec fn after_authority(s: BootView) -> (BootView, ActionView) {
    match s.authorities_config {
        Some(list) if s.imported.len() < list.len() => configure_authorities(
            BootView { imported: s.imported.push(verified(list[s.imported.len() as int])), ..s },
        ),
        _ => fail(s, unexpected_event()),
    }
}

pub open spec fn on_completed(s: BootView) -> (BootView, ActionView) {
    match s.stage {
        Stage::AwaitStoragePersist => enter_storage(s),
        Stage::AwaitStorage => enter_override(s),
        Stage::AwaitVaultCopy => after_copy(s),
        Stage::AwaitOverridePersist => enter_vault(s),
        Stage::AwaitVault => enter_identity(BootView { vault: s.config.vault_path, ..s }),
        Stage::AwaitIdentity => enter_validation(BootView { identity: s.config.identity, ..s }),
        Stage::AwaitDefaultVault => persist(
            s,
            Stage::AwaitDefaultVaultPersist,
            ConfigView { vault_path: Some(default_vault_path(s.node_dir)), ..s.config },
        ),
        Stage::AwaitDefaultVaultPersist => enter_default_identity(
            BootView { vault: s.config.vault_path, ..s },
        ),
        Stage::AwaitDefaultIdentityPersist => configure_authorities(
            BootView { identity: s.config.identity, ..s },
        ),
        Stage::AwaitAuthority => after_authority(s),
        _ => fail(s, unexpected_event()),
    }
}

/// One step of the construction: the state after `event`, and the work to do
/// next.
pub open spec fn step(s: BootView, event: EventView) -> (BootView, ActionView) {
    match s.stage {
        Stage::Ready => (s, ActionView::Finish),
        Stage::Failed => (
            s,
            ActionView::Abort(
                match s.error {
                    Some(e) => e,
                    None => unexpected_event(),
                },
            ),
        ),
        _ => match event {
            EventView::Failed(error) => fail(s, failure_at(s.stage, error)),
            EventView::ConfigLoaded(config) => {
                if s.stage == Stage::AwaitConfig {
                    enter_storage(BootView { config, ..s })
                } else {
                    fail(s, unexpected_event())
                }
            },
            EventView::Completed => on_completed(s),
            EventView::IdentityCreated(identity) => {
                if s.stage == Stage::AwaitDefaultIdentity {
                    persist(
                        s,
                        Stage::AwaitDefaultIdentityPersist,
                        ConfigView {
                            identity: Some(identity),
                            identity_was_overridden: false,
                            ..s.config
                        },
                    )
                } else {
                    fail(s, unexpected_event())
                }
            },
            EventView::ControllerIdentity(id) => {
                if s.stage == Stage::AwaitControllerIdentity {
                    create_defaults(BootView { controller_identity_id: id, ..s })
                } else {
                    fail(s, unexpected_event())
                }
            },
        },
    }
}

/// The state of a construction after a run of events.
pub open spec fn run(s: BootView, events: Seq<EventView>) -> BootView
    decreases events.len(),
{
    if events.len() == 0 {
        s
    } else {
        step(run(s, events.drop_last()), events.last()).0
    }
}

/// The state in which a construction begins.
pub open spec fn initial(s: BootView) -> bool {
    &&& s.stage == Stage::AwaitConfig
    &&& s.transports.len() == 1
    &&& s.transports[0].alias == s.api_transport_id
    &&& s.vault is None
    &&& s.identity is None
    &&& s.imported.len() == 0
    &&& s.authorities is None
    &&& s.error is None
}

/// The stages that come after the check of the options.
pub open spec fn checked(stage: Stage) -> bool {
    match stage {
        Stage::AwaitControllerIdentity
        | Stage::AwaitDefaultVault
        | Stage::AwaitDefaultVaultPersist
        | Stage::AwaitDefaultIdentity
        | Stage::AwaitDefaultIdentityPersist
        | Stage::AwaitAuthority
        | Stage::Ready => true,
        _ => false,
    }
}

/// The stages of the defaults, which a construction that skips them never
/// enters.
pub open spec fn in_defaults(stage: Stage) -> bool {
    match stage {
        Stage::AwaitDefaultVault
        | Stage::AwaitDefaultVaultPersist
        | Stage::AwaitDefaultIdentity
        | Stage::AwaitDefaultIdentityPersist
        | Stage::AwaitAuthority => true,
        _ => false,
    }
}

/// The stages before a vault is opened.
pub open spec fn before_vault(stage: Stage) -> bool {
    match stage {
        Stage::AwaitConfig
        | Stage::AwaitStoragePersist
        | Stage::AwaitStorage
        | Stage::AwaitVaultCopy
        | Stage::AwaitOverridePersist
        | Stage::AwaitVault => true,
        _ => false,
    }
}

/// The authorities that the first `n` entries of a configuration become.
pub open spec fn verified_prefix(list: Seq<AuthorityEntryView>, n: int) -> Seq<AuthorityView> {
    Seq::new(n as nat, |i: int| verified(list[i]))
}

/// What holds of a construction at every stage.
pub open spec fn inv(s: BootView) -> bool {
    &&& s.transports.len() == 1
    &&& s.transports[0].alias == s.api_transport_id
    &&& s.stage == Stage::Failed <==> s.error is Some
    &&& s.identity is Some ==> s.vault is Some && s.config.identity == s.identity
    &&& s.vault is Some ==> s.config.vault_path == s.vault
    &&& s.stage != Stage::AwaitConfig && s.stage != Stage::Failed
        ==> s.config.authenticated_storage_path is Some
    &&& before_vault(s.stage) ==> s.vault is None
    &&& checked(s.stage) ==> options_valid(s)
    &&& in_defaults(s.stage) ==> !s.skip_defaults
    &&& s.authorities is Some ==> s.stage == Stage::Ready
    &&& match s.authorities_config {
        Some(list) => s.imported.len() <= list.len() && s.imported == verified_prefix(
            list,
            s.imported.len() as int,
        ),
        None => s.imported.len() == 0,
    }
    &&& match s.stage {
        Stage::AwaitVaultCopy => s.config.vault_path is None && s.identity_override is Some
            && s.vault is None,
        Stage::AwaitOverridePersist => s.config.vault_path is Some && s.config.identity is Some
            && s.vault is None,
        Stage::AwaitVault => s.config.vault_path is Some && s.vault is None,
        Stage::AwaitIdentity => s.vault is Some && s.config.identity is Some && s.identity is None,
        Stage::AwaitDefaultVault => s.vault is None && s.identity is None,
        Stage::AwaitDefaultVaultPersist => s.vault is None && s.identity is None
            && s.config.vault_path is Some,
        Stage::AwaitDefaultIdentity => s.vault is Some && s.identity is None,
        Stage::AwaitDefaultIdentityPersist => s.vault is Some && s.identity is None
            && s.config.identity is Some,
        Stage::AwaitAuthority => s.vault is Some && s.identity is Some && (
        s.authorities_config matches Some(list) && s.imported.len() < list.len()),
        Stage::Ready => {
            &&& !s.skip_defaults ==> s.vault is Some && s.identity is Some
            &&& s.authorities == if s.skip_defaults {
                None
            } else {
                match s.authorities_config {
                    Some(list) => Some(verified_prefix(list, list.len() as int)),
                    None => None,
                }
            }
        },
        _ => true,
    }
}

/// A construction begins in a state of which [`inv`] holds.
pub proof fn lemma_initial_inv(s: BootView)
    requires
        initial(s),
    ensures
        inv(s),
{
    assert(s.imported =~= verified_prefix(Seq::empty(), 0));
    match s.authorities_config {
        Some(list) => {
            assert(s.imported =~= verified_prefix(list, 0));
        },
        None => {},
    }
}

/// Each step keeps [`inv`].
pub proof fn lemma_step_inv(s: BootView, event: EventView)
    requires
        inv(s),
    ensures
        inv(step(s, event).0),
{
    let t = step(s, event).0;
    if s.stage == Stage::AwaitAuthority && event == EventView::Completed {
        let list = s.authorities_config->0;
        let n = s.imported.len() as int;
        let grown = s.imported.push(verified(list[n]));
        assert(grown =~= verified_prefix(list, n + 1));
        if n + 1 == list.len() {
            assert(grown =~= verified_prefix(list, list.len() as int));
        }
    }
    match t.authorities_config {
        Some(list) => {
            assert(Seq::<AuthorityView>::empty() =~= verified_prefix(list, 0));
        },
        None => {},
    }
}

/// Every run of a construction keeps [`inv`].
pub proof fn lemma_run_inv(s: BootView, events: Seq<EventView>)
    requires
        inv(s),
    ensures
        inv(run(s, events)),
    decreases events.len(),
{
    if events.len() > 0 {
        lemma_run_inv(s, events.drop_last());
        lemma_step_inv(run(s, events.drop_last()), events.last());
    }
}

/// The manager that a complete construction hands over.
pub open spec fn manager_of(s: BootView) -> ManagerView {
    ManagerView {
        node_name: s.node_name,
        node_dir: s.node_dir,
        config: s.config,
        api_transport_id: s.api_transport_id,
        transports: s.transports,
        controller_identity_id: s.controller_identity_id,
        skip_defaults: s.skip_defaults,
        enable_credential_checks: s.enable_credential_checks,
        vault: s.vault,
        identity: s.identity,
        project_id: s.project_id,
        authorities: s.authorities,
        registry: Seq::empty(),
    }
}

fn copy_text(text: &Option<String>) -> (copy: Option<String>)
    ensures
        text_of(copy) == text_of(*text),
{
    match text {
        Some(t) => Some(t.clone()),
        None => None,
    }
}

fn copy_bytes(bytes: &Option<Vec<u8>>) -> (copy: Option<Vec<u8>>)
    ensures
        bytes_of(copy) == bytes_of(*bytes),
{
    match bytes {
        Some(b) => Some(b.clone()),
        None => None,
    }
}

/// A node manager under construction.
pub struct Bootstrap {
    stage: Stage,
    node_name: String,
    node_dir: String,
    identity_override: Option<IdentityOverride>,
    skip_defaults: bool,
    enable_credential_checks: bool,
    authorities_config: Option<Vec<AuthorityEntry>>,
    project_id: Option<Vec<u8>>,
    api_transport_id: Alias,
    transports: TransportRegistry,
    config: NodeManConfig,
    vault: Option<String>,
    identity: Option<Vec<u8>>,
    controller_identity_id: String,
    imported: Vec<AuthorityInfo>,
    authorities: Option<Authorities>,
    error: Option<ApiError>,
}

impl View for Bootstrap {
    type V = BootView;

    closed spec fn view(&self) -> BootView {
        BootView {
            stage: self.stage,
            node_name: self.node_name@,
            node_dir: self.node_dir@,
            identity_override: override_of(self.identity_override),
            skip_defaults: self.skip_defaults,
            enable_credential_checks: self.enable_credential_checks,
            authorities_config: entries_of_config(self.authorities_config),
            project_id: bytes_of(self.project_id),
            api_transport_id: self.api_transport_id@,
            transports: self.transports@,
            config: self.config@,
            vault: text_of(self.vault),
            identity: bytes_of(self.identity),
            controller_identity_id: self.controller_identity_id@,
            imported: authority_views(self.imported@),
            authorities: authorities_of(self.authorities),
            error: error_of(self.error),
        }
    }
}

impl NodeManager {
    /// Begins the construction of a node manager: gives the transport of the
    /// node's own interface an alias, and asks for the record of the node
    /// directory.
    pub fn create(
        node_name: String,
        node_dir: String,
        identity_override: Option<IdentityOverride>,
        skip_defaults: bool,
        enable_credential_checks: bool,
        authorities_config: Option<Vec<AuthorityEntry>>,
        project_id: Option<Vec<u8>>,
        api_transport: Transport,
    ) -> (r: (Bootstrap, Action))
        ensures
            r.0.wf(),
            initial(r.0@),
            is_alias(r.0@.api_transport_id),
            r.0@.transports == seq![
                Entry { alias: r.0@.api_transport_id, transport: api_transport@ },
            ],
            r.0@.node_name == node_name@,
            r.0@.node_dir == node_dir@,
            r.0@.identity_override == override_of(identity_override),
            r.0@.skip_defaults == skip_defaults,
            r.0@.enable_credential_checks == enable_credential_checks,
            r.0@.authorities_config == entries_of_config(authorities_config),
            r.0@.project_id == bytes_of(project_id),
            r.1@ == (ActionView::LoadConfig { node_dir: node_dir@ }),
    {
        let api_transport_id = random_alias();
        let mut transports = TransportRegistry::new();
        transports.insert(api_transport_id.clone(), api_transport);
        let action = Action::LoadConfig { node_dir: node_dir.clone() };
        let boot = Bootstrap {
            stage: Stage::AwaitConfig,
            node_name,
            node_dir,
            identity_override,
            skip_defaults,
            enable_credential_checks,
            authorities_config,
            project_id,
            api_transport_id,
            transports,
            config: NodeManConfig::new(),
            vault: None,
            identity: None,
            controller_identity_id: String::from_str(""),
            imported: Vec::new(),
            authorities: None,
            error: None,
        };
        proof {
            assert(boot@.transports =~= seq![
                Entry { alias: boot@.api_transport_id, transport: api_transport@ },
            ]);
            assert(boot@.imported =~= Seq::<AuthorityView>::empty());
            lemma_initial_inv(boot@);
        }
        (boot, action)
    }
}

impl Bootstrap {
    /// What holds of every construction.
    pub open spec fn wf(&self) -> bool {
        inv(self@)
    }

    pub fn stage(&self) -> (stage: Stage)
        ensures
            stage == self@.stage,
    {
        self.stage
    }

    /// The alias of the transport of the node's own interface.
    pub fn api_transport_id(&self) -> (alias: &str)
        ensures
            alias@ == self@.api_transport_id,
    {
        self.api_transport_id.as_str()
    }

    /// The record as the construction has it.
    pub fn config(&self) -> (config: &NodeManConfig)
        ensures
            config@ == self@.config,
    {
        &self.config
    }

    fn fail(&mut self, error: ApiError) -> (action: Action)
        ensures
            (final(self)@, action@) == fail(old(self)@, error@),
    {
        self.stage = Stage::Failed;
        self.error = Some(error.duplicate());
        Action::Abort(error)
    }

    fn persist(&mut self, stage: Stage) -> (action: Action)
        ensures
            (final(self)@, action@) == persist(old(self)@, stage, old(self)@.config),
    {
        self.stage = stage;
        Action::PersistConfig(self.config.duplicate())
    }

    fn enter_storage(&mut self) -> (action: Action)
        ensures
            (final(self)@, action@) == enter_storage(old(self)@),
    {
        match &self.config.authenticated_storage_path {
            Some(path) => {
                let path = path.clone();
                self.stage = Stage::AwaitStorage;
                Action::OpenStorage { path }
            },
            None => {
                self.config.authenticated_storage_path = Some(
                    storage_path_in(self.node_dir.as_str()),
                );
                self.persist(Stage::AwaitStoragePersist)
            },
        }
    }

    fn enter_override(&mut self) -> (action: Action)
        ensures
            (final(self)@, action@) == enter_override(old(self)@),
    {
        if self.config.vault_path.is_none() {
            match &self.identity_override {
                Some(o) => {
                    let from = o.vault_path.clone();
                    self.stage = Stage::AwaitVaultCopy;
                    return Action::CopyVault { from, to: vault_path_in(self.node_dir.as_str()) };
                },
                None => {},
            }
        }
        self.enter_vault()
    }

    fn after_copy(&mut self) -> (action: Action)
        ensures
            (final(self)@, action@) == after_copy(old(self)@),
    {
        match &self.identity_override {
            Some(o) => {
                let identity = o.identity.clone();
                self.config.vault_path = Some(vault_path_in(self.node_dir.as_str()));
                self.config.identity = Some(identity);
                self.config.identity_was_overridden = true;
                self.persist(Stage::AwaitOverridePersist)
            },
            None => self.fail(ApiError::new(Origin::Api, Kind::Invalid, "Unexpected event")),
        }
    }

    fn enter_vault(&mut self) -> (action: Action)
        ensures
            (final(self)@, action@) == enter_vault(old(self)@),
    {
        match &self.config.vault_path {
            Some(path) => {
                let path = path.clone();
                self.stage = Stage::AwaitVault;
                Action::OpenVault { path }
            },
            None => self.enter_validation(),
        }
    }

    fn enter_identity(&mut self) -> (action: Action)
        ensures
            (final(self)@, action@) == enter_identity(old(self)@),
    {
        match &self.config.identity {
            Some(identity) => {
                let identity = identity.clone();
                self.stage = Stage::AwaitIdentity;
                Action::ImportIdentity { identity }
            },
            None => self.enter_validation(),
        }
    }

    fn enter_validation(&mut self) -> (action: Action)
        ensures
            (final(self)@, action@) == enter_validation(old(self)@),
    {
        if self.enable_credential_checks && (self.authorities_config.is_none()
            || self.project_id.is_none()) {
            self.fail(ApiError::new(Origin::Ockam, Kind::Invalid, "Invalid NodeManager options"))
        } else {
            self.stage = Stage::AwaitControllerIdentity;
            Action::LoadControllerIdentity
        }
    }

    fn create_defaults(&mut self) -> (action: Action)
        ensures
            (final(self)@, action@) == create_defaults(old(self)@),
    {
        if self.skip_defaults {
            self.stage = Stage::Ready;
            Action::Finish
        } else if self.vault.is_none() {
            self.stage = Stage::AwaitDefaultVault;
            Action::CreateVault { path: vault_path_in(self.node_dir.as_str()) }
        } else {
            self.enter_default_identity()
        }
    }

    fn enter_default_identity(&mut self) -> (action: Action)
        ensures
            (final(self)@, action@) == enter_default_identity(old(self)@),
    {
        if self.identity.is_none() {
            self.stage = Stage::AwaitDefaultIdentity;
            Action::CreateIdentity
        } else {
            self.configure_authorities()
        }
    }

    /// How many authorities the configuration names, if it names any.
    fn configured(&self) -> (n: Option<usize>)
        ensures
            match n {
                Some(n) => self@.authorities_config matches Some(list) && list.len() == n,
                None => self@.authorities_config is None,
            },
    {
        match &self.authorities_config {
            Some(list) => Some(list.len()),
            None => None,
        }
    }

    fn configure_authorities(&mut self) -> (action: Action)
        ensures
            (final(self)@, action@) == configure_authorities(old(self)@),
    {
        match self.configured() {
            None => {
                self.stage = Stage::Ready;
                Action::Finish
            },
            Some(total) => {
                let done = self.imported.len();
                if self.vault.is_none() {
                    self.fail(ApiError::not_found("Vault doesn't exist"))
                } else if done < total {
                    let identity = match &self.authorities_config {
                        Some(list) => list[done].identity.clone(),
                        None => Vec::new(),
                    };
                    self.stage = Stage::AwaitAuthority;
                    Action::ImportAuthority { identity }
                } else {
                    let mut imported: Vec<AuthorityInfo> = Vec::new();
                    core::mem::swap(&mut self.imported, &mut imported);
                    self.authorities = Some(Authorities::new(imported));
                    self.stage = Stage::Ready;
                    assert(authority_views(self.imported@) =~= Seq::<AuthorityView>::empty());
                    Action::Finish
                }
            },
        }
    }

    fn after_authority(&mut self) -> (action: Action)
        ensures
            (final(self)@, action@) == after_authority(old(self)@),
    {
        let done = self.imported.len();
        match &self.authorities_config {
            Some(list) => {
                if done < list.len() {
                    let info = AuthorityInfo::from_entry(&list[done]);
                    assert(authority_views(self.imported@.push(info)) =~= authority_views(
                        self.imported@,
                    ).push(info@));
                    self.imported.push(info);
                    return self.configure_authorities();
                }
            },
            None => {},
        }
        self.fail(ApiError::new(Origin::Api, Kind::Invalid, "Unexpected event"))
    }

    fn on_completed(&mut self) -> (action: Action)
        ensures
            (final(self)@, action@) == on_completed(old(self)@),
    {
        match self.stage {
            Stage::AwaitStoragePersist => self.enter_storage(),
            Stage::AwaitStorage => self.enter_override(),
            Stage::AwaitVaultCopy => self.after_copy(),
            Stage::AwaitOverridePersist => self.enter_vault(),
            Stage::AwaitVault => {
                self.vault = copy_text(&self.config.vault_path);
                self.enter_identity()
            },
            Stage::AwaitIdentity => {
                self.identity = copy_bytes(&self.config.identity);
                self.enter_validation()
            },
            Stage::AwaitDefaultVault => {
                self.config.vault_path = Some(vault_path_in(self.node_dir.as_str()));
                self.persist(Stage::AwaitDefaultVaultPersist)
            },
            Stage::AwaitDefaultVaultPersist => {
                self.vault = copy_text(&self.config.vault_path);
                self.enter_default_identity()
            },
            Stage::AwaitDefaultIdentityPersist => {
                self.identity = copy_bytes(&self.config.identity);
                self.configure_authorities()
            },
            Stage::AwaitAuthority => self.after_authority(),
            _ => self.fail(ApiError::new(Origin::Api, Kind::Invalid, "Unexpected event")),
        }
    }

    fn failure_at(&self, error: ApiError) -> (e: ApiError)
        ensures
            e@ == failure_at(self@.stage, error@),
    {
        match self.stage {
            Stage::AwaitStoragePersist
            | Stage::AwaitOverridePersist
            | Stage::AwaitDefaultVaultPersist
            | Stage::AwaitDefaultIdentityPersist => ApiError::internal(error.message),
            Stage::AwaitVaultCopy => ApiError::new(
                Origin::Application,
                Kind::Internal,
                "Error while copying default node",
            ),
            _ => error,
        }
    }

    /// Takes the outcome of the work that was asked for last, and says what
    /// to do next.
    pub fn step(&mut self, event: Event) -> (action: Action)
        requires
            old(self).wf(),
        ensures
            final(self).wf(),
            (final(self)@, action@) == step(old(self)@, event@),
    {
        proof {
            lemma_step_inv(self@, event@);
        }
        match self.stage {
            Stage::Ready => {
                return Action::Finish;
            },
            Stage::Failed => {
                return match &self.error {
                    Some(e) => Action::Abort(e.duplicate()),
                    None => Action::Abort(
                        ApiError::new(Origin::Api, Kind::Invalid, "Unexpected event"),
                    ),
                };
            },
            _ => {},
        }
        match event {
            Event::Failed(error) => {
                let error = self.failure_at(error);
                self.fail(error)
            },
            Event::ConfigLoaded(config) => {
                if self.stage == Stage::AwaitConfig {
                    self.config = config;
                    self.enter_storage()
                } else {
                    self.fail(ApiError::new(Origin::Api, Kind::Invalid, "Unexpected event"))
                }
            },
            Event::Completed => self.on_completed(),
            Event::IdentityCreated(identity) => {
                if self.stage == Stage::AwaitDefaultIdentity {
                    self.config.identity = Some(identity);
                    self.config.identity_was_overridden = false;
                    self.persist(Stage::AwaitDefaultIdentityPersist)
                } else {
                    self.fail(ApiError::new(Origin::Api, Kind::Invalid, "Unexpected event"))
                }
            },
            Event::ControllerIdentity(id) => {
                if self.stage == Stage::AwaitControllerIdentity {
                    self.controller_identity_id = id;
                    self.create_defaults()
                } else {
                    self.fail(ApiError::new(Origin::Api, Kind::Invalid, "Unexpected event"))
                }
            },
        }
    }

    /// Hands over the manager of a complete construction. A construction
    /// that has failed gives its error, and one that is still under way is
    /// refused.
    pub fn finish(self) -> (r: Result<NodeManager, ApiError>)
        requires
            self.wf(),
        ensures
            match r {
                Ok(m) => self@.stage == Stage::Ready && m.wf() && m@ == manager_of(self@),
                Err(e) => self@.stage != Stage::Ready && e@ == match self@.error {
                    Some(error) => error,
                    None => not_complete(),
                },
            },
    {
        match self.stage {
            Stage::Ready => Ok(
                NodeManager::assemble(
                    self.node_name,
                    self.node_dir,
                    self.config,
                    self.api_transport_id,
                    self.transports,
                    self.controller_identity_id,
                    self.skip_defaults,
                    self.enable_credential_checks,
                    self.vault,
                    self.identity,
                    self.project_id,
                    self.authorities,
                ),
            ),
            _ => match self.error {
                Some(e) => Err(e),
                None => Err(
                    ApiError::new(Origin::Api, Kind::Invalid, "Construction is not complete"),
                ),
            },
        }
    }
}

/// What a construction was asked for, which no step changes.
pub open spec fn same_request(a: BootView, b: BootView) -> bool {
    &&& a.node_name == b.node_name
    &&& a.node_dir == b.node_dir
    &&& a.identity_override == b.identity_override
    &&& a.skip_defaults == b.skip_defaults
    &&& a.enable_credential_checks == b.enable_credential_checks
    &&& a.authorities_config == b.authorities_config
    &&& a.project_id == b.project_id
    &&& a.api_transport_id == b.api_transport_id
    &&& a.transports == b.transports
}

/// No run changes what the construction was asked for, and no run leads
/// back to the reading of the record.
pub proof fn lemma_run_keeps_request(s: BootView, events: Seq<EventView>)
    ensures
        same_request(run(s, events), s),
        options_valid(run(s, events)) == options_valid(s),
        s.stage != Stage::AwaitConfig || events.len() > 0 ==> run(s, events).stage
            != Stage::AwaitConfig,
    decreases events.len(),
{
    if events.len() > 0 {
        lemma_run_keeps_request(s, events.drop_last());
    }
}

/// How many events a construction can take at most before its options are
/// checked.
pub open spec fn steps_to_check(stage: Stage) -> nat {
    match stage {
        Stage::AwaitConfig => 7,
        Stage::AwaitStoragePersist => 6,
        Stage::AwaitStorage => 5,
        Stage::AwaitVaultCopy => 4,
        Stage::AwaitOverridePersist => 3,
        Stage::AwaitVault => 2,
        Stage::AwaitIdentity => 1,
        _ => 0,
    }
}

/// Whether `event` is the outcome that `stage` waits for. A construction
/// that has come to its end waits for nothing, and lets every event pass.
pub open spec fn awaited(stage: Stage, event: EventView) -> bool {
    match stage {
        Stage::Ready | Stage::Failed => true,
        Stage::AwaitConfig => event is ConfigLoaded || event is Failed,
        Stage::AwaitControllerIdentity => event is ControllerIdentity || event is Failed,
        Stage::AwaitDefaultIdentity => event is IdentityCreated || event is Failed,
        _ => event is Completed || event is Failed,
    }
}

/// A run in which each event is the one awaited, and no work fails.
pub open spec fn smooth(s: BootView, events: Seq<EventView>) -> bool
    decreases events.len(),
{
    events.len() == 0 || {
        &&& smooth(s, events.drop_last())
        &&& events.last() !is Failed
        &&& awaited(run(s, events.drop_last()).stage, events.last())
    }
}

/// Whether the construction has come to its end.
pub open spec fn ended(stage: Stage) -> bool {
    stage == Stage::Ready || stage == Stage::Failed
}

/// How many events a construction can still take at most.
pub open spec fn steps_left(s: BootView) -> nat {
    let authorities: nat = match s.authorities_config {
        Some(list) => list.len(),
        None => 0,
    };
    match s.stage {
        Stage::AwaitConfig => 12 + authorities,
        Stage::AwaitStoragePersist => 11 + authorities,
        Stage::AwaitStorage => 10 + authorities,
        Stage::AwaitVaultCopy => 9 + authorities,
        Stage::AwaitOverridePersist => 8 + authorities,
        Stage::AwaitVault => 7 + authorities,
        Stage::AwaitIdentity => 6 + authorities,
        Stage::AwaitControllerIdentity => 5 + authorities,
        Stage::AwaitDefaultVault => 4 + authorities,
        Stage::AwaitDefaultVaultPersist => 3 + authorities,
        Stage::AwaitDefaultIdentity => 2 + authorities,
        Stage::AwaitDefaultIdentityPersist => 1 + authorities,
        Stage::AwaitAuthority => (authorities - s.imported.len()) as nat,
        Stage::Ready | Stage::Failed => 0,
    }
}

/// A run in which each event is the one awaited. The work may fail.
pub open spec fn orderly(s: BootView, events: Seq<EventView>) -> bool
    decreases events.len(),
{
    events.len() == 0 || {
        &&& orderly(s, events.drop_last())
        &&& awaited(run(s, events.drop_last()).stage, events.last())
    }
}

/// Each awaited event brings a construction nearer to its end.
pub proof fn lemma_step_makes_progress(s: BootView, event: EventView)
    requires
        inv(s),
        !ended(s.stage),
        awaited(s.stage, event),
    ensures
        steps_left(step(s, event).0) < steps_left(s),
{
}

/// Every construction comes to its end: after as many awaited events as
/// [`steps_left`] says at the beginning, it is complete or has failed.
pub proof fn lemma_construction_ends(s: BootView, events: Seq<EventView>)
    requires
        initial(s),
        orderly(s, events),
    ensures
        ended(run(s, events).stage) || steps_left(run(s, events)) + events.len() <= steps_left(s),
        events.len() >= steps_left(s) ==> ended(run(s, events).stage),
    decreases events.len(),
{
    lemma_initial_inv(s);
    lemma_run_inv(s, events);
    if events.len() > 0 {
        let before = events.drop_last();
        lemma_construction_ends(s, before);
        lemma_run_inv(s, before);
        if !ended(run(s, before).stage) {
            lemma_step_makes_progress(run(s, before), events.last());
        }
    }
}

/// A construction that is asked for credential checks without authorities,
/// or without a project, never passes the check of its options, so it is
/// never complete. When all its work succeeds it fails with
/// [`invalid_options`], after seven events at most.
pub proof fn lemma_unenforceable_checks_fail(s: BootView, events: Seq<EventView>)
    requires
        initial(s),
        !options_valid(s),
    ensures
        !checked(run(s, events).stage),
        run(s, events).stage != Stage::Ready,
        smooth(s, events) && run(s, events).stage == Stage::Failed ==> run(s, events).error
            == Some(invalid_options()),
        smooth(s, events) ==> run(s, events).stage == Stage::Failed || steps_to_check(
            run(s, events).stage,
        ) + events.len() <= 7,
        smooth(s, events) && events.len() >= 7 ==> run(s, events).stage == Stage::Failed,
    decreases events.len(),
{
    lemma_initial_inv(s);
    lemma_run_inv(s, events);
    lemma_run_keeps_request(s, events);
    if events.len() > 0 {
        let before = events.drop_last();
        lemma_unenforceable_checks_fail(s, before);
        lemma_run_inv(s, before);
        lemma_run_keeps_request(s, before);
    }
}

/// A complete construction that did not skip its defaults has a vault and an
/// identity, whatever the node directory held. Every complete construction
/// has the transport of the node's own interface in its registry, and has a
/// project when it checks credentials.
pub proof fn lemma_complete_construction(s: BootView, events: Seq<EventView>)
    requires
        initial(s),
        run(s, events).stage == Stage::Ready,
    ensures
        manager_inv(manager_of(run(s, events))),
        !s.skip_defaults ==> manager_of(run(s, events)).vault is Some && manager_of(
            run(s, events),
        ).identity is Some,
        crate::transport::holds(
            manager_of(run(s, events)).transports,
            manager_of(run(s, events)).api_transport_id,
        ),
        s.enable_credential_checks ==> s.authorities_config is Some && s.project_id is Some,
        !s.skip_defaults && s.authorities_config is Some ==> manager_of(
            run(s, events),
        ).authorities is Some,
{
    lemma_initial_inv(s);
    lemma_run_inv(s, events);
    lemma_run_keeps_request(s, events);
    let t = run(s, events);
    assert(t.transports[0].alias == t.api_transport_id);
}

/// The authorities of a construction are all those of its configuration,
/// each one verified, or none at all.
pub proof fn lemma_authorities_are_whole(s: BootView, events: Seq<EventView>)
    requires
        initial(s),
    ensures
        match run(s, events).authorities {
            Some(authorities) => s.authorities_config matches Some(list) && authorities
                =~= list.map_values(|e: AuthorityEntryView| verified(e)),
            None => true,
        },
{
    lemma_initial_inv(s);
    lemma_run_inv(s, events);
    lemma_run_keeps_request(s, events);
}

/// The three values that a node finds again when it starts anew.
pub open spec fn same_places(a: ConfigView, b: ConfigView) -> bool {
    &&& a.vault_path == b.vault_path
    &&& a.identity == b.identity
    &&& a.authenticated_storage_path == b.authenticated_storage_path
}

pub open spec fn populated(c: ConfigView) -> bool {
    c.vault_path is Some && c.identity is Some && c.authenticated_storage_path is Some
}

/// What the node directory holds after a run that began with the reading of
/// `loaded`: the record that was last written.
pub open spec fn written(s: BootView, loaded: ConfigView, events: Seq<EventView>) -> ConfigView
    decreases events.len(),
{
    if events.len() == 0 {
        loaded
    } else {
        let before = run(s, events.drop_last());
        if persists(before.stage) && events.last() == EventView::Completed {
            before.config
        } else {
            written(s, loaded, events.drop_last())
        }
    }
}

/// The stages in which a vault file is copied or a new vault is made.
spec fn makes_vault(stage: Stage) -> bool {
    match stage {
        Stage::AwaitVaultCopy
        | Stage::AwaitOverridePersist
        | Stage::AwaitDefaultVault
        | Stage::AwaitDefaultVaultPersist => true,
        _ => false,
    }
}

/// The stages in which a new identity is made.
spec fn makes_identity(stage: Stage) -> bool {
    stage == Stage::AwaitDefaultIdentity || stage == Stage::AwaitDefaultIdentityPersist
}

/// What holds of a construction that has read the record `loaded`: it has
/// kept what the record held, and it makes neither a vault nor an identity
/// where the record gave it one.
spec fn kept(t: BootView, loaded: ConfigView) -> bool {
    &&& t.stage != Stage::AwaitConfig
    &&& loaded.authenticated_storage_path is Some ==> t.config.authenticated_storage_path
        == loaded.authenticated_storage_path
    &&& loaded.vault_path is Some ==> {
        &&& t.config.vault_path == loaded.vault_path
        &&& !makes_vault(t.stage)
        &&& !before_vault(t.stage) && t.stage != Stage::Failed ==> t.vault is Some
    }
    &&& loaded.vault_path is Some && loaded.identity is Some ==> {
        &&& t.config.identity == loaded.identity
        &&& !makes_identity(t.stage)
        &&& checked(t.stage) ==> t.identity is Some
    }
    &&& t.skip_defaults && t.identity_override is None ==> {
        &&& t.config.vault_path == loaded.vault_path
        &&& t.config.identity == loaded.identity
        &&& t.config.identity_was_overridden == loaded.identity_was_overridden
        &&& !makes_vault(t.stage)
        &&& !makes_identity(t.stage)
    }
}

proof fn lemma_step_keeps(s: BootView, loaded: ConfigView, event: EventView)
    requires
        inv(s),
        kept(s, loaded),
    ensures
        kept(step(s, event).0, loaded),
{
}

/// While a construction is under way, the node directory holds its record,
/// but for a change that waits to be written.
proof fn lemma_written(s: BootView, loaded: ConfigView, events: Seq<EventView>)
    requires
        initial(s),
        events.len() > 0,
        events[0] == EventView::ConfigLoaded(loaded),
    ensures
        ({
            let t = run(s, events);
            t.stage != Stage::Failed && !persists(t.stage) ==> written(s, loaded, events)
                == t.config
        }),
    decreases events.len(),
{
    lemma_initial_inv(s);
    let before = events.drop_last();
    lemma_run_inv(s, before);
    lemma_run_keeps_request(s, before);
    if before.len() > 0 {
        assert(before[0] == events[0]);
        lemma_written(s, loaded, before);
    } else {
        assert(run(s, before) == s);
        assert(events.last() == events[0]);
        assert(written(s, loaded, before) == loaded);
    }
}

/// The record of a complete construction is the one in the node directory.
pub proof fn lemma_complete_record_is_written(
    s: BootView,
    loaded: ConfigView,
    events: Seq<EventView>,
)
    requires
        initial(s),
        events.len() > 0,
        events[0] == EventView::ConfigLoaded(loaded),
        run(s, events).stage == Stage::Ready,
    ensures
        written(s, loaded, events) == run(s, events).config,
{
    lemma_written(s, loaded, events);
}

/// A construction keeps what the record that it reads holds: the storage
/// path, the vault path, and the identity that comes with a vault path. What
/// the record lacks may be filled in. A construction that skips its
/// defaults and has no identity to seed fills in neither vault path nor
/// identity.
pub proof fn lemma_record_is_kept(s: BootView, loaded: ConfigView, events: Seq<EventView>)
    requires
        initial(s),
        events.len() > 0,
        events[0] == EventView::ConfigLoaded(loaded),
    ensures
        loaded.authenticated_storage_path is Some ==> run(
            s,
            events,
        ).config.authenticated_storage_path == loaded.authenticated_storage_path,
        loaded.vault_path is Some ==> run(s, events).config.vault_path == loaded.vault_path,
        loaded.vault_path is Some && loaded.identity is Some ==> run(s, events).config.identity
            == loaded.identity,
        s.skip_defaults && s.identity_override is None ==> run(s, events).config.vault_path
            == loaded.vault_path && run(s, events).config.identity == loaded.identity,
{
    lemma_kept(s, loaded, events);
    lemma_run_keeps_request(s, events);
}

/// A construction that reads a populated record keeps its vault path, its
/// identity and its storage path through every run.
pub proof fn lemma_populated_record_is_kept(
    s: BootView,
    loaded: ConfigView,
    events: Seq<EventView>,
)
    requires
        initial(s),
        populated(loaded),
        events.len() > 0,
        events[0] == EventView::ConfigLoaded(loaded),
    ensures
        same_places(run(s, events).config, loaded),
{
    lemma_record_is_kept(s, loaded, events);
}

proof fn lemma_kept(s: BootView, loaded: ConfigView, events: Seq<EventView>)
    requires
        initial(s),
        events.len() > 0,
        events[0] == EventView::ConfigLoaded(loaded),
    ensures
        kept(run(s, events), loaded),
    decreases events.len(),
{
    lemma_initial_inv(s);
    let before = events.drop_last();
    lemma_run_inv(s, before);
    if before.len() > 0 {
        assert(before[0] == events[0]);
        lemma_kept(s, loaded, before);
        lemma_step_keeps(run(s, before), loaded, events.last());
    } else {
        assert(run(s, before) == s);
        assert(events.last() == events[0]);
    }
}

/// Whatever a complete construction has left in the node directory, a later
/// construction finds it again: the storage path always, the vault path
/// where there is one, and the identity where there is one with a vault
/// path. A later construction that skips its defaults and has no identity to
/// seed leaves all three as they are.
pub proof fn lemma_later_construction_reloads(
    first: BootView,
    loaded: ConfigView,
    events: Seq<EventView>,
    second: BootView,
    later: Seq<EventView>,
)
    requires
        initial(first),
        events.len() > 0,
        events[0] == EventView::ConfigLoaded(loaded),
        run(first, events).stage == Stage::Ready,
        initial(second),
        later.len() > 0,
        later[0] == EventView::ConfigLoaded(written(first, loaded, events)),
    ensures
        ({
            let left = written(first, loaded, events);
            let found = run(second, later).config;
            &&& left.authenticated_storage_path is Some
            &&& found.authenticated_storage_path == left.authenticated_storage_path
            &&& left.vault_path is Some ==> found.vault_path == left.vault_path
            &&& left.vault_path is Some && left.identity is Some ==> found.identity
                == left.identity
            &&& second.skip_defaults && second.identity_override is None ==> same_places(
                found,
                left,
            )
        }),
{
    lemma_complete_record_is_written(first, loaded, events);
    lemma_initial_inv(first);
    lemma_run_inv(first, events);
    lemma_record_is_kept(second, written(first, loaded, events), later);
}

/// A node directory that a complete construction with defaults has left
/// gives every later construction, whatever it is asked for, the same vault
/// path, identity and storage path.
pub proof fn lemma_second_construction_reloads(
    first: BootView,
    loaded: ConfigView,
    events: Seq<EventView>,
    second: BootView,
    later: Seq<EventView>,
)
    requires
        initial(first),
        !first.skip_defaults,
        events.len() > 0,
        events[0] == EventView::ConfigLoaded(loaded),
        run(first, events).stage == Stage::Ready,
        initial(second),
        later.len() > 0,
        later[0] == EventView::ConfigLoaded(written(first, loaded, events)),
    ensures
        populated(written(first, loaded, events)),
        same_places(run(second, later).config, written(first, loaded, events)),
{
    lemma_complete_record_is_written(first, loaded, events);
    lemma_initial_inv(first);
    lemma_run_inv(first, events);
    lemma_run_keeps_request(first, events);
    lemma_populated_record_is_kept(second, written(first, loaded, events), later);
}

} // verus!
