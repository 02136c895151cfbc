use node_manager::authorities::AuthorityEntry;
use node_manager::bootstrap::{Action, Bootstrap, Event, Stage};
use node_manager::config::NodeManConfig;
use node_manager::envelope::{Method, Request, Status};
use node_manager::error::{ApiError, Kind, Origin};
use node_manager::manager::{
    conclude, Body, Creation, DefaultAddress, DefaultService, IdentityOverride, NodeManager,
    NodeStatus, Outgoing, Startup,
    Response, Step,
};
use node_manager::registry::WorkerKind;
use node_manager::router::Endpoint;
use node_manager::transport::{Transport, TransportMode, TransportStatus, TransportType};
use ockam_multiaddr::MultiAddr;

/// What stands in for the node directory and the collaborators of a node.
struct World {
    disk: Option<NodeManConfig>,
    writes: usize,
    copies: Vec<(String, String)>,
    opened_vaults: Vec<String>,
    created_vaults: Vec<String>,
    imported_identities: Vec<Vec<u8>>,
    created_identities: usize,
    verified_authorities: Vec<Vec<u8>>,
    fail_on: Option<fn(&Action) -> bool>,
    log: Vec<Action>,
}

impl World {
    fn new(disk: Option<NodeManConfig>) -> World {
        World {
            disk,
            writes: 0,
            copies: vec![],
            opened_vaults: vec![],
            created_vaults: vec![],
            imported_identities: vec![],
            created_identities: 0,
            verified_authorities: vec![],
            fail_on: None,
            log: vec![],
        }
    }

    fn perform(&mut self, action: &Action) -> Event {
        self.log.push(action.clone());
        if let Some(fails) = self.fail_on {
            if fails(action) {
                return Event::Failed(ApiError::new(Origin::Core, Kind::Internal, "it broke"));
            }
        }
        match action {
            Action::LoadConfig { .. } => {
                Event::ConfigLoaded(self.disk.clone().unwrap_or_else(NodeManConfig::new))
            }
            Action::PersistConfig(config) => {
                self.disk = Some(config.clone());
                self.writes += 1;
                Event::Completed
            }
            Action::OpenStorage { .. } => Event::Completed,
            Action::CopyVault { from, to } => {
                self.copies.push((from.clone(), to.clone()));
                Event::Completed
            }
            Action::OpenVault { path } => {
                self.opened_vaults.push(path.clone());
                Event::Completed
            }
            Action::ImportIdentity { identity } => {
                self.imported_identities.push(identity.clone());
                Event::Completed
            }
            Action::LoadControllerIdentity => Event::ControllerIdentity("controller-id".to_string()),
            Action::CreateVault { path } => {
                self.created_vaults.push(path.clone());
                Event::Completed
            }
            Action::CreateIdentity => {
                self.created_identities += 1;
                Event::IdentityCreated(vec![7, 7, 7])
            }
            Action::ImportAuthority { identity } => {
                self.verified_authorities.push(identity.clone());
                Event::Completed
            }
            Action::Finish | Action::Abort(_) => panic!("nothing to perform"),
        }
    }
}

struct Options {
    identity_override: Option<IdentityOverride>,
    skip_defaults: bool,
    enable_credential_checks: bool,
    authorities: Option<Vec<AuthorityEntry>>,
    project_id: Option<Vec<u8>>,
}

fn plain() -> Options {
    Options {
        identity_override: None,
        skip_defaults: false,
        enable_credential_checks: false,
        authorities: None,
        project_id: None,
    }
}

fn api_transport() -> Transport {
    Transport::new(TransportType::Tcp, TransportMode::Listen, "127.0.0.1:4000".to_string())
}

fn begin(options: Options) -> (Bootstrap, Action) {
    NodeManager::create(
        "node".to_string(),
        "/tmp/node".to_string(),
        options.identity_override,
        options.skip_defaults,
        options.enable_credential_checks,
        options.authorities,
        options.project_id,
        api_transport(),
    )
}

fn construct(options: Options, world: &mut World) -> Result<NodeManager, ApiError> {
    let (mut boot, mut action) = begin(options);
    let mut steps = 0;
    loop {
        match action {
            Action::Finish | Action::Abort(_) => break,
            _ => {}
        }
        let event = world.perform(&action);
        action = boot.step(event);
        steps += 1;
        assert!(steps < 100, "the construction does not end");
    }
    match &action {
        Action::Finish => assert_eq!(boot.stage(), Stage::Ready),
        _ => assert_eq!(boot.stage(), Stage::Failed),
    }
    let aborted = match &action {
        Action::Abort(e) => Some(e.clone()),
        _ => None,
    };
    let result = boot.finish();
    if let (Some(e), Err(f)) = (&aborted, &result) {
        assert_eq!(e, f);
    }
    result
}

fn authority(identity: &[u8], route: &str) -> AuthorityEntry {
    AuthorityEntry { identity: identity.to_vec(), access_route: MultiAddr::try_from(route).unwrap() }
}

fn skipped_manager() -> NodeManager {
    let mut world = World::new(None);
    construct(Options { skip_defaults: true, ..plain() }, &mut world).unwrap()
}

fn default_manager() -> NodeManager {
    let mut world = World::new(None);
    construct(plain(), &mut world).unwrap()
}

#[test]
fn construction_begins_with_the_reading_of_the_record() {
    let (boot, action) = begin(plain());
    assert_eq!(action, Action::LoadConfig { node_dir: "/tmp/node".to_string() });
    assert_eq!(boot.stage(), Stage::AwaitConfig);
    assert_eq!(boot.api_transport_id().len(), 32);
}

#[test]
fn fresh_construction_with_defaults_has_vault_and_identity() {
    let mut world = World::new(None);
    let manager = construct(plain(), &mut world).unwrap();
    assert_eq!(manager.vault().unwrap(), "/tmp/node/vault.json");
    assert_eq!(manager.identity().unwrap(), &vec![7, 7, 7]);
    assert_eq!(world.created_vaults, vec!["/tmp/node/vault.json"]);
    assert_eq!(world.created_identities, 1);
    assert!(world.copies.is_empty());
    let config = manager.config();
    assert_eq!(config.vault_path.as_deref(), Some("/tmp/node/vault.json"));
    assert_eq!(config.identity, Some(vec![7, 7, 7]));
    assert_eq!(
        config.authenticated_storage_path.as_deref(),
        Some("/tmp/node/authenticated_storage.lmdb")
    );
    assert!(!config.identity_was_overridden);
    assert_eq!(world.disk.as_ref(), Some(config));
    assert_eq!(manager.controller_identity_id(), "controller-id");
}

#[test]
fn fresh_construction_runs_its_work_in_order() {
    let mut world = World::new(None);
    construct(plain(), &mut world).unwrap();
    let kinds: Vec<&str> = world
        .log
        .iter()
        .map(|a| match a {
            Action::LoadConfig { .. } => "load",
            Action::PersistConfig(_) => "persist",
            Action::OpenStorage { .. } => "storage",
            Action::CopyVault { .. } => "copy",
            Action::OpenVault { .. } => "open-vault",
            Action::ImportIdentity { .. } => "import-identity",
            Action::LoadControllerIdentity => "controller",
            Action::CreateVault { .. } => "create-vault",
            Action::CreateIdentity => "create-identity",
            Action::ImportAuthority { .. } => "authority",
            Action::Finish => "finish",
            Action::Abort(_) => "abort",
        })
        .collect();
    assert_eq!(
        kinds,
        vec![
            "load",
            "persist",
            "storage",
            "controller",
            "create-vault",
            "persist",
            "create-identity",
            "persist"
        ]
    );
}

#[test]
fn api_transport_is_registered_after_construction() {
    let manager = skipped_manager();
    let alias = manager.api_transport_id().to_string();
    assert!(manager.transports().contains(&alias));
    assert_eq!(manager.transports().len(), 1);
    assert_eq!(
        manager.get_tcp_con_or_list(TransportMode::Listen),
        vec![TransportStatus {
            tt: TransportType::Tcp,
            tm: TransportMode::Listen,
            payload: "127.0.0.1:4000".to_string(),
            tid: alias,
        }]
    );
}

#[test]
fn skipped_defaults_leave_vault_and_identity_absent() {
    let mut world = World::new(None);
    let manager = construct(Options { skip_defaults: true, ..plain() }, &mut world).unwrap();
    let e = manager.vault().unwrap_err();
    assert_eq!((e.kind, e.message.as_str()), (Kind::NotFound, "Vault doesn't exist"));
    let e = manager.identity().unwrap_err();
    assert_eq!((e.kind, e.message.as_str()), (Kind::NotFound, "Identity doesn't exist"));
    let e = manager.authorities().err().unwrap();
    assert_eq!((e.kind, e.message.as_str()), (Kind::NotFound, "Authorities don't exist"));
    let e = manager.project_id().unwrap_err();
    assert_eq!((e.kind, e.message.as_str()), (Kind::NotFound, "Project id is not set"));
    assert!(world.created_vaults.is_empty());
    assert_eq!(world.writes, 1);
    assert!(manager.skip_defaults());
}

#[test]
fn credential_checks_without_authorities_are_invalid() {
    for project_id in [None, Some(vec![1u8, 2, 3])] {
        let mut world = World::new(None);
        let err = construct(
            Options { enable_credential_checks: true, project_id, ..plain() },
            &mut world,
        )
        .err()
        .unwrap();
        assert_eq!(err.kind, Kind::Invalid);
        assert_eq!(err.origin, Origin::Ockam);
        assert_eq!(err.message, "Invalid NodeManager options");
    }
}

#[test]
fn credential_checks_without_project_are_invalid() {
    let mut world = World::new(None);
    let err = construct(
        Options {
            enable_credential_checks: true,
            authorities: Some(vec![authority(&[1], "/dnsaddr/localhost/tcp/4000")]),
            ..plain()
        },
        &mut world,
    )
    .err()
    .unwrap();
    assert_eq!(err.kind, Kind::Invalid);
    assert_eq!(err.message, "Invalid NodeManager options");
    assert!(world.verified_authorities.is_empty());
}

#[test]
fn invalid_options_fail_with_skipped_defaults_too() {
    let mut world = World::new(None);
    let err = construct(
        Options { enable_credential_checks: true, skip_defaults: true, ..plain() },
        &mut world,
    )
    .err()
    .unwrap();
    assert_eq!(err.kind, Kind::Invalid);
}

#[test]
fn credential_checks_with_authorities_and_project_are_accepted() {
    let mut world = World::new(None);
    let manager = construct(
        Options {
            enable_credential_checks: true,
            authorities: Some(vec![
                authority(&[1, 1], "/dnsaddr/a.example/tcp/4000"),
                authority(&[2, 2], "/dnsaddr/b.example/tcp/4001"),
            ]),
            project_id: Some(vec![9]),
            ..plain()
        },
        &mut world,
    )
    .unwrap();
    assert!(manager.enable_credential_checks());
    assert_eq!(manager.project_id().unwrap(), &vec![9]);
    let authorities = manager.authorities().ok().unwrap();
    assert_eq!(authorities.len(), 2);
    assert_eq!(authorities.public_identities(), vec![vec![1, 1], vec![2, 2]]);
    assert_eq!(world.verified_authorities, vec![vec![1, 1], vec![2, 2]]);
    let list = authorities.as_ref();
    assert_eq!(list[1].addr(), &MultiAddr::try_from("/dnsaddr/b.example/tcp/4001").unwrap());
    assert_eq!(list[0].identity(), &vec![1, 1]);
}

#[test]
fn an_empty_list_of_authorities_is_a_list() {
    let mut world = World::new(None);
    let manager =
        construct(Options { authorities: Some(vec![]), ..plain() }, &mut world).unwrap();
    assert_eq!(manager.authorities().ok().unwrap().len(), 0);
}

#[test]
fn one_authority_that_fails_leaves_no_manager() {
    let mut world = World::new(None);
    world.fail_on = Some(|a| matches!(a, Action::ImportAuthority { identity } if identity == &vec![2u8]));
    let err = construct(
        Options {
            authorities: Some(vec![
                authority(&[1], "/dnsaddr/a.example/tcp/4000"),
                authority(&[2], "/dnsaddr/b.example/tcp/4000"),
                authority(&[3], "/dnsaddr/c.example/tcp/4000"),
            ]),
            ..plain()
        },
        &mut world,
    )
    .err()
    .unwrap();
    assert_eq!(err.message, "it broke");
    assert_eq!(world.verified_authorities, vec![vec![1]]);
    assert!(!world.log.contains(&Action::ImportAuthority { identity: vec![3] }));
}

#[test]
fn skipped_defaults_do_not_configure_authorities() {
    let mut world = World::new(None);
    let manager = construct(
        Options {
            skip_defaults: true,
            authorities: Some(vec![authority(&[1], "/dnsaddr/a.example/tcp/4000")]),
            ..plain()
        },
        &mut world,
    )
    .unwrap();
    assert!(manager.authorities().is_err());
    assert!(world.verified_authorities.is_empty());
}

#[test]
fn second_construction_reloads_what_the_first_left() {
    let mut world = World::new(None);
    let first = construct(plain(), &mut world).unwrap();
    let left = world.disk.clone().unwrap();
    assert_eq!(&left, first.config());
    let mut again = World::new(Some(left.clone()));
    let second = construct(plain(), &mut again).unwrap();
    assert_eq!(second.config().vault_path, left.vault_path);
    assert_eq!(second.config().identity, left.identity);
    assert_eq!(second.config().authenticated_storage_path, left.authenticated_storage_path);
    assert_eq!(again.writes, 0);
    assert!(again.created_vaults.is_empty());
    assert_eq!(again.created_identities, 0);
    assert_eq!(again.opened_vaults, vec!["/tmp/node/vault.json"]);
    assert_eq!(again.imported_identities, vec![vec![7, 7, 7]]);
    assert_eq!(second.vault().unwrap(), "/tmp/node/vault.json");
    assert_eq!(second.identity().unwrap(), &vec![7, 7, 7]);
}

#[test]
fn later_construction_without_defaults_leaves_the_record() {
    let mut world = World::new(None);
    construct(Options { skip_defaults: true, ..plain() }, &mut world).unwrap();
    let left = world.disk.clone().unwrap();
    assert_eq!(left.vault_path, None);
    assert_eq!(left.identity, None);
    let mut again = World::new(Some(left.clone()));
    let second = construct(Options { skip_defaults: true, ..plain() }, &mut again).unwrap();
    assert_eq!(second.config(), &left);
    assert_eq!(again.writes, 0);
}

#[test]
fn later_construction_with_defaults_fills_what_is_missing() {
    let mut world = World::new(None);
    construct(Options { skip_defaults: true, ..plain() }, &mut world).unwrap();
    let left = world.disk.clone().unwrap();
    let mut again = World::new(Some(left.clone()));
    let second = construct(plain(), &mut again).unwrap();
    assert_eq!(second.config().authenticated_storage_path, left.authenticated_storage_path);
    assert_eq!(second.config().vault_path.as_deref(), Some("/tmp/node/vault.json"));
    assert_eq!(second.config().identity, Some(vec![7, 7, 7]));
}

#[test]
fn identity_without_a_vault_gives_way_to_a_new_one() {
    let mut disk = NodeManConfig::new();
    disk.identity = Some(vec![1, 1]);
    let mut world = World::new(Some(disk));
    let manager = construct(plain(), &mut world).unwrap();
    assert!(world.imported_identities.is_empty());
    assert_eq!(manager.identity().unwrap(), &vec![7, 7, 7]);
    assert_eq!(manager.config().identity, Some(vec![7, 7, 7]));
}

#[test]
fn second_construction_ignores_an_override() {
    let mut world = World::new(None);
    construct(plain(), &mut world).unwrap();
    let left = world.disk.clone().unwrap();
    let mut again = World::new(Some(left.clone()));
    let second = construct(
        Options {
            identity_override: Some(IdentityOverride {
                identity: vec![5, 5],
                vault_path: "/elsewhere/vault.json".to_string(),
            }),
            skip_defaults: true,
            ..plain()
        },
        &mut again,
    )
    .unwrap();
    assert!(again.copies.is_empty());
    assert_eq!(second.config(), &left);
}

#[test]
fn configured_storage_path_is_used() {
    let mut disk = NodeManConfig::new();
    disk.authenticated_storage_path = Some("/data/auth.lmdb".to_string());
    let mut world = World::new(Some(disk));
    let manager = construct(Options { skip_defaults: true, ..plain() }, &mut world).unwrap();
    assert_eq!(manager.config().authenticated_storage_path.as_deref(), Some("/data/auth.lmdb"));
    assert_eq!(world.writes, 0);
    assert!(world.log.contains(&Action::OpenStorage { path: "/data/auth.lmdb".to_string() }));
}

#[test]
fn identity_override_seeds_a_fresh_node() {
    let mut world = World::new(None);
    let manager = construct(
        Options {
            identity_override: Some(IdentityOverride {
                identity: vec![5, 5],
                vault_path: "/elsewhere/vault.json".to_string(),
            }),
            ..plain()
        },
        &mut world,
    )
    .unwrap();
    assert_eq!(
        world.copies,
        vec![("/elsewhere/vault.json".to_string(), "/tmp/node/vault.json".to_string())]
    );
    assert_eq!(manager.identity().unwrap(), &vec![5, 5]);
    assert_eq!(manager.vault().unwrap(), "/tmp/node/vault.json");
    assert!(manager.config().identity_was_overridden);
    assert_eq!(world.opened_vaults, vec!["/tmp/node/vault.json"]);
    assert_eq!(world.imported_identities, vec![vec![5, 5]]);
    assert!(world.created_vaults.is_empty());
    assert_eq!(world.created_identities, 0);
}

#[test]
fn failed_copy_of_the_override_is_reported() {
    let mut world = World::new(None);
    world.fail_on = Some(|a| matches!(a, Action::CopyVault { .. }));
    let err = construct(
        Options {
            identity_override: Some(IdentityOverride {
                identity: vec![5],
                vault_path: "/elsewhere/vault.json".to_string(),
            }),
            ..plain()
        },
        &mut world,
    )
    .err()
    .unwrap();
    assert_eq!(err.message, "Error while copying default node");
    assert_eq!(err.kind, Kind::Internal);
}

#[test]
fn failed_write_of_the_record_is_an_internal_error() {
    let mut world = World::new(None);
    world.fail_on = Some(|a| matches!(a, Action::PersistConfig(_)));
    let err = construct(plain(), &mut world).err().unwrap();
    assert_eq!(err.origin, Origin::Application);
    assert_eq!(err.kind, Kind::Internal);
    assert_eq!(err.message, "it broke");
}

#[test]
fn failed_storage_keeps_its_error() {
    let mut world = World::new(None);
    world.fail_on = Some(|a| matches!(a, Action::OpenStorage { .. }));
    let err = construct(plain(), &mut world).err().unwrap();
    assert_eq!(err, ApiError::new(Origin::Core, Kind::Internal, "it broke"));
}

#[test]
fn storage_failure_comes_before_the_check_of_options() {
    let mut world = World::new(None);
    world.fail_on = Some(|a| matches!(a, Action::OpenStorage { .. }));
    let err = construct(Options { enable_credential_checks: true, ..plain() }, &mut world)
        .err()
        .unwrap();
    assert_eq!(err.message, "it broke");
}

#[test]
fn unexpected_event_ends_the_construction() {
    let (mut boot, _) = begin(plain());
    let action = boot.step(Event::Completed);
    match action {
        Action::Abort(e) => {
            assert_eq!(e.kind, Kind::Invalid);
            assert_eq!(e.message, "Unexpected event");
        }
        other => panic!("{:?}", other),
    }
    assert_eq!(boot.stage(), Stage::Failed);
    let again = boot.step(Event::ConfigLoaded(NodeManConfig::new()));
    assert!(matches!(again, Action::Abort(_)));
    assert_eq!(boot.finish().err().unwrap().message, "Unexpected event");
}

#[test]
fn unfinished_construction_gives_no_manager() {
    let (boot, _) = begin(plain());
    let err = boot.finish().err().unwrap();
    assert_eq!(err.kind, Kind::Invalid);
    assert_eq!(err.message, "Construction is not complete");
}

#[test]
fn complete_construction_lets_events_pass() {
    let (mut boot, mut action) = begin(Options { skip_defaults: true, ..plain() });
    let mut world = World::new(None);
    while !matches!(action, Action::Finish) {
        let event = world.perform(&action);
        action = boot.step(event);
    }
    assert_eq!(boot.step(Event::Completed), Action::Finish);
    assert_eq!(boot.stage(), Stage::Ready);
}

fn request(id: u32, method: Method, path: &str) -> Request {
    Request { id, method: Some(method), path: path.to_string(), has_body: false }
}

#[test]
fn request_without_a_method_is_a_bad_request() {
    let manager = skipped_manager();
    for path in ["/node", "/node/vault", "/nowhere", ""] {
        let req = Request { id: 12, method: None, path: path.to_string(), has_body: false };
        let expected = Step::Reply(Response {
            re: 12,
            status: Status::BadRequest,
            body: Body::Text(format!("Invalid endpoint: {}", path)),
        });
        assert_eq!(manager.handle_request(&req), expected);
        assert_eq!(manager.handle_message(Some(&req)), expected);
    }
}

#[test]
fn show_secure_channel_is_no_endpoint() {
    let manager = skipped_manager();
    let step = manager.handle_request(&request(6, Method::Get, "/node/show_secure_channel"));
    assert_eq!(
        step,
        Step::Reply(Response {
            re: 6,
            status: Status::BadRequest,
            body: Body::Text("Invalid endpoint: /node/show_secure_channel".to_string()),
        })
    );
}

#[test]
fn node_status_is_answered_with_success() {
    let mut manager = skipped_manager();
    manager.add_transport(Transport::new(
        TransportType::Tcp,
        TransportMode::Connect,
        "10.1.1.1:5000".to_string(),
    ));
    let req = request(31, Method::Get, "/node");
    assert!(matches!(manager.handle_request(&req), Step::Invoke(ref r) if r.endpoint == Endpoint::NodeStatus));
    let response = manager.node_status_response(&req, 9, 4321);
    assert_eq!(
        response,
        Response {
            re: 31,
            status: Status::Success,
            body: Body::NodeStatus(NodeStatus {
                node_name: "node".to_string(),
                status: "Running".to_string(),
                workers: 9,
                pid: 4321,
                transports: 2,
            }),
        }
    );
    assert_eq!(response.status.code(), 200);
}

#[test]
fn unlisted_endpoint_is_a_bad_request() {
    let manager = skipped_manager();
    let step = manager.handle_request(&request(41, Method::Get, "/node/nothing"));
    assert_eq!(
        step,
        Step::Reply(Response {
            re: 41,
            status: Status::BadRequest,
            body: Body::Text("Invalid endpoint: /node/nothing".to_string()),
        })
    );
    assert_eq!(Status::BadRequest.code(), 400);
}

#[test]
fn bad_request_names_the_path_as_it_came() {
    let manager = skipped_manager();
    for path in ["", "//node//x", "/v0/spaces/a/b/c/d/e/f"] {
        match manager.handle_request(&request(1, Method::Put, path)) {
            Step::Reply(r) => {
                assert_eq!(r.status.code(), 400);
                assert_eq!(r.body, Body::Text(format!("Invalid endpoint: {}", path)));
                assert_eq!(r.re, 1);
            }
            other => panic!("{:?}", other),
        }
    }
}

#[test]
fn listed_endpoint_is_passed_to_its_handler() {
    let manager = skipped_manager();
    match manager.handle_request(&request(2, Method::Post, "/node/vault")) {
        Step::Invoke(route) => assert_eq!(route.endpoint, Endpoint::CreateVault),
        other => panic!("{:?}", other),
    }
    match manager.handle_request(&request(3, Method::Get, "/v0/projects/proj-a")) {
        Step::Invoke(route) => {
            assert_eq!(route.endpoint, Endpoint::GetProject);
            assert_eq!(route.params, vec!["proj-a"]);
        }
        other => panic!("{:?}", other),
    }
}

#[test]
fn listing_of_transports_is_answered_at_once() {
    let mut manager = skipped_manager();
    let alias = manager.add_transport(Transport::new(
        TransportType::Tcp,
        TransportMode::Connect,
        "10.1.1.1:5000".to_string(),
    ));
    let step = manager.handle_request(&request(8, Method::Get, "/node/tcp/connection"));
    assert_eq!(
        step,
        Step::Reply(Response {
            re: 8,
            status: Status::Success,
            body: Body::Transports(vec![TransportStatus {
                tt: TransportType::Tcp,
                tm: TransportMode::Connect,
                payload: "10.1.1.1:5000".to_string(),
                tid: alias,
            }]),
        })
    );
    match manager.handle_request(&request(9, Method::Get, "/node/tcp/listener")) {
        Step::Reply(r) => match r.body {
            Body::Transports(list) => {
                assert_eq!(list.len(), 1);
                assert_eq!(list[0].tid, manager.api_transport_id());
            }
            other => panic!("{:?}", other),
        },
        other => panic!("{:?}", other),
    }
}

#[test]
fn unreadable_message_gets_no_answer() {
    let manager = skipped_manager();
    assert_eq!(manager.handle_message(None), Step::Ignore);
}

#[test]
fn readable_message_is_handled_as_its_request() {
    let manager = skipped_manager();
    let req = request(5, Method::Get, "/nowhere");
    assert_eq!(manager.handle_message(Some(&req)), manager.handle_request(&req));
}

#[test]
fn handler_failure_becomes_a_server_error() {
    let req = request(77, Method::Post, "/node/vault");
    let out = conclude(&req, Err(ApiError::conflict("Vault already exists")));
    assert_eq!(
        out,
        Outgoing::Plain(Response {
            re: 77,
            status: Status::InternalServerError,
            body: Body::Text("Failed to handle request: Vault already exists".to_string()),
        })
    );
    assert_eq!(Status::InternalServerError.code(), 500);
}

#[test]
fn handler_success_goes_out_as_it_is() {
    let req = request(78, Method::Post, "/node/vault");
    assert_eq!(conclude(&req, Ok(vec![1, 2, 3])), Outgoing::Encoded(vec![1, 2, 3]));
}

#[test]
fn manager_serves_on_after_a_failed_request() {
    let manager = skipped_manager();
    let first = request(1, Method::Post, "/node/identity");
    assert!(matches!(manager.handle_request(&first), Step::Invoke(_)));
    let out = conclude(&first, Err(ApiError::not_found("Vault doesn't exist")));
    assert!(matches!(out, Outgoing::Plain(ref r) if r.re == 1 && r.status.code() == 500));
    let second = request(2, Method::Get, "/node");
    assert!(matches!(manager.handle_request(&second), Step::Invoke(ref r) if r.endpoint == Endpoint::NodeStatus));
}

#[test]
fn answers_echo_ids_in_submission_order() {
    let manager = skipped_manager();
    let ids = [10u32, 11, 12, 13];
    let answers: Vec<u32> = ids
        .iter()
        .map(|id| match manager.handle_request(&request(*id, Method::Get, "/unknown")) {
            Step::Reply(r) => r.re,
            other => panic!("{:?}", other),
        })
        .collect();
    assert_eq!(answers, ids);
}

#[test]
fn node_status_counts_transports() {
    let mut manager = skipped_manager();
    manager.add_transport(Transport::new(
        TransportType::Tcp,
        TransportMode::Connect,
        "10.1.1.1:5000".to_string(),
    ));
    assert_eq!(
        manager.node_status(4, 1234),
        NodeStatus {
            node_name: "node".to_string(),
            status: "Running".to_string(),
            workers: 4,
            pid: 1234,
            transports: 2,
        }
    );
    assert_eq!(manager.node_name(), "node");
    assert_eq!(manager.node_dir(), "/tmp/node");
}

#[test]
fn transport_is_torn_down_and_then_forgotten() {
    let mut manager = skipped_manager();
    let t = Transport::new(TransportType::Tcp, TransportMode::Connect, "10.1.1.1:5000".to_string());
    let alias = manager.add_transport(t.clone());
    let to_stop = manager.begin_delete_transport(&alias).unwrap();
    assert_eq!(to_stop, t);
    assert!(manager.transports().contains(&alias));
    manager.finish_delete_transport(&alias).unwrap();
    assert!(!manager.transports().contains(&alias));
    assert!(manager.get_tcp_con_or_list(TransportMode::Connect).is_empty());
    assert_eq!(manager.begin_delete_transport(&alias).unwrap_err().kind, Kind::NotFound);
    assert_eq!(manager.finish_delete_transport(&alias).unwrap_err().kind, Kind::NotFound);
}

#[test]
fn services_start_in_order_without_authorities() {
    let manager = default_manager();
    assert_eq!(manager.initialize(), seven_services());
    assert_eq!(manager.initialize_defaults(), seven_services());
}

fn seven_services() -> Vec<DefaultService> {
    vec![
        DefaultService::Vault { address: "vault_service" },
        DefaultService::Identity { address: "identity_service" },
        DefaultService::Authenticated { address: "authenticated" },
        DefaultService::Uppercase { address: "uppercase" },
        DefaultService::Echoer { address: "echo" },
        DefaultService::Forwarding,
        DefaultService::SecureChannelListener { address: "api", authorized_identifiers: None },
    ]
}

#[test]
fn default_addresses() {
    assert_eq!(DefaultAddress::VAULT_SERVICE, "vault_service");
    assert_eq!(DefaultAddress::IDENTITY_SERVICE, "identity_service");
    assert_eq!(DefaultAddress::AUTHENTICATED_SERVICE, "authenticated");
    assert_eq!(DefaultAddress::UPPERCASE_SERVICE, "uppercase");
    assert_eq!(DefaultAddress::ECHO_SERVICE, "echo");
    assert_eq!(DefaultAddress::SECURE_CHANNEL_LISTENER, "api");
    assert_eq!(DefaultAddress::CREDENTIAL_SERVICE, "credentials");
}

#[test]
fn default_listener_accepts_every_peer() {
    let manager = default_manager();
    let listeners: Vec<DefaultService> = manager
        .initialize()
        .into_iter()
        .filter(|s| matches!(s, DefaultService::SecureChannelListener { .. }))
        .collect();
    assert_eq!(
        listeners,
        vec![DefaultService::SecureChannelListener { address: "api", authorized_identifiers: None }]
    );
}

#[test]
fn services_are_started_one_after_the_other() {
    let manager = default_manager();
    let plan = seven_services();
    for (started, service) in plan.iter().enumerate() {
        assert_eq!(manager.start_next(started, Ok(())), Startup::Start(service.clone()));
    }
    assert_eq!(manager.start_next(7, Ok(())), Startup::Done);
    assert_eq!(manager.start_next(8, Ok(())), Startup::Done);
}

#[test]
fn first_failed_start_ends_the_startup() {
    let manager = default_manager();
    let broke = ApiError::conflict("Address already in use");
    for started in [0usize, 1, 3, 7, 20] {
        assert_eq!(manager.start_next(started, Err(broke.clone())), Startup::Failed(broke.clone()));
    }
}

#[test]
fn skipped_defaults_have_nothing_to_start() {
    let manager = skipped_manager();
    assert_eq!(manager.start_next(0, Ok(())), Startup::Done);
}

#[test]
fn credential_service_starts_with_authorities() {
    let mut world = World::new(None);
    let manager = construct(
        Options {
            authorities: Some(vec![authority(&[1], "/dnsaddr/a.example/tcp/4000")]),
            ..plain()
        },
        &mut world,
    )
    .unwrap();
    let plan = manager.initialize();
    assert_eq!(plan.len(), 8);
    assert_eq!(plan[..7], seven_services()[..]);
    assert_eq!(plan[7], DefaultService::Credentials { address: "credentials", oneway: false });
    assert_eq!(manager.start_next(7, Ok(())), Startup::Start(plan[7].clone()));
    assert_eq!(manager.start_next(8, Ok(())), Startup::Done);
}

#[test]
fn no_service_starts_when_defaults_are_skipped() {
    let manager = skipped_manager();
    assert!(manager.initialize().is_empty());
    assert_eq!(manager.initialize_defaults().len(), 7);
}

#[test]
fn implicit_creation_uses_what_is_there() {
    let manager = default_manager();
    assert_eq!(manager.create_vault(None, true), Ok(Creation::Existing));
    assert_eq!(manager.create_identity(true), Ok(Creation::Existing));
}

#[test]
fn explicit_creation_of_what_is_there_is_a_conflict() {
    let manager = default_manager();
    let e = manager.create_vault(None, false).unwrap_err();
    assert_eq!((e.kind, e.message.as_str()), (Kind::Conflict, "Vault already exists"));
    let e = manager.create_identity(false).unwrap_err();
    assert_eq!((e.kind, e.message.as_str()), (Kind::Conflict, "Identity already exists"));
}

#[test]
fn creation_on_a_bare_node() {
    let mut manager = skipped_manager();
    assert_eq!(
        manager.create_vault(None, false),
        Ok(Creation::Create { path: Some("/tmp/node/vault.json".to_string()) })
    );
    assert_eq!(
        manager.create_vault(Some("/v/mine.json".to_string()), true),
        Ok(Creation::Create { path: Some("/v/mine.json".to_string()) })
    );
    let e = manager.create_identity(true).unwrap_err();
    assert_eq!((e.kind, e.message.as_str()), (Kind::NotFound, "Vault doesn't exist"));
    let e = manager.identity_created(vec![1]).unwrap_err();
    assert_eq!((e.kind, e.message.as_str()), (Kind::NotFound, "Vault doesn't exist"));
    let config = manager.vault_created("/v/mine.json".to_string()).unwrap();
    let e = manager.vault_created("/v/other.json".to_string()).unwrap_err();
    assert_eq!((e.kind, e.message.as_str()), (Kind::Conflict, "Vault already exists"));
    assert_eq!(config.vault_path.as_deref(), Some("/v/mine.json"));
    assert_eq!(manager.vault().unwrap(), "/v/mine.json");
    assert_eq!(manager.create_identity(false), Ok(Creation::Create { path: None }));
    let config = manager.identity_created(vec![3, 4]).unwrap();
    let e = manager.identity_created(vec![5]).unwrap_err();
    assert_eq!((e.kind, e.message.as_str()), (Kind::Conflict, "Identity already exists"));
    assert_eq!(config.identity, Some(vec![3, 4]));
    assert_eq!(&config, manager.config());
    assert_eq!(manager.identity().unwrap(), &vec![3, 4]);
}

#[test]
fn workers_of_a_manager_are_listed_until_released() {
    let mut manager = skipped_manager();
    manager.register_worker(WorkerKind::Forwarder, "fwd-1".to_string()).unwrap();
    assert_eq!(manager.list_workers(WorkerKind::Forwarder), vec!["fwd-1"]);
    let e = manager.register_worker(WorkerKind::Inlet, "fwd-1".to_string()).unwrap_err();
    assert_eq!(e.kind, Kind::Conflict);
    manager.release_worker(WorkerKind::Forwarder, "fwd-1").unwrap();
    assert!(manager.list_workers(WorkerKind::Forwarder).is_empty());
    assert_eq!(
        manager.release_worker(WorkerKind::Forwarder, "fwd-1").unwrap_err().kind,
        Kind::NotFound
    );
}
