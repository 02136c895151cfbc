use node_manager::enroll::{
    default_project, default_space, enroll, token_refused, update_enrolled_identity,
    Auth0Provider, Auth0Service, CloudOpts, EnrollCommand, EnrollStep, Enrollment, OktaAuth0,
    TokenAnswer, TokenPoll,
};
use node_manager::envelope::Status;
use node_manager::error::{ApiError, Kind, Origin};

fn okta() -> Auth0Provider {
    Auth0Provider::Okta(OktaAuth0 {
        tenant_base_url: "https://tenant.okta.example/oauth2/default".to_string(),
        client_id: "okta-client".to_string(),
        certificate: "-----BEGIN CERTIFICATE-----".to_string(),
    })
}

fn names(v: &[&str]) -> Vec<String> {
    v.iter().map(|s| s.to_string()).collect()
}

#[test]
fn auth0_addresses() {
    let p = Auth0Provider::Auth0;
    assert_eq!(p.client_id(), "c1SAhEjrJAqEk6ArWjGjuWX11BD2gK8X");
    assert_eq!(p.scopes(), "profile openid email");
    assert_eq!(p.device_code_url(), "https://account.ockam.io/oauth/device/code");
    assert_eq!(p.token_request_url(), "https://account.ockam.io/oauth/token");
    assert_eq!(p.root_certificate(), None);
}

#[test]
fn okta_addresses() {
    let p = okta();
    assert_eq!(p.client_id(), "okta-client");
    assert_eq!(p.scopes(), "profile openid email");
    assert_eq!(
        p.device_code_url(),
        "https://tenant.okta.example/oauth2/default/v1/device/authorize"
    );
    assert_eq!(p.token_request_url(), "https://tenant.okta.example/oauth2/default/v1/token");
    assert_eq!(p.root_certificate(), Some("-----BEGIN CERTIFICATE-----"));
}

#[test]
fn service_keeps_its_provider() {
    let service = Auth0Service::new(okta());
    assert_eq!(service.provider(), &okta());
    let service = Auth0Service::new(Auth0Provider::Auth0);
    assert_eq!(service.provider(), &Auth0Provider::Auth0);
}

#[test]
fn device_code_needs_success() {
    let service = Auth0Service::new(Auth0Provider::Auth0);
    assert_eq!(service.device_code(200), Ok(()));
    for status in [0u16, 199, 201, 400, 403, 500] {
        let e = service.device_code(status).unwrap_err();
        assert_eq!(e, ApiError::new(Origin::Application, Kind::Internal, "couldn't get device code"));
    }
}

#[test]
fn token_poll_waits_while_pending() {
    let service = Auth0Service::new(Auth0Provider::Auth0);
    for code in ["authorization_pending", "invalid_request", "slow_down"] {
        assert_eq!(
            service.poll_token(&TokenAnswer::Refused(code.to_string()), 5),
            TokenPoll::Wait { secs: 5 }
        );
    }
    assert_eq!(
        service.poll_token(&TokenAnswer::Refused("slow_down".to_string()), 0),
        TokenPoll::Wait { secs: 0 }
    );
}

#[test]
fn token_poll_gives_up_on_other_errors() {
    let service = Auth0Service::new(Auth0Provider::Auth0);
    for code in ["access_denied", "expired_token", "", "Authorization_Pending", "slow_down "] {
        assert_eq!(service.poll_token(&TokenAnswer::Refused(code.to_string()), 5), TokenPoll::Failed);
    }
    assert_eq!(token_refused().message, "failed to receive tokens");
}

#[test]
fn token_poll_ends_with_the_token() {
    let service = Auth0Service::new(okta());
    assert_eq!(service.poll_token(&TokenAnswer::Token, 5), TokenPoll::Received);
}

#[test]
fn provider_config_error_is_prefixed() {
    let service = Auth0Service::new(okta());
    assert_eq!(service.validate_provider_config(Ok(())), Ok(()));
    let e = service
        .validate_provider_config(service.device_code(500))
        .unwrap_err();
    assert_eq!(e.message, "Invalid OIDC configuration: couldn't get device code");
}

#[test]
fn enrollment_reads_the_status() {
    assert_eq!(enroll(Some(Status::Success)), Ok(Enrollment::Enrolled));
    assert_eq!(enroll(Some(Status::BadRequest)), Ok(Enrollment::AlreadyEnrolled));
    for status in [
        None,
        Some(Status::Unauthorized),
        Some(Status::Forbidden),
        Some(Status::NotFound),
        Some(Status::InternalServerError),
    ] {
        assert_eq!(enroll(status).unwrap_err().message, "Failed to enroll");
    }
}

#[test]
fn default_space_is_the_first() {
    assert_eq!(default_space(&names(&[])), None);
    assert_eq!(default_space(&names(&["a"])), Some(0));
    assert_eq!(default_space(&names(&["a", "b"])), Some(0));
}

#[test]
fn default_project_prefers_the_name_default() {
    assert_eq!(default_project(&names(&[])), None);
    assert_eq!(default_project(&names(&["a", "b"])), Some(0));
    assert_eq!(default_project(&names(&["a", "default", "b"])), Some(1));
    assert_eq!(default_project(&names(&["a", "default", "default"])), Some(1));
    assert_eq!(default_project(&names(&["default"])), Some(0));
    assert_eq!(default_project(&names(&["Default", "defaults"])), Some(0));
}

#[test]
fn identities_of_the_node_are_marked() {
    let ids = names(&["id-a", "id-b", "id-a", "id-c"]);
    assert_eq!(update_enrolled_identity("id-a", &ids), vec![0, 2]);
    assert_eq!(update_enrolled_identity("id-c", &ids), vec![3]);
    assert_eq!(update_enrolled_identity("id-z", &ids), Vec::<usize>::new());
    assert_eq!(update_enrolled_identity("id-a", &names(&[])), Vec::<usize>::new());
}

#[test]
fn enrollment_steps_follow_each_other() {
    let command = EnrollCommand { cloud_opts: CloudOpts { identity: None } };
    let mut step = command.run();
    let mut seen = vec![step];
    while let Some(next) = step.next(true) {
        seen.push(next);
        step = next;
    }
    assert_eq!(
        seen,
        vec![
            EnrollStep::ShowHeader,
            EnrollStep::StartNode,
            EnrollStep::Enroll,
            EnrollStep::DefaultSpace,
            EnrollStep::DefaultProject,
            EnrollStep::UpdateIdentity,
            EnrollStep::DeleteNode,
            EnrollStep::ReportSuccess,
        ]
    );
}

#[test]
fn failed_step_ends_the_enrollment() {
    for step in [EnrollStep::StartNode, EnrollStep::Enroll, EnrollStep::DefaultProject] {
        assert_eq!(step.next(false), None);
    }
}
