//! The decisions of the enrollment with the orchestrator.
//!
//! The flow itself talks to an identity provider and to an embedded node;
//! that is the caller's work. Here stands what the flow decides: which
//! addresses and names it uses, how it reads the answers, and in what order
//! it goes on.

use crate::envelope::Status;
use crate::error::{ApiError, ErrorView, Kind, Origin};
use crate::text::same_text;
use vstd::prelude::*;
use vstd::string::StringExecFns;

verus! {

/// How the command reaches the orchestrator: under which of the local
/// identities, if not under the default one.
#[derive(Clone, Debug, PartialEq, Eq)]
pub struct CloudOpts {
    pub identity: Option<String>,
}

/// The command that enrolls an identity with the orchestrator.
#[derive(Clone, Debug, PartialEq, Eq)]
pub struct EnrollCommand {
    pub cloud_opts: CloudOpts,
}

impl EnrollCommand {
    /// Begins the enrollment: says which step comes first. The caller takes
    /// each step, and asks [`EnrollStep::next`] for the one after it.
    pub fn run(&self) -> (first: EnrollStep)
        ensures
            first == EnrollStep::ShowHeader,
    {
        EnrollStep::ShowHeader
    }
}

/// An identity provider of a project, by Okta.
#[derive(Clone, Debug, PartialEq, Eq)]
pub struct OktaAuth0 {
    pub tenant_base_url: String,
    pub client_id: String,
    pub certificate: String,
}

#[derive(Clone, Debug, PartialEq, Eq)]
pub enum Auth0Provider {
    Auth0,
    Okta(OktaAuth0),
}

pub open spec fn client_id_of(provider: Auth0Provider) -> Seq<char> {
    match provider {
        Auth0Provider::Auth0 => "c1SAhEjrJAqEk6ArWjGjuWX11BD2gK8X"@,
        Auth0Provider::Okta(d) => d.client_id@,
    }
}

pub open spec fn device_code_url_of(provider: Auth0Provider) -> Seq<char> {
    match provider {
        Auth0Provider::Auth0 => "https://account.ockam.io/oauth/device/code"@,
        Auth0Provider::Okta(d) => d.tenant_base_url@ + "/v1/device/authorize"@,
    }
}

pub open spec fn token_request_url_of(provider: Auth0Provider) -> Seq<char> {
    match provider {
        Auth0Provider::Auth0 => "https://account.ockam.io/oauth/token"@,
        Auth0Provider::Okta(d) => d.tenant_base_url@ + "/v1/token"@,
    }
}

impl Auth0Provider {
    pub fn client_id(&self) -> (id: &str)
        ensures
            id@ == client_id_of(*self),
    {
        match self {
            Auth0Provider::Auth0 => "c1SAhEjrJAqEk6ArWjGjuWX11BD2gK8X",
            Auth0Provider::Okta(d) => d.client_id.as_str(),
        }
    }

    pub fn scopes(&self) -> (scopes: &'static str)
        ensures
            scopes@ == "profile openid email"@,
    {
        "profile openid email"
    }

    pub fn device_code_url(&self) -> (url: String)
        ensures
            url@ == device_code_url_of(*self),
    {
        match self {
            Auth0Provider::Auth0 => String::from_str("https://account.ockam.io/oauth/device/code"),
            Auth0Provider::Okta(d) => {
                let mut url = d.tenant_base_url.clone();
                url.append("/v1/device/authorize");
                url
            },
        }
    }

    pub fn token_request_url(&self) -> (url: String)
        ensures
            url@ == token_request_url_of(*self),
    {
        match self {
            Auth0Provider::Auth0 => String::from_str("https://account.ockam.io/oauth/token"),
            Auth0Provider::Okta(d) => {
                let mut url = d.tenant_base_url.clone();
                url.append("/v1/token");
                url
            },
        }
    }

    /// The one certificate that the client of this provider trusts. Without
    /// one, the client trusts the certificates that are built into it.
    pub fn root_certificate(&self) -> (certificate: Option<&str>)
        ensures
            match *self {
                Auth0Provider::Auth0 => certificate is None,
                Auth0Provider::Okta(d) => certificate matches Some(c) && c@ == d.certificate@,
            },
    {
        match self {
            Auth0Provider::Auth0 => None,
            Auth0Provider::Okta(d) => Some(d.certificate.as_str()),
        }
    }
}

/// The answer of the provider to a request for the token.
#[derive(Clone, Debug, PartialEq, Eq)]
pub enum TokenAnswer {
    /// The provider has sent the token.
    Token,
    /// The provider has refused, with this error code.
    Refused(String),
}

/// What to do after an answer to a request for the token.
#[derive(Clone, Copy, Debug, PartialEq, Eq, Structural)]
pub enum TokenPoll {
    /// The token is there.
    Received,
    /// The user has not approved yet: ask again after `secs` seconds.
    Wait { secs: u64 },
    /// The provider will not give a token.
    Failed,
}

/// The error codes that tell of a user who has not approved yet.
pub open spec fn still_pending(code: Seq<char>) -> bool {
    code == "authorization_pending"@ || code == "invalid_request"@ || code == "slow_down"@
}

pub open spec fn enroll_error(message: Seq<char>) -> ErrorView {
    ErrorView { origin: Origin::Application, kind: Kind::Internal, message }
}

/// What the enrollment of an identity came to.
#[derive(Clone, Copy, Debug, PartialEq, Eq, Structural)]
pub enum Enrollment {
    Enrolled,
    AlreadyEnrolled,
}

pub struct Auth0Service(Auth0Provider);

impl Auth0Service {
    pub closed spec fn view(&self) -> Auth0Provider {
        self.0
    }

    pub fn new(provider: Auth0Provider) -> (service: Auth0Service)
        ensures
            service.view() == provider,
    {
        Auth0Service(provider)
    }

    pub fn provider(&self) -> (provider: &Auth0Provider)
        ensures
            *provider == self.view(),
    {
        &self.0
    }

    /// Reads the status of the answer to a request for a device code: only
    /// success brings one.
    pub fn device_code(&self, status: u16) -> (r: Result<(), ApiError>)
        ensures
            match r {
                Ok(_) => status == 200,
                Err(e) => status != 200 && e@ == enroll_error("couldn't get device code"@),
            },
    {
        if status == 200 {
            Ok(())
        } else {
            Err(ApiError::new(Origin::Application, Kind::Internal, "couldn't get device code"))
        }
    }

    /// Decides how the wait for the token goes on after an answer of the
    /// provider. `interval` is the number of seconds that the provider asked
    /// to leave between two requests.
    pub fn poll_token(&self, answer: &TokenAnswer, interval: usize) -> (next: TokenPoll)
        ensures
            next == match *answer {
                TokenAnswer::Token => TokenPoll::Received,
                TokenAnswer::Refused(code) => if still_pending(code@) {
                    TokenPoll::Wait { secs: interval as u64 }
                } else {
                    TokenPoll::Failed
                },
            },
    {
        match answer {
            TokenAnswer::Token => TokenPoll::Received,
            TokenAnswer::Refused(code) => {
                let code = code.as_str();
                if same_text(code, "authorization_pending") || same_text(code, "invalid_request")
                    || same_text(code, "slow_down") {
                    TokenPoll::Wait { secs: interval as u64 }
                } else {
                    TokenPoll::Failed
                }
            },
        }
    }

    /// Says what a failed request for a device code tells of the provider's
    /// configuration.
    pub fn validate_provider_config(&self, outcome: Result<(), ApiError>) -> (r: Result<
        (),
        ApiError,
    >)
        ensures
            match outcome {
                Ok(_) => r is Ok,
                Err(e) => r matches Err(f) && f@ == enroll_error(
                    "Invalid OIDC configuration: "@ + e@.message,
                ),
            },
    {
        match outcome {
            Ok(_) => Ok(()),
            Err(e) => {
                let mut message = String::from_str("Invalid OIDC configuration: ");
                message.append(e.description());
                Err(ApiError::internal(message))
            },
        }
    }
}

/// The error of a token that the provider will not give.
pub fn token_refused() -> (e: ApiError)
    ensures
        e@ == enroll_error("failed to receive tokens"@),
{
    ApiError::new(Origin::Application, Kind::Internal, "failed to receive tokens")
}

/// Reads the status with which the node answered the enrollment. An identity
/// that is enrolled already is no failure.
pub fn enroll(status: Option<Status>) -> (r: Result<Enrollment, ApiError>)
    ensures
        match r {
            Ok(Enrollment::Enrolled) => status == Some(Status::Success),
            Ok(Enrollment::AlreadyEnrolled) => status == Some(Status::BadRequest),
            Err(e) => status != Some(Status::Success) && status != Some(Status::BadRequest) && e@
                == enroll_error("Failed to enroll"@),
        },
{
    match status {
        Some(Status::Success) => Ok(Enrollment::Enrolled),
        Some(Status::BadRequest) => Ok(Enrollment::AlreadyEnrolled),
        _ => Err(ApiError::new(Origin::Application, Kind::Internal, "Failed to enroll")),
    }
}

/// Picks the default space among the spaces of an identity: the first one.
/// An identity without spaces gets a new one.
pub fn default_space(available: &Vec<String>) -> (choice: Option<usize>)
    ensures
        choice == if available.len() == 0 {
            None::<usize>
        } else {
            Some(0usize)
        },
{
    if available.len() == 0 {
        None
    } else {
        Some(0)
    }
}

pub open spec fn is_default_name(name: Seq<char>) -> bool {
    name == "default"@
}

/// Picks the default project among the projects of a space, by their names:
/// the first one named `default`, or else the first one. A space without
/// projects gets a new one.
pub fn default_project(names: &Vec<String>) -> (choice: Option<usize>)
    ensures
        match choice {
            None => names.len() == 0,
            Some(i) => {
                &&& i < names.len()
                &&& forall|j: int| 0 <= j < i ==> !is_default_name(#[trigger] names[j]@)
                &&& is_default_name(names[i as int]@) || (i == 0 && forall|j: int|
                    0 <= j < names.len() ==> !is_default_name(#[trigger] names[j]@))
            },
        },
{
    if names.len() == 0 {
        return None;
    }
    let mut i: usize = 0;
    while i < names.len()
        invariant
            i <= names.len(),
            forall|j: int| 0 <= j < i ==> !is_default_name(#[trigger] names[j]@),
        decreases names.len() - i,
    {
        if same_text(names[i].as_str(), "default") {
            return Some(i);
        }
        i += 1;
    }
    Some(0)
}

/// The places, among the first `upto` identities, of those that the node
/// runs under.
pub open spec fn enrolled_places(identifiers: Seq<Seq<char>>, node: Seq<char>, upto: int) -> Seq<
    usize,
>
    decreases upto,
{
    if upto <= 0 {
        Seq::empty()
    } else {
        let before = enrolled_places(identifiers, node, upto - 1);
        if identifiers[upto - 1] == node {
            before.push((upto - 1) as usize)
        } else {
            before
        }
    }
}

/// Finds the identities to mark as enrolled: those with the identifier of
/// the node's identity.
pub fn update_enrolled_identity(node_identifier: &str, identifiers: &Vec<String>) -> (places: Vec<
    usize,
>)
    ensures
        places@ == enrolled_places(
            crate::envelope::texts(identifiers@),
            node_identifier@,
            identifiers.len() as int,
        ),
{
    let mut places: Vec<usize> = Vec::new();
    let mut i: usize = 0;
    while i < identifiers.len()
        invariant
            i <= identifiers.len(),
            places@ == enrolled_places(
                crate::envelope::texts(identifiers@),
                node_identifier@,
                i as int,
            ),
        decreases identifiers.len() - i,
    {
        if same_text(identifiers[i].as_str(), node_identifier) {
            places.push(i);
        }
        i += 1;
    }
    places
}

/// The steps of an enrollment, in their order.
#[derive(Clone, Copy, Debug, PartialEq, Eq, Structural)]
pub enum EnrollStep {
    ShowHeader,
    StartNode,
    Enroll,
    DefaultSpace,
    DefaultProject,
    UpdateIdentity,
    DeleteNode,
    ReportSuccess,
}

impl EnrollStep {
    pub open spec fn spec_next(self, succeeded: bool) -> Option<EnrollStep> {
        if !succeeded {
            None
        } else {
            match self {
                EnrollStep::ShowHeader => Some(EnrollStep::StartNode),
                EnrollStep::StartNode => Some(EnrollStep::Enroll),
                EnrollStep::Enroll => Some(EnrollStep::DefaultSpace),
                EnrollStep::DefaultSpace => Some(EnrollStep::DefaultProject),
                EnrollStep::DefaultProject => Some(EnrollStep::UpdateIdentity),
                EnrollStep::UpdateIdentity => Some(EnrollStep::DeleteNode),
                EnrollStep::DeleteNode => Some(EnrollStep::ReportSuccess),
                EnrollStep::ReportSuccess => None,
            }
        }
    }

    /// The step that follows this one. Nothing follows a step that failed,
    /// nor the last one.
    #[verifier::when_used_as_spec(spec_next)]
    pub fn next(self, succeeded: bool) -> (next: Option<EnrollStep>)
        ensures
            next == self.spec_next(succeeded),
    {
        if !succeeded {
            None
        } else {
            match self {
                EnrollStep::ShowHeader => Some(EnrollStep::StartNode),
                EnrollStep::StartNode => Some(EnrollStep::Enroll),
                EnrollStep::Enroll => Some(EnrollStep::DefaultSpace),
                EnrollStep::DefaultSpace => Some(EnrollStep::DefaultProject),
                EnrollStep::DefaultProject => Some(EnrollStep::UpdateIdentity),
                EnrollStep::UpdateIdentity => Some(EnrollStep::DeleteNode),
                EnrollStep::DeleteNode => Some(EnrollStep::ReportSuccess),
                EnrollStep::ReportSuccess => None,
            }
        }
    }
}


} // verus!
