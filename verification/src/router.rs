//! The routing table: which handler answers a request method and path.

use crate::envelope::{path_segments, split_path, texts, Method};
use crate::text::same_text;
use vstd::prelude::*;

verus! {

/// The handlers that a request can reach.
#[derive(Clone, Copy, Debug, PartialEq, Eq, Structural)]
pub enum Endpoint {
    NodeStatus,
    ListTcpConnections,
    AddTransport,
    DeleteTransport,
    ListTcpListeners,
    CreateVault,
    CreateIdentity,
    ShortIdentity,
    LongIdentity,
    GetCredential,
    PresentCredential,
    ListSecureChannels,
    ListSecureChannelListeners,
    CreateSecureChannel,
    DeleteSecureChannel,
    CreateSecureChannelListener,
    StartVaultService,
    StartIdentityService,
    StartAuthenticatedService,
    StartUppercaseService,
    StartEchoerService,
    StartAuthenticatorService,
    StartVerifierService,
    StartCredentialsService,
    CreateForwarder,
    ListInlets,
    ListOutlets,
    CreateInlet,
    CreateOutlet,
    CreateSpace,
    ListSpaces,
    GetSpace,
    DeleteSpace,
    AddProjectEnroller,
    ListProjectEnrollers,
    DeleteProjectEnroller,
    CreateProject,
    ListProjects,
    GetProject,
    DeleteProject,
    EnrollAuth0,
    GenerateEnrollmentToken,
    AuthenticateEnrollmentToken,
    ActivateSubscription,
    GetSubscription,
    ListSubscriptions,
    UpdateSubscriptionContactInfo,
    UpdateSubscriptionSpace,
    Unsubscribe,
    SendMessage,
}

/// One segment of a path pattern.
#[derive(Clone, Copy, Debug)]
pub enum Segment {
    /// Matches the segment that holds exactly this text.
    Literal(&'static str),
    /// Matches any segment, and captures it.
    Param,
}

/// One line of the routing table.
pub struct Rule {
    pub method: Method,
    pub pattern: Seq<Segment>,
    pub endpoint: Endpoint,
}

/// The routing table.
pub open spec fn routing_table() -> Seq<Rule> {
    seq![
        Rule {
            method: Method::Get,
            pattern: seq![Segment::Literal("node")],
            endpoint: Endpoint::NodeStatus,
        },
        Rule {
            method: Method::Get,
            pattern: seq![
                Segment::Literal("node"), Segment::Literal("tcp"), Segment::Literal("connection"),
            ],
            endpoint: Endpoint::ListTcpConnections,
        },
        Rule {
            method: Method::Post,
            pattern: seq![
                Segment::Literal("node"), Segment::Literal("tcp"), Segment::Literal("connection"),
            ],
            endpoint: Endpoint::AddTransport,
        },
        Rule {
            method: Method::Delete,
            pattern: seq![
                Segment::Literal("node"), Segment::Literal("tcp"), Segment::Literal("connection"),
            ],
            endpoint: Endpoint::DeleteTransport,
        },
        Rule {
            method: Method::Get,
            pattern: seq![
                Segment::Literal("node"), Segment::Literal("tcp"), Segment::Literal("listener"),
            ],
            endpoint: Endpoint::ListTcpListeners,
        },
        Rule {
            method: Method::Post,
            pattern: seq![
                Segment::Literal("node"), Segment::Literal("tcp"), Segment::Literal("listener"),
            ],
            endpoint: Endpoint::AddTransport,
        },
        Rule {
            method: Method::Delete,
            pattern: seq![
                Segment::Literal("node"), Segment::Literal("tcp"), Segment::Literal("listener"),
            ],
            endpoint: Endpoint::DeleteTransport,
        },
        Rule {
            method: Method::Post,
            pattern: seq![Segment::Literal("node"), Segment::Literal("vault")],
            endpoint: Endpoint::CreateVault,
        },
        Rule {
            method: Method::Post,
            pattern: seq![Segment::Literal("node"), Segment::Literal("identity")],
            endpoint: Endpoint::CreateIdentity,
        },
        Rule {
            method: Method::Post,
            pattern: seq![
                Segment::Literal("node"), Segment::Literal("identity"), Segment::Literal("actions"),
                Segment::Literal("show"), Segment::Literal("short"),
            ],
            endpoint: Endpoint::ShortIdentity,
        },
        Rule {
            method: Method::Post,
            pattern: seq![
                Segment::Literal("node"), Segment::Literal("identity"), Segment::Literal("actions"),
                Segment::Literal("show"), Segment::Literal("long"),
            ],
            endpoint: Endpoint::LongIdentity,
        },
        Rule {
            method: Method::Post,
            pattern: seq![
                Segment::Literal("node"), Segment::Literal("credentials"),
                Segment::Literal("actions"), Segment::Literal("get"),
            ],
            endpoint: Endpoint::GetCredential,
        },
        Rule {
            method: Method::Post,
            pattern: seq![
                Segment::Literal("node"), Segment::Literal("credentials"),
                Segment::Literal("actions"), Segment::Literal("present"),
            ],
            endpoint: Endpoint::PresentCredential,
        },
        Rule {
            method: Method::Get,
            pattern: seq![Segment::Literal("node"), Segment::Literal("secure_channel")],
            endpoint: Endpoint::ListSecureChannels,
        },
        Rule {
            method: Method::Get,
            pattern: seq![Segment::Literal("node"), Segment::Literal("secure_channel_listener")],
            endpoint: Endpoint::ListSecureChannelListeners,
        },
        Rule {
            method: Method::Post,
            pattern: seq![Segment::Literal("node"), Segment::Literal("secure_channel")],
            endpoint: Endpoint::CreateSecureChannel,
        },
        Rule {
            method: Method::Delete,
            pattern: seq![Segment::Literal("node"), Segment::Literal("secure_channel")],
            endpoint: Endpoint::DeleteSecureChannel,
        },
        Rule {
            method: Method::Post,
            pattern: seq![Segment::Literal("node"), Segment::Literal("secure_channel_listener")],
            endpoint: Endpoint::CreateSecureChannelListener,
        },
        Rule {
            method: Method::Post,
            pattern: seq![
                Segment::Literal("node"), Segment::Literal("services"), Segment::Literal("vault"),
            ],
            endpoint: Endpoint::StartVaultService,
        },
        Rule {
            method: Method::Post,
            pattern: seq![
                Segment::Literal("node"), Segment::Literal("services"),
                Segment::Literal("identity"),
            ],
            endpoint: Endpoint::StartIdentityService,
        },
        Rule {
            method: Method::Post,
            pattern: seq![
                Segment::Literal("node"), Segment::Literal("services"),
                Segment::Literal("authenticated"),
            ],
            endpoint: Endpoint::StartAuthenticatedService,
        },
        Rule {
            method: Method::Post,
            pattern: seq![
                Segment::Literal("node"), Segment::Literal("services"),
                Segment::Literal("uppercase"),
            ],
            endpoint: Endpoint::StartUppercaseService,
        },
        Rule {
            method: Method::Post,
            pattern: seq![
                Segment::Literal("node"), Segment::Literal("services"), Segment::Literal("echo"),
            ],
            endpoint: Endpoint::StartEchoerService,
        },
        Rule {
            method: Method::Post,
            pattern: seq![
                Segment::Literal("node"), Segment::Literal("services"),
                Segment::Literal("authenticator"),
            ],
            endpoint: Endpoint::StartAuthenticatorService,
        },
        Rule {
            method: Method::Post,
            pattern: seq![
                Segment::Literal("node"), Segment::Literal("services"),
                Segment::Literal("verifier"),
            ],
            endpoint: Endpoint::StartVerifierService,
        },
        Rule {
            method: Method::Post,
            pattern: seq![
                Segment::Literal("node"), Segment::Literal("services"),
                Segment::Literal("credentials"),
            ],
            endpoint: Endpoint::StartCredentialsService,
        },
        Rule {
            method: Method::Post,
            pattern: seq![Segment::Literal("node"), Segment::Literal("forwarder")],
            endpoint: Endpoint::CreateForwarder,
        },
        Rule {
            method: Method::Get,
            pattern: seq![Segment::Literal("node"), Segment::Literal("inlet")],
            endpoint: Endpoint::ListInlets,
        },
        Rule {
            method: Method::Get,
            pattern: seq![Segment::Literal("node"), Segment::Literal("outlet")],
            endpoint: Endpoint::ListOutlets,
        },
        Rule {
            method: Method::Post,
            pattern: seq![Segment::Literal("node"), Segment::Literal("inlet")],
            endpoint: Endpoint::CreateInlet,
        },
        Rule {
            method: Method::Post,
            pattern: seq![Segment::Literal("node"), Segment::Literal("outlet")],
            endpoint: Endpoint::CreateOutlet,
        },
        Rule {
            method: Method::Post,
            pattern: seq![Segment::Literal("v0"), Segment::Literal("spaces")],
            endpoint: Endpoint::CreateSpace,
        },
        Rule {
            method: Method::Get,
            pattern: seq![Segment::Literal("v0"), Segment::Literal("spaces")],
            endpoint: Endpoint::ListSpaces,
        },
        Rule {
            method: Method::Get,
            pattern: seq![Segment::Literal("v0"), Segment::Literal("spaces"), Segment::Param],
            endpoint: Endpoint::GetSpace,
        },
        Rule {
            method: Method::Delete,
            pattern: seq![Segment::Literal("v0"), Segment::Literal("spaces"), Segment::Param],
            endpoint: Endpoint::DeleteSpace,
        },
        Rule {
            method: Method::Post,
            pattern: seq![
                Segment::Literal("v0"), Segment::Literal("project-enrollers"), Segment::Param,
            ],
            endpoint: Endpoint::AddProjectEnroller,
        },
        Rule {
            method: Method::Get,
            pattern: seq![
                Segment::Literal("v0"), Segment::Literal("project-enrollers"), Segment::Param,
            ],
            endpoint: Endpoint::ListProjectEnrollers,
        },
        Rule {
            method: Method::Delete,
            pattern: seq![
                Segment::Literal("v0"), Segment::Literal("project-enrollers"), Segment::Param,
                Segment::Param,
            ],
            endpoint: Endpoint::DeleteProjectEnroller,
        },
        Rule {
            method: Method::Post,
            pattern: seq![Segment::Literal("v0"), Segment::Literal("projects"), Segment::Param],
            endpoint: Endpoint::CreateProject,
        },
        Rule {
            method: Method::Get,
            pattern: seq![Segment::Literal("v0"), Segment::Literal("projects")],
            endpoint: Endpoint::ListProjects,
        },
        Rule {
            method: Method::Get,
            pattern: seq![Segment::Literal("v0"), Segment::Literal("projects"), Segment::Param],
            endpoint: Endpoint::GetProject,
        },
        Rule {
            method: Method::Delete,
            pattern: seq![
                Segment::Literal("v0"), Segment::Literal("projects"), Segment::Param,
                Segment::Param,
            ],
            endpoint: Endpoint::DeleteProject,
        },
        Rule {
            method: Method::Post,
            pattern: seq![
                Segment::Literal("v0"), Segment::Literal("enroll"), Segment::Literal("auth0"),
            ],
            endpoint: Endpoint::EnrollAuth0,
        },
        Rule {
            method: Method::Get,
            pattern: seq![
                Segment::Literal("v0"), Segment::Literal("enroll"), Segment::Literal("token"),
            ],
            endpoint: Endpoint::GenerateEnrollmentToken,
        },
        Rule {
            method: Method::Put,
            pattern: seq![
                Segment::Literal("v0"), Segment::Literal("enroll"), Segment::Literal("token"),
            ],
            endpoint: Endpoint::AuthenticateEnrollmentToken,
        },
        Rule {
            method: Method::Post,
            pattern: seq![Segment::Literal("subscription")],
            endpoint: Endpoint::ActivateSubscription,
        },
        Rule {
            method: Method::Get,
            pattern: seq![Segment::Literal("subscription"), Segment::Param],
            endpoint: Endpoint::GetSubscription,
        },
        Rule {
            method: Method::Get,
            pattern: seq![Segment::Literal("subscription")],
            endpoint: Endpoint::ListSubscriptions,
        },
        Rule {
            method: Method::Put,
            pattern: seq![
                Segment::Literal("subscription"), Segment::Param, Segment::Literal("contact_info"),
            ],
            endpoint: Endpoint::UpdateSubscriptionContactInfo,
        },
        Rule {
            method: Method::Put,
            pattern: seq![
                Segment::Literal("subscription"), Segment::Param, Segment::Literal("space_id"),
            ],
            endpoint: Endpoint::UpdateSubscriptionSpace,
        },
        Rule {
            method: Method::Put,
            pattern: seq![
                Segment::Literal("subscription"), Segment::Param, Segment::Literal("unsubscribe"),
            ],
            endpoint: Endpoint::Unsubscribe,
        },
        Rule {
            method: Method::Post,
            pattern: seq![Segment::Literal("v0"), Segment::Literal("message")],
            endpoint: Endpoint::SendMessage,
        },
    ]
}

pub open spec fn segment_accepts(p: Segment, s: Seq<char>) -> bool {
    match p {
        Segment::Literal(text) => text@ == s,
        Segment::Param => true,
    }
}

/// A pattern accepts a path of its own length whose segments it accepts one
/// by one.
pub open spec fn pattern_accepts(pattern: Seq<Segment>, path: Seq<Seq<char>>) -> bool {
    &&& pattern.len() == path.len()
    &&& forall|k: int| 0 <= k < pattern.len() ==> segment_accepts(#[trigger] pattern[k], path[k])
}

pub open spec fn rule_accepts(rule: Rule, method: Method, path: Seq<Seq<char>>) -> bool {
    rule.method == method && pattern_accepts(rule.pattern, path)
}

/// What a pattern captures from a path: the segments that stand where the
/// pattern has a `Param`, in the order of the path.
pub open spec fn captures(pattern: Seq<Segment>, path: Seq<Seq<char>>) -> Seq<Seq<char>>
    decreases pattern.len(),
{
    if pattern.len() == 0 || path.len() == 0 {
        Seq::empty()
    } else {
        let before = captures(pattern.drop_last(), path.drop_last());
        match pattern.last() {
            Segment::Literal(_) => before,
            Segment::Param => before.push(path.last()),
        }
    }
}

/// The first rule at or after `from` that accepts the request.
pub open spec fn first_match(
    table: Seq<Rule>,
    method: Method,
    path: Seq<Seq<char>>,
    from: int,
) -> Option<int>
    decreases table.len() - from,
{
    if from < 0 || from >= table.len() {
        None
    } else if rule_accepts(table[from], method, path) {
        Some(from)
    } else {
        first_match(table, method, path, from + 1)
    }
}

/// A handler together with what the path handed to it.
pub struct RouteView {
    pub endpoint: Endpoint,
    pub params: Seq<Seq<char>>,
}

/// Where the routing table sends a request, if it sends it anywhere.
pub open spec fn route_of(method: Method, path: Seq<Seq<char>>) -> Option<RouteView> {
    match first_match(routing_table(), method, path, 0) {
        Some(i) => Some(
            RouteView {
                endpoint: routing_table()[i].endpoint,
                params: captures(routing_table()[i].pattern, path),
            },
        ),
        None => None,
    }
}

/// Where the routing table sends a request, by its path as it was written.
pub open spec fn route_of_path(method: Method, path: Seq<char>) -> Option<RouteView> {
    route_of(method, split_path(path))
}

#[derive(Clone, Debug, PartialEq, Eq)]
pub struct Route {
    pub endpoint: Endpoint,
    pub params: Vec<String>,
}

impl View for Route {
    type V = RouteView;

    open spec fn view(&self) -> RouteView {
        RouteView { endpoint: self.endpoint, params: texts(self.params@) }
    }
}

pub open spec fn route_view(route: Option<Route>) -> Option<RouteView> {
    match route {
        Some(r) => Some(r@),
        None => None,
    }
}

struct RouteRule {
    method: Method,
    pattern: Vec<Segment>,
    endpoint: Endpoint,
}

spec fn rules_view(rules: Seq<RouteRule>) -> Seq<Rule> {
    rules.map_values(
        |r: RouteRule| Rule { method: r.method, pattern: r.pattern@, endpoint: r.endpoint },
    )
}

fn add_rule(rules: &mut Vec<RouteRule>, method: Method, pattern: Vec<Segment>, endpoint: Endpoint)
    ensures
        rules_view(final(rules)@) == rules_view(old(rules)@).push(
            Rule { method, pattern: pattern@, endpoint },
        ),
{
    let ghost rule = Rule { method, pattern: pattern@, endpoint };
    rules.push(RouteRule { method, pattern, endpoint });
    assert(rules_view(rules@) =~= rules_view(old(rules)@).push(rule));
}

/// Tests a path against a pattern, and collects what the pattern captures.
fn match_pattern(pattern: &Vec<Segment>, path: &Vec<String>) -> (r: Option<Vec<String>>)
    ensures
        r is Some <==> pattern_accepts(pattern@, texts(path@)),
        r matches Some(params) ==> texts(params@) == captures(pattern@, texts(path@)),
{
    if pattern.len() != path.len() {
        return None;
    }
    let ghost p = pattern@;
    let ghost t = texts(path@);
    let mut params: Vec<String> = Vec::new();
    let mut k: usize = 0;
    assert(captures(p.take(0), t.take(0)) == Seq::<Seq<char>>::empty());
    while k < pattern.len()
        invariant
            p == pattern@,
            t == texts(path@),
            p.len() == t.len(),
            path.len() == t.len(),
            k <= p.len(),
            forall|j: int| 0 <= j < k ==> segment_accepts(#[trigger] p[j], t[j]),
            texts(params@) == captures(p.take(k as int), t.take(k as int)),
        decreases p.len() - k,
    {
        proof {
            assert(p.take(k + 1).drop_last() == p.take(k as int));
            assert(t.take(k + 1).drop_last() == t.take(k as int));
            assert(p.take(k + 1).last() == p[k as int]);
            assert(t.take(k + 1).last() == t[k as int]);
        }
        match pattern[k] {
            Segment::Literal(text) => {
                if !same_text(path[k].as_str(), text) {
                    assert(!segment_accepts(p[k as int], t[k as int]));
                    return None;
                }
            },
            Segment::Param => {
                let held = path[k].clone();
                assert(texts(params@.push(held)) == texts(params@).push(held@));
                params.push(held);
            },
        }
        k += 1;
    }
    assert(p.take(k as int) == p);
    assert(t.take(k as int) == t);
    Some(params)
}

/// The routing table in executable form.
pub struct Router {
    rules: Vec<RouteRule>,
}

impl Router {
    #[verifier::type_invariant]
    spec fn holds_the_table(self) -> bool {
        rules_view(self.rules@) == routing_table()
    }

    /// The router of [`routing_table`].
    pub fn new() -> (router: Router)
        ensures
            router@ == routing_table(),
    {
        let mut rules: Vec<RouteRule> = Vec::new();
        assert(rules_view(rules@) == Seq::<Rule>::empty());
        add_rule(&mut rules, Method::Get, vec![Segment::Literal("node")], Endpoint::NodeStatus);
        add_rule(
            &mut rules,
            Method::Get,
            vec![Segment::Literal("node"), Segment::Literal("tcp"), Segment::Literal("connection")],
            Endpoint::ListTcpConnections,
        );
        add_rule(
            &mut rules,
            Method::Post,
            vec![Segment::Literal("node"), Segment::Literal("tcp"), Segment::Literal("connection")],
            Endpoint::AddTransport,
        );
        add_rule(
            &mut rules,
            Method::Delete,
            vec![Segment::Literal("node"), Segment::Literal("tcp"), Segment::Literal("connection")],
            Endpoint::DeleteTransport,
        );
        add_rule(
            &mut rules,
            Method::Get,
            vec![Segment::Literal("node"), Segment::Literal("tcp"), Segment::Literal("listener")],
            Endpoint::ListTcpListeners,
        );
        add_rule(
            &mut rules,
            Method::Post,
            vec![Segment::Literal("node"), Segment::Literal("tcp"), Segment::Literal("listener")],
            Endpoint::AddTransport,
        );
        add_rule(
            &mut rules,
            Method::Delete,
            vec![Segment::Literal("node"), Segment::Literal("tcp"), Segment::Literal("listener")],
            Endpoint::DeleteTransport,
        );
        add_rule(
            &mut rules,
            Method::Post,
            vec![Segment::Literal("node"), Segment::Literal("vault")],
            Endpoint::CreateVault,
        );
        add_rule(
            &mut rules,
            Method::Post,
            vec![Segment::Literal("node"), Segment::Literal("identity")],
            Endpoint::CreateIdentity,
        );
        add_rule(
            &mut rules,
            Method::Post,
            vec![
                Segment::Literal("node"), Segment::Literal("identity"), Segment::Literal("actions"),
                Segment::Literal("show"), Segment::Literal("short"),
            ],
            Endpoint::ShortIdentity,
        );
        add_rule(
            &mut rules,
            Method::Post,
            vec![
                Segment::Literal("node"), Segment::Literal("identity"), Segment::Literal("actions"),
                Segment::Literal("show"), Segment::Literal("long"),
            ],
            Endpoint::LongIdentity,
        );
        add_rule(
            &mut rules,
            Method::Post,
            vec![
                Segment::Literal("node"), Segment::Literal("credentials"),
                Segment::Literal("actions"), Segment::Literal("get"),
            ],
            Endpoint::GetCredential,
        );
        add_rule(
            &mut rules,
            Method::Post,
            vec![
                Segment::Literal("node"), Segment::Literal("credentials"),
                Segment::Literal("actions"), Segment::Literal("present"),
            ],
            Endpoint::PresentCredential,
        );
        add_rule(
            &mut rules,
            Method::Get,
            vec![Segment::Literal("node"), Segment::Literal("secure_channel")],
            Endpoint::ListSecureChannels,
        );
        add_rule(
            &mut rules,
            Method::Get,
            vec![Segment::Literal("node"), Segment::Literal("secure_channel_listener")],
            Endpoint::ListSecureChannelListeners,
        );
        add_rule(
            &mut rules,
            Method::Post,
            vec![Segment::Literal("node"), Segment::Literal("secure_channel")],
            Endpoint::CreateSecureChannel,
        );
        add_rule(
            &mut rules,
            Method::Delete,
            vec![Segment::Literal("node"), Segment::Literal("secure_channel")],
            Endpoint::DeleteSecureChannel,
        );
        add_rule(
            &mut rules,
            Method::Post,
            vec![Segment::Literal("node"), Segment::Literal("secure_channel_listener")],
            Endpoint::CreateSecureChannelListener,
        );
        add_rule(
            &mut rules,
            Method::Post,
            vec![Segment::Literal("node"), Segment::Literal("services"), Segment::Literal("vault")],
            Endpoint::StartVaultService,
        );
        add_rule(
            &mut rules,
            Method::Post,
            vec![
                Segment::Literal("node"), Segment::Literal("services"),
                Segment::Literal("identity"),
            ],
            Endpoint::StartIdentityService,
        );
        add_rule(
            &mut rules,
            Method::Post,
            vec![
                Segment::Literal("node"), Segment::Literal("services"),
                Segment::Literal("authenticated"),
            ],
            Endpoint::StartAuthenticatedService,
        );
        add_rule(
            &mut rules,
            Method::Post,
            vec![
                Segment::Literal("node"), Segment::Literal("services"),
                Segment::Literal("uppercase"),
            ],
            Endpoint::StartUppercaseService,
        );
        add_rule(
            &mut rules,
            Method::Post,
            vec![Segment::Literal("node"), Segment::Literal("services"), Segment::Literal("echo")],
            Endpoint::StartEchoerService,
        );
        add_rule(
            &mut rules,
            Method::Post,
            vec![
                Segment::Literal("node"), Segment::Literal("services"),
                Segment::Literal("authenticator"),
            ],
            Endpoint::StartAuthenticatorService,
        );
        add_rule(
            &mut rules,
            Method::Post,
            vec![
                Segment::Literal("node"), Segment::Literal("services"),
                Segment::Literal("verifier"),
            ],
            Endpoint::StartVerifierService,
        );
        add_rule(
            &mut rules,
            Method::Post,
            vec![
                Segment::Literal("node"), Segment::Literal("services"),
                Segment::Literal("credentials"),
            ],
            Endpoint::StartCredentialsService,
        );
        add_rule(
            &mut rules,
            Method::Post,
            vec![Segment::Literal("node"), Segment::Literal("forwarder")],
            Endpoint::CreateForwarder,
        );
        add_rule(
            &mut rules,
            Method::Get,
            vec![Segment::Literal("node"), Segment::Literal("inlet")],
            Endpoint::ListInlets,
        );
        add_rule(
            &mut rules,
            Method::Get,
            vec![Segment::Literal("node"), Segment::Literal("outlet")],
            Endpoint::ListOutlets,
        );
        add_rule(
            &mut rules,
            Method::Post,
            vec![Segment::Literal("node"), Segment::Literal("inlet")],
            Endpoint::CreateInlet,
        );
        add_rule(
            &mut rules,
            Method::Post,
            vec![Segment::Literal("node"), Segment::Literal("outlet")],
            Endpoint::CreateOutlet,
        );
        add_rule(
            &mut rules,
            Method::Post,
            vec![Segment::Literal("v0"), Segment::Literal("spaces")],
            Endpoint::CreateSpace,
        );
        add_rule(
            &mut rules,
            Method::Get,
            vec![Segment::Literal("v0"), Segment::Literal("spaces")],
            Endpoint::ListSpaces,
        );
        add_rule(
            &mut rules,
            Method::Get,
            vec![Segment::Literal("v0"), Segment::Literal("spaces"), Segment::Param],
            Endpoint::GetSpace,
        );
        add_rule(
            &mut rules,
            Method::Delete,
            vec![Segment::Literal("v0"), Segment::Literal("spaces"), Segment::Param],
            Endpoint::DeleteSpace,
        );
        add_rule(
            &mut rules,
            Method::Post,
            vec![Segment::Literal("v0"), Segment::Literal("project-enrollers"), Segment::Param],
            Endpoint::AddProjectEnroller,
        );
        add_rule(
            &mut rules,
            Method::Get,
            vec![Segment::Literal("v0"), Segment::Literal("project-enrollers"), Segment::Param],
            Endpoint::ListProjectEnrollers,
        );
        add_rule(
            &mut rules,
            Method::Delete,
            vec![
                Segment::Literal("v0"), Segment::Literal("project-enrollers"), Segment::Param,
                Segment::Param,
            ],
            Endpoint::DeleteProjectEnroller,
        );
        add_rule(
            &mut rules,
            Method::Post,
            vec![Segment::Literal("v0"), Segment::Literal("projects"), Segment::Param],
            Endpoint::CreateProject,
        );
        add_rule(
            &mut rules,
            Method::Get,
            vec![Segment::Literal("v0"), Segment::Literal("projects")],
            Endpoint::ListProjects,
        );
        add_rule(
            &mut rules,
            Method::Get,
            vec![Segment::Literal("v0"), Segment::Literal("projects"), Segment::Param],
            Endpoint::GetProject,
        );
        add_rule(
            &mut rules,
            Method::Delete,
            vec![
                Segment::Literal("v0"), Segment::Literal("projects"), Segment::Param,
                Segment::Param,
            ],
            Endpoint::DeleteProject,
        );
        add_rule(
            &mut rules,
            Method::Post,
            vec![Segment::Literal("v0"), Segment::Literal("enroll"), Segment::Literal("auth0")],
            Endpoint::EnrollAuth0,
        );
        add_rule(
            &mut rules,
            Method::Get,
            vec![Segment::Literal("v0"), Segment::Literal("enroll"), Segment::Literal("token")],
            Endpoint::GenerateEnrollmentToken,
        );
        add_rule(
            &mut rules,
            Method::Put,
            vec![Segment::Literal("v0"), Segment::Literal("enroll"), Segment::Literal("token")],
            Endpoint::AuthenticateEnrollmentToken,
        );
        add_rule(
            &mut rules,
            Method::Post,
            vec![Segment::Literal("subscription")],
            Endpoint::ActivateSubscription,
        );
        add_rule(
            &mut rules,
            Method::Get,
            vec![Segment::Literal("subscription"), Segment::Param],
            Endpoint::GetSubscription,
        );
        add_rule(
            &mut rules,
            Method::Get,
            vec![Segment::Literal("subscription")],
            Endpoint::ListSubscriptions,
        );
        add_rule(
            &mut rules,
            Method::Put,
            vec![
                Segment::Literal("subscription"), Segment::Param, Segment::Literal("contact_info"),
            ],
            Endpoint::UpdateSubscriptionContactInfo,
        );
        add_rule(
            &mut rules,
            Method::Put,
            vec![Segment::Literal("subscription"), Segment::Param, Segment::Literal("space_id")],
            Endpoint::UpdateSubscriptionSpace,
        );
        add_rule(
            &mut rules,
            Method::Put,
            vec![Segment::Literal("subscription"), Segment::Param, Segment::Literal("unsubscribe")],
            Endpoint::Unsubscribe,
        );
        add_rule(
            &mut rules,
            Method::Post,
            vec![Segment::Literal("v0"), Segment::Literal("message")],
            Endpoint::SendMessage,
        );
        proof {
            assert(rules_view(rules@)[0].pattern =~= routing_table()[0].pattern);
            assert(rules_view(rules@)[1].pattern =~= routing_table()[1].pattern);
            assert(rules_view(rules@)[2].pattern =~= routing_table()[2].pattern);
            assert(rules_view(rules@)[3].pattern =~= routing_table()[3].pattern);
            assert(rules_view(rules@)[4].pattern =~= routing_table()[4].pattern);
            assert(rules_view(rules@)[5].pattern =~= routing_table()[5].pattern);
            assert(rules_view(rules@)[6].pattern =~= routing_table()[6].pattern);
            assert(rules_view(rules@)[7].pattern =~= routing_table()[7].pattern);
            assert(rules_view(rules@)[8].pattern =~= routing_table()[8].pattern);
            assert(rules_view(rules@)[9].pattern =~= routing_table()[9].pattern);
            assert(rules_view(rules@)[10].pattern =~= routing_table()[10].pattern);
            assert(rules_view(rules@)[11].pattern =~= routing_table()[11].pattern);
            assert(rules_view(rules@)[12].pattern =~= routing_table()[12].pattern);
            assert(rules_view(rules@)[13].pattern =~= routing_table()[13].pattern);
            assert(rules_view(rules@)[14].pattern =~= routing_table()[14].pattern);
            assert(rules_view(rules@)[15].pattern =~= routing_table()[15].pattern);
            assert(rules_view(rules@)[16].pattern =~= routing_table()[16].pattern);
            assert(rules_view(rules@)[17].pattern =~= routing_table()[17].pattern);
            assert(rules_view(rules@)[18].pattern =~= routing_table()[18].pattern);
            assert(rules_view(rules@)[19].pattern =~= routing_table()[19].pattern);
            assert(rules_view(rules@)[20].pattern =~= routing_table()[20].pattern);
            assert(rules_view(rules@)[21].pattern =~= routing_table()[21].pattern);
            assert(rules_view(rules@)[22].pattern =~= routing_table()[22].pattern);
            assert(rules_view(rules@)[23].pattern =~= routing_table()[23].pattern);
            assert(rules_view(rules@)[24].pattern =~= routing_table()[24].pattern);
            assert(rules_view(rules@)[25].pattern =~= routing_table()[25].pattern);
            assert(rules_view(rules@)[26].pattern =~= routing_table()[26].pattern);
            assert(rules_view(rules@)[27].pattern =~= routing_table()[27].pattern);
            assert(rules_view(rules@)[28].pattern =~= routing_table()[28].pattern);
            assert(rules_view(rules@)[29].pattern =~= routing_table()[29].pattern);
            assert(rules_view(rules@)[30].pattern =~= routing_table()[30].pattern);
            assert(rules_view(rules@)[31].pattern =~= routing_table()[31].pattern);
            assert(rules_view(rules@)[32].pattern =~= routing_table()[32].pattern);
            assert(rules_view(rules@)[33].pattern =~= routing_table()[33].pattern);
            assert(rules_view(rules@)[34].pattern =~= routing_table()[34].pattern);
            assert(rules_view(rules@)[35].pattern =~= routing_table()[35].pattern);
            assert(rules_view(rules@)[36].pattern =~= routing_table()[36].pattern);
            assert(rules_view(rules@)[37].pattern =~= routing_table()[37].pattern);
            assert(rules_view(rules@)[38].pattern =~= routing_table()[38].pattern);
            assert(rules_view(rules@)[39].pattern =~= routing_table()[39].pattern);
            assert(rules_view(rules@)[40].pattern =~= routing_table()[40].pattern);
            assert(rules_view(rules@)[41].pattern =~= routing_table()[41].pattern);
            assert(rules_view(rules@)[42].pattern =~= routing_table()[42].pattern);
            assert(rules_view(rules@)[43].pattern =~= routing_table()[43].pattern);
            assert(rules_view(rules@)[44].pattern =~= routing_table()[44].pattern);
            assert(rules_view(rules@)[45].pattern =~= routing_table()[45].pattern);
            assert(rules_view(rules@)[46].pattern =~= routing_table()[46].pattern);
            assert(rules_view(rules@)[47].pattern =~= routing_table()[47].pattern);
            assert(rules_view(rules@)[48].pattern =~= routing_table()[48].pattern);
            assert(rules_view(rules@)[49].pattern =~= routing_table()[49].pattern);
            assert(rules_view(rules@)[50].pattern =~= routing_table()[50].pattern);
            assert(rules_view(rules@)[51].pattern =~= routing_table()[51].pattern);
            assert(rules_view(rules@) =~= routing_table());
        }
        Router { rules }
    }

    /// Finds the handler of a request whose path is already cut into
    /// segments.
    pub fn route(&self, method: Method, path: &Vec<String>) -> (route: Option<Route>)
        ensures
            route_view(route) == route_of(method, texts(path@)),
    {
        proof {
            use_type_invariant(self);
        }
        let ghost t = texts(path@);
        let mut i: usize = 0;
        while i < self.rules.len()
            invariant
                t == texts(path@),
                rules_view(self.rules@) == routing_table(),
                i <= self.rules.len(),
                first_match(routing_table(), method, t, 0) == first_match(
                    routing_table(),
                    method,
                    t,
                    i as int,
                ),
            decreases self.rules.len() - i,
        {
            let rule = &self.rules[i];
            assert(rules_view(self.rules@)[i as int].pattern == rule.pattern@);
            if rule.method == method {
                match match_pattern(&rule.pattern, path) {
                    Some(params) => {
                        return Some(Route { endpoint: rule.endpoint, params });
                    },
                    None => {},
                }
            }
            i += 1;
        }
        None
    }

    /// Finds the handler of a request by its method and its path.
    pub fn route_path(&self, method: Method, path: &str) -> (route: Option<Route>)
        ensures
            route_view(route) == route_of_path(method, path@),
    {
        let segments = path_segments(path);
        self.route(method, &segments)
    }
}

impl View for Router {
    type V = Seq<Rule>;

    /// The lines that the router goes by, in their order.
    closed spec fn view(&self) -> Seq<Rule> {
        rules_view(self.rules@)
    }
}

spec fn segments_clash(a: Segment, b: Segment) -> bool {
    a matches Segment::Literal(x) && b matches Segment::Literal(y) && x@ != y@
}

spec fn clash_at(a: Seq<Segment>, b: Seq<Segment>, k: int) -> bool {
    0 <= k < a.len() && k < b.len() && segments_clash(a[k], b[k])
}

/// Two rules clash when they differ in method or in length, or hold two
/// different texts at one place.
spec fn rules_clash(a: Rule, b: Rule) -> bool {
    ||| a.method != b.method
    ||| a.pattern.len() != b.pattern.len()
    ||| clash_at(a.pattern, b.pattern, 0)
    ||| clash_at(a.pattern, b.pattern, 1)
    ||| clash_at(a.pattern, b.pattern, 2)
    ||| clash_at(a.pattern, b.pattern, 3)
    ||| clash_at(a.pattern, b.pattern, 4)
}

spec fn clashes_with_rest(t: Seq<Rule>, r: Rule, from: int) -> bool
    decreases t.len() - from,
{
    from < 0 || from >= t.len() || (rules_clash(r, t[from]) && clashes_with_rest(t, r, from + 1))
}

proof fn lemma_clash_excludes(a: Rule, b: Rule, method: Method, path: Seq<Seq<char>>)
    requires
        rules_clash(a, b),
    ensures
        !(rule_accepts(a, method, path) && rule_accepts(b, method, path)),
{
}

proof fn lemma_clashes_with_rest(t: Seq<Rule>, r: Rule, from: int, j: int)
    requires
        0 <= from <= j < t.len(),
        clashes_with_rest(t, r, from),
    ensures
        rules_clash(r, t[j]),
    decreases j - from,
{
    if from < j {
        lemma_clashes_with_rest(t, r, from + 1, j);
    }
}

/// The lengths of the texts in the routing table, and the characters that
/// tell two texts of one length apart.
proof fn lemma_texts()
    ensures
        "node"@.len() == 4,
        "tcp"@.len() == 3,
        "connection"@.len() == 10,
        "listener"@.len() == 8,
        "vault"@.len() == 5,
        "identity"@.len() == 8,
        "actions"@.len() == 7,
        "show"@.len() == 4,
        "short"@.len() == 5,
        "long"@.len() == 4,
        "credentials"@.len() == 11,
        "get"@.len() == 3,
        "present"@.len() == 7,
        "secure_channel"@.len() == 14,
        "secure_channel_listener"@.len() == 23,
        "services"@.len() == 8,
        "authenticated"@.len() == 13,
        "uppercase"@.len() == 9,
        "echo"@.len() == 4,
        "authenticator"@.len() == 13,
        "verifier"@.len() == 8,
        "forwarder"@.len() == 9,
        "inlet"@.len() == 5,
        "outlet"@.len() == 6,
        "v0"@.len() == 2,
        "spaces"@.len() == 6,
        "project-enrollers"@.len() == 17,
        "projects"@.len() == 8,
        "enroll"@.len() == 6,
        "auth0"@.len() == 5,
        "token"@.len() == 5,
        "subscription"@.len() == 12,
        "contact_info"@.len() == 12,
        "space_id"@.len() == 8,
        "unsubscribe"@.len() == 11,
        "message"@.len() == 7,
        "authenticated"@[11] == 'e',
        "authenticator"@[11] == 'o',
        "enroll"@[0] == 'e',
        "identity"@[0] == 'i',
        "inlet"@[0] == 'i',
        "spaces"@[0] == 's',
        "vault"@[0] == 'v',
        "verifier"@[0] == 'v',
{
    reveal_strlit("node");
    reveal_strlit("tcp");
    reveal_strlit("connection");
    reveal_strlit("listener");
    reveal_strlit("vault");
    reveal_strlit("identity");
    reveal_strlit("actions");
    reveal_strlit("show");
    reveal_strlit("short");
    reveal_strlit("long");
    reveal_strlit("credentials");
    reveal_strlit("get");
    reveal_strlit("present");
    reveal_strlit("secure_channel");
    reveal_strlit("secure_channel_listener");
    reveal_strlit("services");
    reveal_strlit("authenticated");
    reveal_strlit("uppercase");
    reveal_strlit("echo");
    reveal_strlit("authenticator");
    reveal_strlit("verifier");
    reveal_strlit("forwarder");
    reveal_strlit("inlet");
    reveal_strlit("outlet");
    reveal_strlit("v0");
    reveal_strlit("spaces");
    reveal_strlit("project-enrollers");
    reveal_strlit("projects");
    reveal_strlit("enroll");
    reveal_strlit("auth0");
    reveal_strlit("token");
    reveal_strlit("subscription");
    reveal_strlit("contact_info");
    reveal_strlit("space_id");
    reveal_strlit("unsubscribe");
    reveal_strlit("message");
}

proof fn lemma_rows_clash_0()
    ensures
        clashes_with_rest(routing_table(), routing_table()[0], 1),
        clashes_with_rest(routing_table(), routing_table()[1], 2),
        clashes_with_rest(routing_table(), routing_table()[2], 3),
        clashes_with_rest(routing_table(), routing_table()[3], 4),
        clashes_with_rest(routing_table(), routing_table()[4], 5),
        clashes_with_rest(routing_table(), routing_table()[5], 6),
        clashes_with_rest(routing_table(), routing_table()[6], 7),
        clashes_with_rest(routing_table(), routing_table()[7], 8),
        clashes_with_rest(routing_table(), routing_table()[8], 9),
{
    let t = routing_table();
    lemma_texts();
    reveal_with_fuel(clashes_with_rest, 53);
    assert(clashes_with_rest(t, t[0], 1));
    assert(clashes_with_rest(t, t[1], 2));
    assert(clashes_with_rest(t, t[2], 3));
    assert(clashes_with_rest(t, t[3], 4));
    assert(clashes_with_rest(t, t[4], 5));
    assert(clashes_with_rest(t, t[5], 6));
    assert(clashes_with_rest(t, t[6], 7));
    assert(clashes_with_rest(t, t[7], 8));
    assert(clashes_with_rest(t, t[8], 9));
}

proof fn lemma_rows_clash_1()
    ensures
        clashes_with_rest(routing_table(), routing_table()[9], 10),
        clashes_with_rest(routing_table(), routing_table()[10], 11),
        clashes_with_rest(routing_table(), routing_table()[11], 12),
        clashes_with_rest(routing_table(), routing_table()[12], 13),
        clashes_with_rest(routing_table(), routing_table()[13], 14),
        clashes_with_rest(routing_table(), routing_table()[14], 15),
        clashes_with_rest(routing_table(), routing_table()[15], 16),
        clashes_with_rest(routing_table(), routing_table()[16], 17),
        clashes_with_rest(routing_table(), routing_table()[17], 18),
{
    let t = routing_table();
    lemma_texts();
    reveal_with_fuel(clashes_with_rest, 53);
    assert(clashes_with_rest(t, t[9], 10));
    assert(clashes_with_rest(t, t[10], 11));
    assert(clashes_with_rest(t, t[11], 12));
    assert(clashes_with_rest(t, t[12], 13));
    assert(clashes_with_rest(t, t[13], 14));
    assert(clashes_with_rest(t, t[14], 15));
    assert(clashes_with_rest(t, t[15], 16));
    assert(clashes_with_rest(t, t[16], 17));
    assert(clashes_with_rest(t, t[17], 18));
}

proof fn lemma_rows_clash_2()
    ensures
        clashes_with_rest(routing_table(), routing_table()[18], 19),
        clashes_with_rest(routing_table(), routing_table()[19], 20),
        clashes_with_rest(routing_table(), routing_table()[20], 21),
        clashes_with_rest(routing_table(), routing_table()[21], 22),
        clashes_with_rest(routing_table(), routing_table()[22], 23),
        clashes_with_rest(routing_table(), routing_table()[23], 24),
        clashes_with_rest(routing_table(), routing_table()[24], 25),
        clashes_with_rest(routing_table(), routing_table()[25], 26),
        clashes_with_rest(routing_table(), routing_table()[26], 27),
{
    let t = routing_table();
    lemma_texts();
    reveal_with_fuel(clashes_with_rest, 53);
    assert(clashes_with_rest(t, t[18], 19));
    assert(clashes_with_rest(t, t[19], 20));
    assert(clashes_with_rest(t, t[20], 21));
    assert(clashes_with_rest(t, t[21], 22));
    assert(clashes_with_rest(t, t[22], 23));
    assert(clashes_with_rest(t, t[23], 24));
    assert(clashes_with_rest(t, t[24], 25));
    assert(clashes_with_rest(t, t[25], 26));
    assert(clashes_with_rest(t, t[26], 27));
}

proof fn lemma_rows_clash_3()
    ensures
        clashes_with_rest(routing_table(), routing_table()[27], 28),
        clashes_with_rest(routing_table(), routing_table()[28], 29),
        clashes_with_rest(routing_table(), routing_table()[29], 30),
        clashes_with_rest(routing_table(), routing_table()[30], 31),
        clashes_with_rest(routing_table(), routing_table()[31], 32),
        clashes_with_rest(routing_table(), routing_table()[32], 33),
        clashes_with_rest(routing_table(), routing_table()[33], 34),
        clashes_with_rest(routing_table(), routing_table()[34], 35),
        clashes_with_rest(routing_table(), routing_table()[35], 36),
{
    let t = routing_table();
    lemma_texts();
    reveal_with_fuel(clashes_with_rest, 53);
    assert(clashes_with_rest(t, t[27], 28));
    assert(clashes_with_rest(t, t[28], 29));
    assert(clashes_with_rest(t, t[29], 30));
    assert(clashes_with_rest(t, t[30], 31));
    assert(clashes_with_rest(t, t[31], 32));
    assert(clashes_with_rest(t, t[32], 33));
    assert(clashes_with_rest(t, t[33], 34));
    assert(clashes_with_rest(t, t[34], 35));
    assert(clashes_with_rest(t, t[35], 36));
}

proof fn lemma_rows_clash_4()
    ensures
        clashes_with_rest(routing_table(), routing_table()[36], 37),
        clashes_with_rest(routing_table(), routing_table()[37], 38),
        clashes_with_rest(routing_table(), routing_table()[38], 39),
        clashes_with_rest(routing_table(), routing_table()[39], 40),
        clashes_with_rest(routing_table(), routing_table()[40], 41),
        clashes_with_rest(routing_table(), routing_table()[41], 42),
        clashes_with_rest(routing_table(), routing_table()[42], 43),
        clashes_with_rest(routing_table(), routing_table()[43], 44),
        clashes_with_rest(routing_table(), routing_table()[44], 45),
{
    let t = routing_table();
    lemma_texts();
    reveal_with_fuel(clashes_with_rest, 53);
    assert(clashes_with_rest(t, t[36], 37));
    assert(clashes_with_rest(t, t[37], 38));
    assert(clashes_with_rest(t, t[38], 39));
    assert(clashes_with_rest(t, t[39], 40));
    assert(clashes_with_rest(t, t[40], 41));
    assert(clashes_with_rest(t, t[41], 42));
    assert(clashes_with_rest(t, t[42], 43));
    assert(clashes_with_rest(t, t[43], 44));
    assert(clashes_with_rest(t, t[44], 45));
}

proof fn lemma_rows_clash_5()
    ensures
        clashes_with_rest(routing_table(), routing_table()[45], 46),
        clashes_with_rest(routing_table(), routing_table()[46], 47),
        clashes_with_rest(routing_table(), routing_table()[47], 48),
        clashes_with_rest(routing_table(), routing_table()[48], 49),
        clashes_with_rest(routing_table(), routing_table()[49], 50),
        clashes_with_rest(routing_table(), routing_table()[50], 51),
        clashes_with_rest(routing_table(), routing_table()[51], 52),
{
    let t = routing_table();
    lemma_texts();
    reveal_with_fuel(clashes_with_rest, 53);
    assert(clashes_with_rest(t, t[45], 46));
    assert(clashes_with_rest(t, t[46], 47));
    assert(clashes_with_rest(t, t[47], 48));
    assert(clashes_with_rest(t, t[48], 49));
    assert(clashes_with_rest(t, t[49], 50));
    assert(clashes_with_rest(t, t[50], 51));
    assert(clashes_with_rest(t, t[51], 52));
}

proof fn lemma_rows_clash(i: int)
    requires
        0 <= i < routing_table().len(),
    ensures
        clashes_with_rest(routing_table(), routing_table()[i], i + 1),
{
    if i < 9 {
        lemma_rows_clash_0();
    } else if i < 18 {
        lemma_rows_clash_1();
    } else if i < 27 {
        lemma_rows_clash_2();
    } else if i < 36 {
        lemma_rows_clash_3();
    } else if i < 45 {
        lemma_rows_clash_4();
    } else if i < 52 {
        lemma_rows_clash_5();
    }
}

proof fn lemma_first_match(table: Seq<Rule>, method: Method, path: Seq<Seq<char>>, from: int)
    requires
        0 <= from,
    ensures
        match first_match(table, method, path, from) {
            Some(k) => {
                &&& from <= k < table.len()
                &&& rule_accepts(table[k], method, path)
                &&& forall|j: int|
                    from <= j < k ==> !rule_accepts(#[trigger] table[j], method, path)
            },
            None => forall|j: int|
                from <= j < table.len() ==> !rule_accepts(#[trigger] table[j], method, path),
        },
    decreases table.len() - from,
{
    if from < table.len() && !rule_accepts(table[from], method, path) {
        lemma_first_match(table, method, path, from + 1);
    }
}

/// No request is accepted by two lines of the routing table.
pub proof fn lemma_rules_exclude_each_other(i: int, j: int, method: Method, path: Seq<Seq<char>>)
    requires
        0 <= i < routing_table().len(),
        0 <= j < routing_table().len(),
        rule_accepts(routing_table()[i], method, path),
        rule_accepts(routing_table()[j], method, path),
    ensures
        i == j,
{
    let t = routing_table();
    if i < j {
        lemma_rows_clash(i);
        lemma_clashes_with_rest(t, t[i], i + 1, j);
        lemma_clash_excludes(t[i], t[j], method, path);
    } else if j < i {
        lemma_rows_clash(j);
        lemma_clashes_with_rest(t, t[j], j + 1, i);
        lemma_clash_excludes(t[j], t[i], method, path);
    }
}

/// A request that a line of the routing table accepts reaches the handler
/// of that line, with what that line's pattern captures.
pub proof fn lemma_listed_request_reaches_its_handler(i: int, path: Seq<Seq<char>>)
    requires
        0 <= i < routing_table().len(),
        pattern_accepts(routing_table()[i].pattern, path),
    ensures
        route_of(routing_table()[i].method, path) == Some(
            RouteView {
                endpoint: routing_table()[i].endpoint,
                params: captures(routing_table()[i].pattern, path),
            },
        ),
{
    let t = routing_table();
    let method = t[i].method;
    lemma_first_match(t, method, path, 0);
    match first_match(t, method, path, 0) {
        Some(k) => {
            lemma_rules_exclude_each_other(i, k, method, path);
        },
        None => {
            assert(!rule_accepts(t[i], method, path));
        },
    }
}

/// A request has a route exactly when some line of the routing table accepts
/// it.
pub proof fn lemma_route_exists_iff_listed(method: Method, path: Seq<Seq<char>>)
    ensures
        route_of(method, path) is Some <==> exists|i: int|
            0 <= i < routing_table().len() && rule_accepts(
                #[trigger] routing_table()[i],
                method,
                path,
            ),
{
    let t = routing_table();
    lemma_first_match(t, method, path, 0);
}

} // verus!
