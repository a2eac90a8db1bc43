use vstd::prelude::*;

use crate::error::ServiceError;

verus! {

/// How many requests the configured target serves before scaling starts.
pub const DEFAULT_THRESHOLD: u64 = 5;

/// When a request past the threshold provisions a new instance.
#[derive(Clone, Copy, Debug, PartialEq, Eq, Structural)]
pub enum ScalePolicy {
    /// Every request past the threshold provisions its own instance; the
    /// configured target never changes.
    EachRequest,
    /// Only the first request past the threshold provisions; once that
    /// succeeds, the new instance becomes the target of later requests.
    Once,
}

/// The abstract state of a router.
pub struct RouterView {
    /// Where requests that do not provision are redirected.
    pub target: Seq<char>,
    /// The executable that is copied to provision an instance.
    pub source: Seq<char>,
    /// How many requests have been counted so far.
    pub users: nat,
    pub threshold: nat,
    pub policy: ScalePolicy,
}

/// What happens to a router: a request is counted, or a provisioning that a
/// request asked for comes back, with the new address where it succeeded.
pub enum RouterEvent {
    Request,
    Provisioned(Option<Seq<char>>),
}

impl RouterView {
    /// Whether the request that was handed `ticket` provisions an instance.
    pub open spec fn provisions_at(self, ticket: nat) -> bool {
        match self.policy {
            ScalePolicy::EachRequest => ticket > self.threshold,
            ScalePolicy::Once => ticket == self.threshold + 1,
        }
    }

    pub open spec fn step(self, event: RouterEvent) -> RouterView {
        match event {
            RouterEvent::Request => RouterView { users: self.users + 1, ..self },
            RouterEvent::Provisioned(outcome) => match (self.policy, outcome) {
                (ScalePolicy::Once, Some(address)) => RouterView { target: address, ..self },
                _ => self,
            },
        }
    }
}

/// The state after `events`, in order.
pub open spec fn run(start: RouterView, events: Seq<RouterEvent>) -> RouterView
    decreases events.len(),
{
    if events.len() == 0 {
        start
    } else {
        run(start, events.drop_last()).step(events.last())
    }
}

/// The counter values handed to the requests among `events`, in order.
pub open spec fn tickets(start: RouterView, events: Seq<RouterEvent>) -> Seq<nat>
    decreases events.len(),
{
    if events.len() == 0 {
        Seq::empty()
    } else {
        let before = tickets(start, events.drop_last());
        match events.last() {
            RouterEvent::Request => before.push(run(start, events.drop_last()).users + 1),
            RouterEvent::Provisioned(_) => before,
        }
    }
}

/// How many of `events` are requests.
pub open spec fn request_count(events: Seq<RouterEvent>) -> nat
    decreases events.len(),
{
    if events.len() == 0 {
        0
    } else {
        request_count(events.drop_last()) + match events.last() {
            RouterEvent::Request => 1nat,
            RouterEvent::Provisioned(_) => 0nat,
        }
    }
}

/// Whatever provisionings come back in between, the requests are handed the
/// counter values that follow the start one after the other: no value twice,
/// none skipped.
pub proof fn lemma_tickets_consecutive(start: RouterView, events: Seq<RouterEvent>)
    ensures
        run(start, events).users == start.users + request_count(events),
        tickets(start, events) == Seq::new(
            request_count(events),
            |i: int| (start.users + i + 1) as nat,
        ),
    decreases events.len(),
{
    if events.len() > 0 {
        lemma_tickets_consecutive(start, events.drop_last());
        assert(tickets(start, events) =~= Seq::new(
            request_count(events),
            |i: int| (start.users + i + 1) as nat,
        ));
    }
}

/// From a fresh counter, N requests (interleaved with any provisioning
/// outcomes) are handed exactly the values 1 to N, each once.
pub proof fn lemma_tickets_one_to_n(start: RouterView, events: Seq<RouterEvent>)
    requires
        start.users == 0,
    ensures
        tickets(start, events).len() == request_count(events),
        tickets(start, events).no_duplicates(),
        tickets(start, events).to_set() == Set::new(
            |k: nat| 1 <= k <= request_count(events),
        ),
{
    lemma_tickets_consecutive(start, events);
    let t = tickets(start, events);
    let n = request_count(events);
    assert(t.to_set() =~= Set::new(|k: nat| 1 <= k <= n)) by {
        assert forall|k: nat| 1 <= k <= n implies t.to_set().contains(k) by {
            assert(t[k - 1] == k);
        }
    }
}

/// The threshold and the policy never change while a router runs.
pub proof fn lemma_run_keeps_policy(start: RouterView, events: Seq<RouterEvent>)
    ensures
        run(start, events).threshold == start.threshold,
        run(start, events).policy == start.policy,
        run(start, events).source == start.source,
    decreases events.len(),
{
    if events.len() > 0 {
        lemma_run_keeps_policy(start, events.drop_last());
    }
}

/// Under the single-shot policy, at most one request of a run provisions an
/// instance, whatever the interleaving of provisioning outcomes.
pub proof fn lemma_once_provisions_at_most_once(start: RouterView, events: Seq<RouterEvent>)
    requires
        start.policy == ScalePolicy::Once,
    ensures
        forall|i: int, j: int|
            0 <= i < j < tickets(start, events).len() && start.provisions_at(
                #[trigger] tickets(start, events)[i],
            ) ==> !start.provisions_at(#[trigger] tickets(start, events)[j]),
{
    lemma_tickets_consecutive(start, events);
}

/// The state that every request handler reads and updates. It is meant to be
/// held behind one lock, so that each request is counted exactly once.
pub struct RouterState {
    target: String,
    source: String,
    users: u64,
    threshold: u64,
    policy: ScalePolicy,
}

impl View for RouterState {
    type V = RouterView;

    closed spec fn view(&self) -> RouterView {
        RouterView {
            target: self.target@,
            source: self.source@,
            users: self.users as nat,
            threshold: self.threshold as nat,
            policy: self.policy,
        }
    }
}

/// What a handler does with one request.
pub enum Action {
    /// Redirect the client to this address.
    RedirectTo(String),
    /// Provision a new instance from this executable and redirect there.
    Provision(String),
}

/// A counted request: its counter value and what to do with it.
pub struct Decision {
    pub ticket: u64,
    pub action: Action,
}

/// The answer to a request.
pub enum Reply {
    /// HTTP 307 to this address.
    TemporaryRedirect(String),
    /// HTTP 503: the instance that the request was owed could not be had.
    Unavailable(ServiceError),
}

impl Reply {
    /// The HTTP status code of the reply.
    pub fn status(&self) -> (r: u16)
        ensures
            r == (match self {
                Reply::TemporaryRedirect(_) => 307u16,
                Reply::Unavailable(_) => 503u16,
            }),
    {
        match self {
            Reply::TemporaryRedirect(_) => 307,
            Reply::Unavailable(_) => 503,
        }
    }
}

/// `d` is what the router in state `v` decides for its next request.
pub open spec fn decides(v: RouterView, d: Decision) -> bool {
    &&& d.ticket == v.users + 1
    &&& match d.action {
        Action::Provision(src) => v.provisions_at(d.ticket as nat) && src@ == v.source,
        Action::RedirectTo(t) => !v.provisions_at(d.ticket as nat) && t@ == v.target,
    }
}

/// The outcome of a provisioning as the abstract state records it.
pub open spec fn outcome_view(outcome: Result<String, ServiceError>) -> Option<Seq<char>> {
    match outcome {
        Ok(address) => Some(address@),
        Err(_) => None,
    }
}

impl RouterState {
    /// A router that redirects to `server_uri` and scales by copying
    /// `local_server_path` on every request past `DEFAULT_THRESHOLD`.
    pub fn new(server_uri: String, local_server_path: String) -> (r: RouterState)
        ensures
            r@ == (RouterView {
                target: server_uri@,
                source: local_server_path@,
                users: 0,
                threshold: DEFAULT_THRESHOLD as nat,
                policy: ScalePolicy::EachRequest,
            }),
    {
        RouterState {
            target: server_uri,
            source: local_server_path,
            users: 0,
            threshold: DEFAULT_THRESHOLD,
            policy: ScalePolicy::EachRequest,
        }
    }

    /// A router with its own threshold and scaling policy.
    pub fn with_policy(
        server_uri: String,
        local_server_path: String,
        threshold: u64,
        policy: ScalePolicy,
    ) -> (r: RouterState)
        ensures
            r@ == (RouterView {
                target: server_uri@,
                source: local_server_path@,
                users: 0,
                threshold: threshold as nat,
                policy,
            }),
    {
        RouterState { target: server_uri, source: local_server_path, users: 0, threshold, policy }
    }

    /// How many requests have been counted.
    pub fn users(&self) -> (r: u64)
        ensures
            r == self@.users,
    {
        self.users
    }

    /// Where requests that do not provision are redirected.
    pub fn target(&self) -> (r: &String)
        ensures
            r@ == self@.target,
    {
        &self.target
    }

    /// Counts a request and decides whether it is redirected to the current
    /// target or provisions a new instance.
    pub fn on_request(&mut self) -> (r: Decision)
        requires
            old(self)@.users < u64::MAX,
        ensures
            final(self)@ == old(self)@.step(RouterEvent::Request),
            decides(old(self)@, r),
    {
        self.users = self.users + 1;
        let ticket = self.users;
        let provision = match self.policy {
            ScalePolicy::EachRequest => ticket > self.threshold,
            ScalePolicy::Once => self.threshold < u64::MAX && ticket == self.threshold + 1,
        };
        let action = if provision {
            Action::Provision(self.source.clone())
        } else {
            Action::RedirectTo(self.target.clone())
        };
        Decision { ticket, action }
    }

    /// Records how a provisioning that `on_request` asked for came out, and
    /// answers its request: a redirect to the new instance, or unavailable.
    pub fn on_provisioned(&mut self, outcome: Result<String, ServiceError>) -> (r: Reply)
        ensures
            final(self)@ == old(self)@.step(RouterEvent::Provisioned(outcome_view(outcome))),
            match (outcome, r) {
                (Ok(address), Reply::TemporaryRedirect(location)) => location@ == address@,
                (Err(e), Reply::Unavailable(f)) => e == f,
                _ => false,
            },
    {
        match outcome {
            Ok(address) => {
                if self.policy == ScalePolicy::Once {
                    self.target = address.clone();
                }
                Reply::TemporaryRedirect(address)
            },
            Err(e) => Reply::Unavailable(e),
        }
    }
}

} // verus!
