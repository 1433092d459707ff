//! The fleet scheduler: the lifecycle of a whole run as a state machine.
//!
//! A run moves through phases: `Created` (nothing happened yet),
//! `LoggingIn` (waiting for the one shared login call), `Provisioning`
//! (registering the instances one by one, in a fixed order), `Running`
//! (heartbeat timers armed for every instance), and the two quiet ends,
//! `Aborted` (login failed — fatal) and `Stopped` (cancelled from outside).
//!
//! All decisions live in [`FleetScheduler::step`]: it consumes an event —
//! the outcome of an earlier call, a timer tick, a cancellation — and
//! answers with the single action the run takes next.  The unverified shell
//! performs the actions (HTTP calls, arming timers) and feeds the outcomes
//! back; every transition and every emitted request is pinned down here by
//! `next_state` and the request specifications.
//!
//! Two deliberate choices, mirroring the observed behavior of the tool this
//! models: a failed registration never excludes an instance from heartbeat
//! scheduling (the fleet keeps provisioning and the instance is armed all
//! the same), and a failed heartbeat never stops the timer.

use vstd::prelude::*;
use crate::config::Config;
use crate::config::ConfigError;
use crate::config::ConfigV;
use crate::config::first_config_error;
use crate::config::spec_valid;
use crate::instance::InstanceV;
use crate::instance::MockInstance;
use crate::instance::heartbeat_request_of;
use crate::instance::register_request_of;
use crate::instance::service_name_v;
use crate::registry::AuthError;
use crate::registry::HeartbeatError;
use crate::registry::HeartbeatRequest;
use crate::registry::LoginInfo;
use crate::registry::LoginRequest;
use crate::registry::RegisterRequest;
use crate::registry::RegistrationError;
use crate::registry::login_request;
use crate::registry::login_request_v;

verus! {

/// Where a run stands.
#[derive(Clone, Copy, Debug, PartialEq, Eq, Structural)]
pub enum Phase {
    /// Constructed; nothing has happened yet.
    Created,
    /// The shared login call is in flight.
    LoggingIn,
    /// Registrations are being issued one by one.
    Provisioning,
    /// All instances armed; heartbeats tick until cancellation.
    Running,
    /// Login failed; the run is over and nothing more is issued.
    Aborted,
    /// Cancelled from outside; nothing more is issued.
    Stopped,
}

/// What the scheduler learns from outside.
pub enum Event {
    /// The run begins.
    Started,
    /// The login call came back with a token.
    LoginSucceeded(LoginInfo),
    /// The login call failed; fatal for the run.
    LoginFailed(AuthError),
    /// The registration call in flight finished, well or badly.
    RegisterFinished(Result<(), RegistrationError>),
    /// The heartbeat timer of the instance at this index fired.
    HeartbeatTick(usize),
    /// A heartbeat call for the instance at this index finished.
    HeartbeatFinished(usize, Result<(), HeartbeatError>),
    /// The external cancellation signal arrived.
    CancelRequested,
}

/// What the scheduler asks the outside to do next.
pub enum Action {
    /// Send this login call and report the outcome.
    SendLogin(LoginRequest),
    /// Send this registration call and report the outcome.
    SendRegister(RegisterRequest),
    /// Send this heartbeat call and report the outcome.
    SendHeartbeat(HeartbeatRequest),
    /// Tear the run down: login failed.
    Abort,
    /// Nothing to do right now.
    Idle,
}

/// The mathematical value of a [`FleetScheduler`].
#[verifier::ext_equal]
pub ghost struct SchedV {
    pub config: ConfigV,
    pub phase: Phase,
    pub token: Seq<char>,
    pub instances: Seq<InstanceV>,
    pub reg_index: int,
}

/// The values of a sequence of instances.
pub open spec fn insts_view(s: Seq<MockInstance>) -> Seq<InstanceV> {
    s.map_values(|m: MockInstance| m@)
}

/// The credential, or the empty string where none is configured.
pub open spec fn some_or_empty(o: Option<Seq<char>>) -> Seq<char> {
    match o {
        Some(s) => s,
        None => Seq::empty(),
    }
}

/// The fleet derived from a configuration and the shared token: one
/// instance per offset, offsets running from `num` down to `1`, so the
/// instance built `k`-th owns port `port + num - k`.
pub open spec fn instances_built(c: ConfigV, token: Seq<char>) -> Seq<InstanceV> {
    Seq::new(
        c.num as nat,
        |k: int|
            InstanceV {
                nacos: c.nacos,
                port: (c.port + c.num - k) as u32,
                service_name: service_name_v((c.port + c.num - k) as u32),
                token,
            },
    )
}

/// A freshly constructed scheduler.
pub open spec fn initial_v(c: ConfigV) -> SchedV {
    SchedV {
        config: c,
        phase: Phase::Created,
        token: Seq::empty(),
        instances: Seq::empty(),
        reg_index: 0,
    }
}

/// The state after the token is settled: the fleet is built, and the run is
/// either provisioning it or — for an empty fleet — already running with
/// zero armed timers.
pub open spec fn provisioned(s: SchedV) -> SchedV {
    SchedV {
        phase: if s.config.num == 0 {
            Phase::Running
        } else {
            Phase::Provisioning
        },
        instances: instances_built(s.config, s.token),
        reg_index: 0,
        ..s
    }
}

/// The transition relation: the state after `e` arrives in state `s`.
pub open spec fn next_state(s: SchedV, e: Event) -> SchedV {
    match e {
        Event::Started => {
            if s.phase is Created {
                if s.config.username is Some {
                    SchedV { phase: Phase::LoggingIn, ..s }
                } else {
                    provisioned(s)
                }
            } else {
                s
            }
        },
        Event::LoginSucceeded(info) => {
            if s.phase is LoggingIn {
                provisioned(SchedV { token: info.access_token@, ..s })
            } else {
                s
            }
        },
        Event::LoginFailed(_) => {
            if s.phase is LoggingIn {
                SchedV { phase: Phase::Aborted, ..s }
            } else {
                s
            }
        },
        Event::RegisterFinished(_) => {
            if s.phase is Provisioning {
                if s.reg_index + 1 < s.instances.len() {
                    SchedV { reg_index: s.reg_index + 1, ..s }
                } else {
                    SchedV { phase: Phase::Running, reg_index: s.reg_index + 1, ..s }
                }
            } else {
                s
            }
        },
        Event::HeartbeatTick(_) => s,
        Event::HeartbeatFinished(_, _) => s,
        Event::CancelRequested => {
            if s.phase is Aborted {
                s
            } else {
                SchedV { phase: Phase::Stopped, ..s }
            }
        },
    }
}

/// Whether `e` in state `s` makes the scheduler emit a registration or
/// heartbeat request.
pub open spec fn emits_request(s: SchedV, e: Event) -> bool {
    match e {
        Event::Started => s.phase is Created && s.config.username is None && s.config.num > 0,
        Event::LoginSucceeded(_) => s.phase is LoggingIn && s.config.num > 0,
        Event::RegisterFinished(_) => s.phase is Provisioning && s.reg_index + 1 < s.instances.len(),
        Event::HeartbeatTick(i) => s.phase is Running && i < s.instances.len(),
        _ => false,
    }
}

/// Whether `e` in state `s` makes the scheduler emit the login call.
pub open spec fn sends_login(s: SchedV, e: Event) -> bool {
    s.phase is Created && e is Started && s.config.username is Some
}

/// Whether `e` in state `s` aborts the run.
pub open spec fn aborts(s: SchedV, e: Event) -> bool {
    s.phase is LoggingIn && e is LoginFailed
}

/// A phase from which nothing is ever issued again.
pub open spec fn quiescent(p: Phase) -> bool {
    p is Aborted || p is Stopped
}

/// The state after a whole sequence of events.
pub open spec fn run_events(s: SchedV, es: Seq<Event>) -> SchedV
    decreases es.len(),
{
    if es.len() == 0 {
        s
    } else {
        run_events(next_state(s, es[0]), es.drop_first())
    }
}

/// No event of `es`, arriving in turn from `s`, emits a registration or
/// heartbeat request.
pub open spec fn trace_quiet(s: SchedV, es: Seq<Event>) -> bool
    decreases es.len(),
{
    es.len() == 0 || (!emits_request(s, es[0]) && trace_quiet(next_state(s, es[0]), es.drop_first()))
}

/// Builds the fleet for a validated configuration: exactly `num` instances,
/// ports `port + num` down to `port + 1`, all sharing `token`.
pub fn provision(config: &Config, token: &String) -> (v: Vec<MockInstance>)
    requires
        spec_valid(config@),
    ensures
        v@.len() == config@.num,
        insts_view(v@) == instances_built(config@, token@),
{
    let mut v: Vec<MockInstance> = Vec::new();
    let mut offset: u32 = config.num;
    while offset > 0
        invariant
            offset <= config@.num,
            spec_valid(config@),
            v@.len() == config@.num - offset,
            forall|j: int|
                0 <= j < v@.len() ==> (#[trigger] v@[j])@ == instances_built(config@, token@)[j],
        decreases offset,
    {
        let port = config.port + offset;
        v.push(MockInstance::new(config.nacos.clone(), port, token.clone()));
        offset = offset - 1;
    }
    proof {
        assert(insts_view(v@) =~= instances_built(config@, token@));
    }
    v
}

/// The lifecycle manager of one run.  Owns the configuration, the shared
/// token, the fleet and the progress of provisioning; every decision the
/// run takes goes through [`FleetScheduler::step`].
pub struct FleetScheduler {
    pub config: Config,
    pub phase: Phase,
    pub token: String,
    pub instances: Vec<MockInstance>,
    pub reg_index: usize,
}

impl View for FleetScheduler {
    type V = SchedV;

    open spec fn view(&self) -> SchedV {
        SchedV {
            config: self.config@,
            phase: self.phase,
            token: self.token@,
            instances: insts_view(self.instances@),
            reg_index: self.reg_index as int,
        }
    }
}

impl FleetScheduler {
    /// The scheduler's internal consistency: its configuration was accepted,
    /// and while provisioning, the index of the registration in flight is in
    /// range.
    pub open spec fn wf(&self) -> bool {
        &&& spec_valid(self@.config)
        &&& self@.phase is Provisioning ==> self@.reg_index < self@.instances.len()
    }

    /// Accepts exactly the valid configurations, rejecting the rest with
    /// the first configuration error, before any network activity exists to
    /// attempt.
    pub fn new(config: Config) -> (r: Result<FleetScheduler, ConfigError>)
        ensures
            r is Ok <==> spec_valid(config@),
            r matches Err(e) ==> Some(e) == first_config_error(config@),
            r matches Ok(s) ==> s.wf() && s@ == initial_v(config@),
    {
        match config.validate() {
            Ok(_) => {
                let s = FleetScheduler {
                    config,
                    phase: Phase::Created,
                    token: String::new(),
                    instances: Vec::new(),
                    reg_index: 0,
                };
                proof {
                    assert(s@ =~= initial_v(s.config@));
                }
                Ok(s)
            },
            Err(e) => Err(e),
        }
    }

    /// Builds and arms the fleet once the token is settled, and issues the
    /// first registration — or nothing, for an empty fleet.
    fn arm_fleet(&mut self) -> (a: Action)
        requires
            spec_valid(old(self)@.config),
        ensures
            final(self).wf(),
            final(self)@ == provisioned(old(self)@),
            (a matches Action::SendRegister(_)) == (old(self)@.config.num > 0),
            a matches Action::SendRegister(r) ==> r@ == register_request_of(
                instances_built(old(self)@.config, old(self)@.token)[0],
            ),
            a is Idle <==> old(self)@.config.num == 0,
    {
        let v = provision(&self.config, &self.token);
        self.instances = v;
        self.reg_index = 0;
        if self.config.num == 0 {
            self.phase = Phase::Running;
            proof {
                assert(self@ =~= provisioned(old(self)@));
            }
            Action::Idle
        } else {
            self.phase = Phase::Provisioning;
            let r = self.instances[0].register_request();
            proof {
                assert(self@ =~= provisioned(old(self)@));
            }
            Action::SendRegister(r)
        }
    }

    /// Takes one event and answers with the run's next action.  The new
    /// state is exactly `next_state`, and each kind of action is emitted
    /// precisely when its predicate says so, carrying exactly the request
    /// the specifications describe.
    pub fn step(&mut self, e: Event) -> (a: Action)
        requires
            old(self).wf(),
        ensures
            final(self).wf(),
            final(self)@ == next_state(old(self)@, e),
            (a matches Action::SendLogin(_)) == sends_login(old(self)@, e),
            (a matches Action::Abort) == aborts(old(self)@, e),
            (a matches Action::SendRegister(_) || a matches Action::SendHeartbeat(_))
                == emits_request(old(self)@, e),
            a matches Action::SendLogin(r) ==> r@ == login_request_v(
                old(self)@.config.nacos,
                some_or_empty(old(self)@.config.username),
                some_or_empty(old(self)@.config.password),
            ),
            a matches Action::SendRegister(r) ==> ({
                let s1 = next_state(old(self)@, e);
                r@ == register_request_of(s1.instances[s1.reg_index])
            }),
            a matches Action::SendHeartbeat(r) ==> (e matches Event::HeartbeatTick(i)
                && r@ == heartbeat_request_of(old(self)@.instances[i as int])),
    {
        match e {
            Event::Started => {
                if self.phase == Phase::Created {
                    if self.config.username.is_some() {
                        self.phase = Phase::LoggingIn;
                        let r = login_request(
                            &self.config.nacos,
                            self.config.username.as_ref().unwrap(),
                            self.config.password.as_ref().unwrap(),
                        );
                        Action::SendLogin(r)
                    } else {
                        self.arm_fleet()
                    }
                } else {
                    Action::Idle
                }
            },
            Event::LoginSucceeded(info) => {
                if self.phase == Phase::LoggingIn {
                    self.token = info.access_token;
                    self.arm_fleet()
                } else {
                    Action::Idle
                }
            },
            Event::LoginFailed(_) => {
                if self.phase == Phase::LoggingIn {
                    self.phase = Phase::Aborted;
                    Action::Abort
                } else {
                    Action::Idle
                }
            },
            Event::RegisterFinished(_) => {
                if self.phase == Phase::Provisioning {
                    let n = self.instances.len();
                    proof {
                        assert(self@.instances.len() == n);
                    }
                    self.reg_index = self.reg_index + 1;
                    if self.reg_index < n {
                        Action::SendRegister(self.instances[self.reg_index].register_request())
                    } else {
                        self.phase = Phase::Running;
                        Action::Idle
                    }
                } else {
                    Action::Idle
                }
            },
            Event::HeartbeatTick(i) => {
                if self.phase == Phase::Running && i < self.instances.len() {
                    Action::SendHeartbeat(self.instances[i].heartbeat_request())
                } else {
                    Action::Idle
                }
            },
            Event::HeartbeatFinished(_, _) => Action::Idle,
            Event::CancelRequested => {
                if self.phase == Phase::Aborted {
                    Action::Idle
                } else {
                    self.phase = Phase::Stopped;
                    Action::Idle
                }
            },
        }
    }

    /// Where the run stands.
    pub fn phase(&self) -> (p: Phase)
        ensures
            p == self@.phase,
    {
        self.phase
    }

    /// The armed fleet.
    pub fn instances(&self) -> (v: &Vec<MockInstance>)
        ensures
            insts_view(v@) == self@.instances,
    {
        &self.instances
    }

    /// The shared token; empty until (and unless) a login succeeds.
    pub fn token(&self) -> (t: &String)
        ensures
            t@ == self@.token,
    {
        &self.token
    }
}

/// Law: the fleet of a valid configuration holds exactly `num` instances,
/// the one built `k`-th owning port `port + num - k` — so the ports are
/// precisely `port + 1 ..= port + num`, pairwise distinct — each carrying
/// the service name derived from its port and the one shared token.
pub proof fn lemma_fleet_shape(c: ConfigV, token: Seq<char>)
    requires
        spec_valid(c),
    ensures
        instances_built(c, token).len() == c.num,
        forall|k: int|
            0 <= k < c.num ==> (#[trigger] instances_built(c, token)[k]).port == c.port + c.num
                - k,
        forall|k: int|
            0 <= k < c.num ==> c.port < (#[trigger] instances_built(c, token)[k]).port <= c.port
                + c.num,
        forall|j: int, k: int|
            0 <= j < c.num && 0 <= k < c.num && j != k ==> (#[trigger] instances_built(
                c,
                token,
            )[j]).port != (#[trigger] instances_built(c, token)[k]).port,
        forall|k: int|
            0 <= k < c.num ==> (#[trigger] instances_built(c, token)[k]).service_name
                == service_name_v(instances_built(c, token)[k].port),
        forall|k: int|
            0 <= k < c.num ==> (#[trigger] instances_built(c, token)[k]).token == token
                && instances_built(c, token)[k].nacos == c.nacos,
{
}

/// From a quiescent phase, nothing is ever emitted again, whatever arrives.
pub proof fn lemma_quiescent_stays_quiet(s: SchedV, es: Seq<Event>)
    requires
        quiescent(s.phase),
    ensures
        trace_quiet(s, es),
        quiescent(run_events(s, es).phase),
    decreases es.len(),
{
    if es.len() > 0 {
        assert(quiescent(next_state(s, es[0]).phase));
        lemma_quiescent_stays_quiet(next_state(s, es[0]), es.drop_first());
    }
}

/// Law: once login has failed, no registration and no heartbeat call is
/// ever attempted — the failing event itself emits nothing, the run is
/// aborted, and every later event falls on quiet ears.
pub proof fn lemma_login_failure_blocks_requests(s: SchedV, err: AuthError, es: Seq<Event>)
    requires
        s.phase is LoggingIn,
    ensures
        !emits_request(s, Event::LoginFailed(err)),
        next_state(s, Event::LoginFailed(err)).phase is Aborted,
        trace_quiet(next_state(s, Event::LoginFailed(err)), es),
{
    lemma_quiescent_stays_quiet(next_state(s, Event::LoginFailed(err)), es);
}

/// Law: a registration outcome is never looked at — failure and success
/// leave the scheduler in the same state and emit the same way.
pub proof fn lemma_register_outcome_irrelevant(
    s: SchedV,
    o1: Result<(), RegistrationError>,
    o2: Result<(), RegistrationError>,
)
    ensures
        next_state(s, Event::RegisterFinished(o1)) == next_state(s, Event::RegisterFinished(o2)),
        emits_request(s, Event::RegisterFinished(o1)) == emits_request(
            s,
            Event::RegisterFinished(o2),
        ),
{
}

/// The events reporting one registration outcome after another.
pub open spec fn register_events(outcomes: Seq<Result<(), RegistrationError>>) -> Seq<Event> {
    Seq::new(outcomes.len(), |i: int| Event::RegisterFinished(outcomes[i]))
}

/// Law: however the registrations go — any mix of failures and successes —
/// provisioning runs to completion, the whole fleet stays armed, and every
/// instance's heartbeat tick then emits its request.
pub proof fn lemma_registration_failures_never_block(
    s: SchedV,
    outcomes: Seq<Result<(), RegistrationError>>,
)
    requires
        s.phase is Provisioning,
        0 <= s.reg_index < s.instances.len(),
        s.reg_index + outcomes.len() == s.instances.len(),
    ensures
        ({
            let t = run_events(s, register_events(outcomes));
            &&& t.phase is Running
            &&& t.instances == s.instances
            &&& t.config == s.config
            &&& t.token == s.token
            &&& forall|i: usize|
                i < t.instances.len() ==> emits_request(t, Event::HeartbeatTick(i))
        }),
    decreases outcomes.len(),
{
    let evs = register_events(outcomes);
    assert(evs[0] == Event::RegisterFinished(outcomes[0]));
    let s1 = next_state(s, evs[0]);
    assert(evs.drop_first() =~= register_events(outcomes.drop_first()));
    if s.reg_index + 1 < s.instances.len() {
        lemma_registration_failures_never_block(s1, outcomes.drop_first());
    } else {
        assert(evs.drop_first().len() == 0);
    }
}

/// Law: heartbeat outcomes and ticks never change the state — a failed
/// tick for one instance cannot affect its own next tick nor any other
/// instance's — and while running, every in-range tick emits its request.
pub proof fn lemma_heartbeat_failures_never_block(
    s: SchedV,
    i: usize,
    o: Result<(), HeartbeatError>,
    j: usize,
)
    ensures
        next_state(s, Event::HeartbeatFinished(i, o)) == s,
        next_state(s, Event::HeartbeatTick(j)) == s,
        emits_request(s, Event::HeartbeatTick(j)) == (s.phase is Running && j
            < s.instances.len()),
{
}

} // verus!
