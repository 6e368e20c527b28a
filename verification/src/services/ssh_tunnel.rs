//! Tunnels to the remote services: one forwarding process per service, and
//! the registry that hands out their local endpoints.
//!
//! The processes themselves belong to the caller. What is decided here is
//! what to do with them: each step takes what the caller observed and says
//! what to do next.

use vstd::prelude::*;
use crate::config::Config;
use crate::services::chain;
use crate::text::{decimal, push_decimal, str_eq, string_views};

verus! {

/// The first local port that the registry hands out.
pub const FIRST_LOCAL_PORT: u16 = 19000;

/// How long the registry waits for a new tunnel to become ready, in seconds.
pub const READY_TIMEOUT_SECS: u64 = 10;

/// How long to wait between two attempts to reach a new tunnel, and how long
/// a process is given to end by itself, in milliseconds.
pub const PAUSE_MILLIS: u64 = 100;

/// Where a tunnel stands in its life.
#[derive(Debug, Clone, Copy, PartialEq, Eq, Structural)]
pub enum TunnelState {
    /// The process was started; its port has not been reached yet.
    Starting,
    /// The local port was reached.
    Ready,
    /// The process has ended, or was ended. A dead tunnel stays dead.
    Dead,
}

/// Why no tunnel could be had.
#[derive(Debug, Clone, Copy, PartialEq, Eq)]
pub enum TunnelError {
    /// The forwarding process could not be started.
    Spawn,
    /// The forwarding process ended before its port could be reached.
    Died,
    /// The port could not be reached in time. Asking again may succeed.
    Timeout,
    /// No local port is left to hand out.
    PortsExhausted,
    /// Another request is under way.
    Busy,
}

/// What the caller is to do next.
#[derive(Debug, Clone, Copy, PartialEq, Eq)]
pub enum TunnelAction {
    /// Say whether the process of the tunnel on this local port still runs.
    CheckAlive { local_port: u16 },
    /// End the process of the tunnel on this local port and release it.
    Kill { local_port: u16 },
    /// Start a process that forwards the local port to the remote port.
    Spawn { local_port: u16, remote_port: u16 },
    /// Say how much time has passed since the process was started.
    ReadClock,
    /// Try to connect to the local port.
    Connect { local_port: u16 },
    /// Let the given time pass.
    Sleep { millis: u64 },
    /// Nothing: the event was not awaited.
    Nothing,
    /// The request is settled: the tunnel's local port, or why there is none.
    Finish(Result<u16, TunnelError>),
}

/// What the caller observed.
#[derive(Debug, Clone, Copy, PartialEq, Eq)]
pub enum TunnelEvent {
    /// Whether the process still runs.
    Alive(bool),
    /// Whether the process could be started.
    Spawned(bool),
    /// The time passed since the process was started.
    Elapsed { millis: u64 },
    /// Whether the local port could be connected to.
    Connected(bool),
    /// The pause is over.
    Slept,
    /// The process was ended and released.
    Killed,
}

/// Where the wait for a new tunnel stands.
#[derive(Debug, Clone, Copy, PartialEq, Eq)]
pub enum WaitPhase {
    /// The clock is being read.
    Timing,
    /// The process is being checked.
    Probing,
    /// A connection is being tried.
    Connecting,
    /// A pause is under way.
    Sleeping,
    /// The wait has failed and the process is being ended.
    Terminating(TunnelError),
    /// The wait is over.
    Finished,
}

/// One step of the wait for a new tunnel on `local_port`. While less than
/// `timeout_secs` have passed the process is checked and, if it runs, a
/// connection is tried; a connection ends the wait, a failed attempt is
/// followed by a pause. Once the time is up, or the process has ended, the
/// process is ended and released first, and only then the error is reported.
pub open spec fn wait_step(
    local_port: u16,
    timeout_secs: u64,
    phase: WaitPhase,
    event: TunnelEvent,
) -> (WaitPhase, TunnelAction) {
    match (phase, event) {
        (WaitPhase::Timing, TunnelEvent::Elapsed { millis }) => if millis / 1000 < timeout_secs {
            (WaitPhase::Probing, TunnelAction::CheckAlive { local_port })
        } else {
            (WaitPhase::Terminating(TunnelError::Timeout), TunnelAction::Kill { local_port })
        },
        (WaitPhase::Probing, TunnelEvent::Alive(true)) => (
            WaitPhase::Connecting,
            TunnelAction::Connect { local_port },
        ),
        (WaitPhase::Probing, TunnelEvent::Alive(false)) => (
            WaitPhase::Terminating(TunnelError::Died),
            TunnelAction::Kill { local_port },
        ),
        (WaitPhase::Connecting, TunnelEvent::Connected(true)) => (
            WaitPhase::Finished,
            TunnelAction::Finish(Ok(local_port)),
        ),
        (WaitPhase::Connecting, TunnelEvent::Connected(false)) => (
            WaitPhase::Sleeping,
            TunnelAction::Sleep { millis: PAUSE_MILLIS },
        ),
        (WaitPhase::Sleeping, TunnelEvent::Slept) => (WaitPhase::Timing, TunnelAction::ReadClock),
        (WaitPhase::Terminating(e), TunnelEvent::Killed) => (
            WaitPhase::Finished,
            TunnelAction::Finish(Err(e)),
        ),
        _ => (phase, TunnelAction::Nothing),
    }
}

/// The state of a tunnel after one step of the wait for it: ready once the
/// port was reached, dead once the wait has failed.
pub open spec fn state_after_wait(state: TunnelState, action: TunnelAction) -> TunnelState {
    match action {
        TunnelAction::Finish(Ok(_)) => if state == TunnelState::Dead {
            state
        } else {
            TunnelState::Ready
        },
        TunnelAction::Kill { .. } => TunnelState::Dead,
        _ => state,
    }
}

/// An error is reported only after the process was ended: a step reports
/// an error only on the news that the process was ended, a step that makes
/// the wait fail asks for the process to be ended, and when the time is up
/// the wait fails.
pub proof fn law_wait_ends_process_before_error(
    local_port: u16,
    timeout_secs: u64,
    phase: WaitPhase,
    event: TunnelEvent,
    millis: u64,
)
    ensures
        wait_step(local_port, timeout_secs, phase, event).1 matches TunnelAction::Finish(Err(e))
            ==> phase == WaitPhase::Terminating(e) && event == TunnelEvent::Killed,
        (wait_step(local_port, timeout_secs, phase, event).0 is Terminating && !(phase
            is Terminating)) ==> wait_step(local_port, timeout_secs, phase, event).1
            == (TunnelAction::Kill { local_port }),
        millis / 1000 >= timeout_secs ==> wait_step(
            local_port,
            timeout_secs,
            WaitPhase::Timing,
            TunnelEvent::Elapsed { millis },
        ) == (WaitPhase::Terminating(TunnelError::Timeout), TunnelAction::Kill { local_port }),
{
}

/// A step of ending a tunnel's process.
#[derive(Debug, Clone, Copy, PartialEq, Eq)]
pub enum KillStep {
    /// Ask the process to end.
    Terminate,
    /// Give it this long to do so, in milliseconds.
    Grace { millis: u64 },
    /// End it by force.
    ForceKill,
    /// Wait for it and release it.
    Reap,
}

/// The arguments of the forwarding command: no remote command, the local
/// port forwarded to the remote port on the remote machine itself, no
/// questions about host keys, keepalive probes, failure where the port
/// cannot be forwarded, the key if one is configured, and the user at the
/// remote host.
pub open spec fn forward_args(config: Config, remote_port: u16, local_port: u16) -> Seq<
    Seq<char>,
> {
    seq![
        "-N"@,
        "-L"@,
        decimal(local_port as nat) + ":localhost:"@ + decimal(remote_port as nat),
        "-o"@,
        "StrictHostKeyChecking=no"@,
        "-o"@,
        "UserKnownHostsFile=/dev/null"@,
        "-o"@,
        "ServerAliveInterval=30"@,
        "-o"@,
        "ServerAliveCountMax=3"@,
        "-o"@,
        "ExitOnForwardFailure=yes"@,
    ] + (match config.remote.ssh_key {
        Some(key) => seq!["-i"@, key@],
        None => Seq::<Seq<char>>::empty(),
    }) + seq![config.remote.user@ + "@"@ + config.remote.host@]
}

/// The local endpoint of a tunnel on `local_port`.
pub open spec fn local_url_of(local_port: u16) -> Seq<char> {
    "http://localhost:"@ + decimal(local_port as nat)
}

/// The local endpoint of a tunnel on `local_port`.
pub fn url_for(local_port: u16) -> (r: String)
    ensures
        r@ == local_url_of(local_port),
{
    let mut r = String::from_str("http://localhost:");
    push_decimal(&mut r, local_port as u64);
    r
}

/// One forwarded port: the local port, the port on the remote host that it
/// leads to, and where the forwarding process stands.
#[derive(Debug, Clone, PartialEq, Eq)]
pub struct SshTunnel {
    pub local_port: u16,
    pub remote_port: u16,
    pub remote_host: String,
    pub state: TunnelState,
}

impl SshTunnel {
    /// A tunnel whose process is about to be started.
    pub fn new(config: &Config, remote_port: u16, local_port: u16) -> (r: SshTunnel)
        ensures
            r.local_port == local_port,
            r.remote_port == remote_port,
            r.remote_host == config.remote.host,
            r.state == TunnelState::Starting,
    {
        SshTunnel {
            local_port,
            remote_port,
            remote_host: config.remote.host.clone(),
            state: TunnelState::Starting,
        }
    }

    /// The arguments with which to start the forwarding process.
    pub fn command_args(config: &Config, remote_port: u16, local_port: u16) -> (r: Vec<String>)
        ensures
            string_views(r@) == forward_args(*config, remote_port, local_port),
    {
        let mut forward = String::new();
        push_decimal(&mut forward, local_port as u64);
        forward.append(":localhost:");
        push_decimal(&mut forward, remote_port as u64);
        let mut target = chain(config.remote.user.as_str(), "@");
        target.append(config.remote.host.as_str());
        let mut r: Vec<String> = Vec::new();
        r.push(String::from_str("-N"));
        r.push(String::from_str("-L"));
        r.push(forward);
        r.push(String::from_str("-o"));
        r.push(String::from_str("StrictHostKeyChecking=no"));
        r.push(String::from_str("-o"));
        r.push(String::from_str("UserKnownHostsFile=/dev/null"));
        r.push(String::from_str("-o"));
        r.push(String::from_str("ServerAliveInterval=30"));
        r.push(String::from_str("-o"));
        r.push(String::from_str("ServerAliveCountMax=3"));
        r.push(String::from_str("-o"));
        r.push(String::from_str("ExitOnForwardFailure=yes"));
        match &config.remote.ssh_key {
            Some(key) => {
                r.push(String::from_str("-i"));
                r.push(key.clone());
            },
            None => {},
        }
        r.push(target);
        assert(string_views(r@) =~= forward_args(*config, remote_port, local_port));
        r
    }

    /// The local endpoint URL.
    pub fn local_url(&self) -> (r: String)
        ensures
            r@ == local_url_of(self.local_port),
    {
        url_for(self.local_port)
    }

    /// Whether the tunnel is alive, given whether its process still runs. A
    /// tunnel whose process was once seen ended is dead for good.
    pub fn is_alive(&mut self, running: bool) -> (r: bool)
        ensures
            r == (running && old(self).state != TunnelState::Dead),
            final(self).state == (if r {
                old(self).state
            } else {
                TunnelState::Dead
            }),
            final(self).local_port == old(self).local_port,
            final(self).remote_port == old(self).remote_port,
            final(self).remote_host == old(self).remote_host,
    {
        if running && self.state != TunnelState::Dead {
            true
        } else {
            self.state = TunnelState::Dead;
            false
        }
    }

    /// One step of the wait for the tunnel to become ready.
    pub fn wait_ready(&mut self, timeout_secs: u64, phase: WaitPhase, event: TunnelEvent) -> (r: (
        WaitPhase,
        TunnelAction,
    ))
        ensures
            r == wait_step(old(self).local_port, timeout_secs, phase, event),
            final(self).state == state_after_wait(old(self).state, r.1),
            final(self).local_port == old(self).local_port,
            final(self).remote_port == old(self).remote_port,
            final(self).remote_host == old(self).remote_host,
    {
        let r = next_wait_step(self.local_port, timeout_secs, phase, event);
        match r.1 {
            TunnelAction::Finish(Ok(_)) => {
                if self.state != TunnelState::Dead {
                    self.state = TunnelState::Ready;
                }
            },
            TunnelAction::Kill { .. } => {
                self.state = TunnelState::Dead;
            },
            _ => {},
        }
        r
    }

    /// What to do to end the tunnel's process: ask it to end, give it a
    /// moment, end it by force, and wait for it. The tunnel is dead from
    /// then on.
    pub fn kill(&mut self) -> (r: Vec<KillStep>)
        ensures
            r@ == seq![
                KillStep::Terminate,
                KillStep::Grace { millis: PAUSE_MILLIS },
                KillStep::ForceKill,
                KillStep::Reap,
            ],
            final(self).state == TunnelState::Dead,
            final(self).local_port == old(self).local_port,
            final(self).remote_port == old(self).remote_port,
            final(self).remote_host == old(self).remote_host,
    {
        self.state = TunnelState::Dead;
        let mut r: Vec<KillStep> = Vec::new();
        r.push(KillStep::Terminate);
        r.push(KillStep::Grace { millis: PAUSE_MILLIS });
        r.push(KillStep::ForceKill);
        r.push(KillStep::Reap);
        assert(r@ =~= seq![
            KillStep::Terminate,
            KillStep::Grace { millis: PAUSE_MILLIS },
            KillStep::ForceKill,
            KillStep::Reap,
        ]);
        r
    }
}

/// One step of the wait for a new tunnel on `local_port`.
pub fn next_wait_step(
    local_port: u16,
    timeout_secs: u64,
    phase: WaitPhase,
    event: TunnelEvent,
) -> (r: (WaitPhase, TunnelAction))
    ensures
        r == wait_step(local_port, timeout_secs, phase, event),
{
    match (phase, event) {
        (WaitPhase::Timing, TunnelEvent::Elapsed { millis }) => if millis / 1000 < timeout_secs {
            (WaitPhase::Probing, TunnelAction::CheckAlive { local_port })
        } else {
            (WaitPhase::Terminating(TunnelError::Timeout), TunnelAction::Kill { local_port })
        },
        (WaitPhase::Probing, TunnelEvent::Alive(true)) => (
            WaitPhase::Connecting,
            TunnelAction::Connect { local_port },
        ),
        (WaitPhase::Probing, TunnelEvent::Alive(false)) => (
            WaitPhase::Terminating(TunnelError::Died),
            TunnelAction::Kill { local_port },
        ),
        (WaitPhase::Connecting, TunnelEvent::Connected(true)) => (
            WaitPhase::Finished,
            TunnelAction::Finish(Ok(local_port)),
        ),
        (WaitPhase::Connecting, TunnelEvent::Connected(false)) => (
            WaitPhase::Sleeping,
            TunnelAction::Sleep { millis: PAUSE_MILLIS },
        ),
        (WaitPhase::Sleeping, TunnelEvent::Slept) => (WaitPhase::Timing, TunnelAction::ReadClock),
        (WaitPhase::Terminating(e), TunnelEvent::Killed) => (
            WaitPhase::Finished,
            TunnelAction::Finish(Err(e)),
        ),
        _ => (phase, TunnelAction::Nothing),
    }
}

/// A tunnel that the registry tracks, under the name of its service.
#[derive(Debug, Clone, PartialEq, Eq)]
pub struct TunnelRecord {
    pub name: String,
    pub tunnel: SshTunnel,
}

/// What the registry knows of a tracked tunnel.
pub struct TrackedTunnel {
    pub name: Seq<char>,
    pub local_port: u16,
    pub remote_port: u16,
    pub state: TunnelState,
}

impl View for TunnelRecord {
    type V = TrackedTunnel;

    open spec fn view(&self) -> TrackedTunnel {
        TrackedTunnel {
            name: self.name@,
            local_port: self.tunnel.local_port,
            remote_port: self.tunnel.remote_port,
            state: self.tunnel.state,
        }
    }
}

/// Where a request for a tunnel stands.
#[derive(Debug, Clone, Copy, PartialEq, Eq)]
pub enum RequestPhase {
    /// The tracked tunnel of that name is being checked.
    Checking,
    /// The tracked tunnel was found dead and its process is being released.
    Discarding,
    /// A new process is being started.
    Spawning,
    /// The new tunnel is being waited for.
    Waiting(WaitPhase),
}

/// The request for a tunnel that is under way.
#[derive(Debug, Clone, PartialEq, Eq)]
pub struct PendingRequest {
    pub name: String,
    pub local_port: u16,
    pub remote_port: u16,
    pub phase: RequestPhase,
}

/// What the registry knows of the request under way.
pub struct PendingTunnel {
    pub name: Seq<char>,
    pub local_port: u16,
    pub remote_port: u16,
    pub phase: RequestPhase,
}

impl View for PendingRequest {
    type V = PendingTunnel;

    open spec fn view(&self) -> PendingTunnel {
        PendingTunnel {
            name: self.name@,
            local_port: self.local_port,
            remote_port: self.remote_port,
            phase: self.phase,
        }
    }
}

/// The registry of tunnels as a plain value: the tracked tunnels, the next
/// local port to hand out, and the request under way if there is one.
pub struct Registry {
    pub tunnels: Seq<TrackedTunnel>,
    pub next_local_port: u16,
    pub pending: Option<PendingTunnel>,
}

/// The position of the first tunnel of the given name at or after `i`.
pub open spec fn position_from(tunnels: Seq<TrackedTunnel>, name: Seq<char>, i: int) -> Option<
    int,
>
    decreases tunnels.len() - i,
{
    if i < 0 || i >= tunnels.len() {
        None
    } else if tunnels[i].name == name {
        Some(i)
    } else {
        position_from(tunnels, name, i + 1)
    }
}

/// What `position_from` finds has the name, and nothing before it has.
pub proof fn lemma_position_from(tunnels: Seq<TrackedTunnel>, name: Seq<char>, i: int)
    requires
        0 <= i,
    ensures
        match position_from(tunnels, name, i) {
            Some(k) => i <= k < tunnels.len() && tunnels[k].name == name && forall|j: int|
                i <= j < k ==> tunnels[j].name != name,
            None => forall|j: int| i <= j < tunnels.len() ==> tunnels[j].name != name,
        },
    decreases tunnels.len() - i,
{
    if i < tunnels.len() && tunnels[i].name != name {
        lemma_position_from(tunnels, name, i + 1);
    }
}

impl Registry {
    /// The position of the tunnel of the given name.
    pub open spec fn position(self, name: Seq<char>) -> Option<int> {
        position_from(self.tunnels, name, 0)
    }

    /// The local port of the tunnel tracked under the given name.
    pub open spec fn port_of(self, name: Seq<char>) -> Option<u16> {
        match self.position(name) {
            Some(i) => Some(self.tunnels[i].local_port),
            None => None,
        }
    }

    /// The tracked tunnels without the one of the given name.
    pub open spec fn without(self, name: Seq<char>) -> Seq<TrackedTunnel> {
        match self.position(name) {
            Some(i) => self.tunnels.remove(i),
            None => self.tunnels,
        }
    }

    /// Every local port below `next_local_port` is spoken for: no service is
    /// tracked twice, no local port is used twice, and every port in use,
    /// that of a new tunnel under way included, was handed out before.
    pub open spec fn wf(self) -> bool {
        &&& FIRST_LOCAL_PORT <= self.next_local_port
        &&& forall|i: int, j: int|
            0 <= i < j < self.tunnels.len() ==> self.tunnels[i].name != self.tunnels[j].name
        &&& forall|i: int, j: int|
            0 <= i < j < self.tunnels.len() ==> self.tunnels[i].local_port
                != self.tunnels[j].local_port
        &&& forall|i: int|
            0 <= i < self.tunnels.len() ==> FIRST_LOCAL_PORT <= (
            #[trigger] self.tunnels[i]).local_port < self.next_local_port
        &&& match self.pending {
            Some(p) => (p.phase is Spawning || p.phase is Waiting) ==> {
                &&& FIRST_LOCAL_PORT <= p.local_port < self.next_local_port
                &&& forall|i: int|
                    0 <= i < self.tunnels.len() ==> (#[trigger] self.tunnels[i]).local_port
                        != p.local_port
            },
            None => true,
        }
    }

    /// Hands out the next local port for a new tunnel and asks for its
    /// process to be started; fails where no port is left.
    pub open spec fn allocate(self, name: Seq<char>, remote_port: u16) -> (Registry, TunnelAction) {
        if self.next_local_port == u16::MAX {
            (
                Registry { pending: None, ..self },
                TunnelAction::Finish(Err(TunnelError::PortsExhausted)),
            )
        } else {
            (
                Registry {
                    next_local_port: (self.next_local_port + 1) as u16,
                    pending: Some(
                        PendingTunnel {
                            name,
                            local_port: self.next_local_port,
                            remote_port,
                            phase: RequestPhase::Spawning,
                        },
                    ),
                    ..self
                },
                TunnelAction::Spawn { local_port: self.next_local_port, remote_port },
            )
        }
    }

    /// The beginning of a request for the tunnel of a service. While another
    /// request is under way the request is turned down and nothing changes.
    /// A tracked tunnel is checked first; for a service that is not tracked
    /// a new tunnel is begun.
    pub open spec fn begin(self, name: Seq<char>, remote_port: u16) -> (Registry, TunnelAction) {
        if self.pending is Some {
            (self, TunnelAction::Finish(Err(TunnelError::Busy)))
        } else {
            match self.position(name) {
                Some(i) => (
                    Registry {
                        pending: Some(
                            PendingTunnel {
                                name,
                                local_port: self.tunnels[i].local_port,
                                remote_port,
                                phase: RequestPhase::Checking,
                            },
                        ),
                        ..self
                    },
                    TunnelAction::CheckAlive { local_port: self.tunnels[i].local_port },
                ),
                None => self.allocate(name, remote_port),
            }
        }
    }

    /// One step of the request under way. A tracked tunnel that is alive is
    /// handed out as it is. One that is dead is dropped from the registry,
    /// its process is released, and a new tunnel is begun. A new tunnel is
    /// tracked, and handed out, only once its port was reached; if it cannot
    /// be started or does not become ready it is not tracked. An event that
    /// is not awaited changes nothing.
    pub open spec fn step(self, event: TunnelEvent) -> (Registry, TunnelAction) {
        match self.pending {
            None => (self, TunnelAction::Nothing),
            Some(p) => match (p.phase, event) {
                (RequestPhase::Checking, TunnelEvent::Alive(true)) => (
                    Registry { pending: None, ..self },
                    TunnelAction::Finish(Ok(p.local_port)),
                ),
                (RequestPhase::Checking, TunnelEvent::Alive(false)) => (
                    Registry {
                        tunnels: self.without(p.name),
                        pending: Some(PendingTunnel { phase: RequestPhase::Discarding, ..p }),
                        ..self
                    },
                    TunnelAction::Kill { local_port: p.local_port },
                ),
                (RequestPhase::Discarding, TunnelEvent::Killed) => self.allocate(
                    p.name,
                    p.remote_port,
                ),
                (RequestPhase::Spawning, TunnelEvent::Spawned(true)) => (
                    Registry {
                        pending: Some(
                            PendingTunnel {
                                phase: RequestPhase::Waiting(WaitPhase::Timing),
                                ..p
                            },
                        ),
                        ..self
                    },
                    TunnelAction::ReadClock,
                ),
                (RequestPhase::Spawning, TunnelEvent::Spawned(false)) => (
                    Registry { pending: None, ..self },
                    TunnelAction::Finish(Err(TunnelError::Spawn)),
                ),
                (RequestPhase::Waiting(phase), _) => {
                    let (next, action) = wait_step(p.local_port, READY_TIMEOUT_SECS, phase, event);
                    match action {
                        TunnelAction::Finish(Ok(_)) => (
                            Registry {
                                tunnels: self.without(p.name).push(
                                    TrackedTunnel {
                                        name: p.name,
                                        local_port: p.local_port,
                                        remote_port: p.remote_port,
                                        state: TunnelState::Ready,
                                    },
                                ),
                                pending: None,
                                ..self
                            },
                            action,
                        ),
                        TunnelAction::Finish(Err(_)) => (
                            Registry { pending: None, ..self },
                            action,
                        ),
                        _ => (
                            Registry {
                                pending: Some(
                                    PendingTunnel { phase: RequestPhase::Waiting(next), ..p },
                                ),
                                ..self
                            },
                            action,
                        ),
                    }
                },
                _ => (self, TunnelAction::Nothing),
            },
        }
    }

    /// The registry after it has taken in a run of events, one after the
    /// other.
    pub open spec fn after_events(self, events: Seq<TunnelEvent>) -> Registry
        decreases events.len(),
    {
        if events.len() == 0 {
            self
        } else {
            self.after_events(events.drop_last()).step(events.last()).0
        }
    }

    /// A new tunnel is under way: its process was asked for.
    pub open spec fn creating(self) -> bool {
        self.pending matches Some(p) && (p.phase is Spawning || p.phase is Waiting)
    }

    /// Dropping a tunnel keeps the registry in order.
    pub proof fn lemma_without_wf(self, name: Seq<char>)
        requires
            self.wf(),
        ensures
            (Registry { tunnels: self.without(name), ..self }).wf(),
            (Registry { tunnels: self.without(name), ..self }).position(name) is None,
            forall|k: int|
                0 <= k < self.without(name).len() ==> exists|i: int|
                    0 <= i < self.tunnels.len() && self.tunnels[i] == #[trigger] self.without(
                        name,
                    )[k],
    {
        lemma_position_from(self.tunnels, name, 0);
        let rest = self.without(name);
        match self.position(name) {
            Some(at) => {
                assert forall|k: int| 0 <= k < rest.len() implies rest[k] == self.tunnels[if k
                    < at {
                    k
                } else {
                    k + 1
                }] by {}
                assert forall|k: int| 0 <= k < rest.len() implies rest[k].name != name by {
                    let src = if k < at {
                        k
                    } else {
                        k + 1
                    };
                    assert(rest[k] == self.tunnels[src]);
                    if src > at {
                        assert(self.tunnels[at].name != self.tunnels[src].name);
                    }
                }
            },
            None => {},
        }
        lemma_position_from(rest, name, 0);
    }

    /// Beginning a request keeps the registry in order.
    pub proof fn lemma_begin_wf(self, name: Seq<char>, remote_port: u16)
        requires
            self.wf(),
        ensures
            self.begin(name, remote_port).0.wf(),
    {
    }

    /// Tracking the new tunnel of the request under way keeps the registry
    /// in order.
    pub proof fn lemma_register_wf(self, p: PendingTunnel)
        requires
            self.wf(),
            self.pending == Some(p),
            p.phase is Waiting,
        ensures
            (Registry {
                tunnels: self.without(p.name).push(
                    TrackedTunnel {
                        name: p.name,
                        local_port: p.local_port,
                        remote_port: p.remote_port,
                        state: TunnelState::Ready,
                    },
                ),
                pending: None,
                ..self
            }).wf(),
    {
        self.lemma_without_wf(p.name);
        let rest = self.without(p.name);
        let record = TrackedTunnel {
            name: p.name,
            local_port: p.local_port,
            remote_port: p.remote_port,
            state: TunnelState::Ready,
        };
        let all = rest.push(record);
        lemma_position_from(rest, p.name, 0);
        assert forall|i: int| 0 <= i < rest.len() implies rest[i].local_port != p.local_port
            && rest[i].name != p.name && FIRST_LOCAL_PORT <= rest[i].local_port
            < self.next_local_port by {
            let k = choose|k: int| 0 <= k < self.tunnels.len() && self.tunnels[k] == rest[i];
            assert(self.tunnels[k].local_port != p.local_port);
        }
        assert forall|i: int, j: int| 0 <= i < j < all.len() implies all[i].name != all[j].name
            && all[i].local_port != all[j].local_port by {
            if j < rest.len() {
                assert(all[i] == rest[i] && all[j] == rest[j]);
            } else {
                assert(all[i] == rest[i]);
            }
        }
        assert forall|i: int| 0 <= i < all.len() implies FIRST_LOCAL_PORT <= (
        #[trigger] all[i]).local_port < self.next_local_port by {
            if i < rest.len() {
                assert(all[i] == rest[i]);
            }
        }
    }

    /// A step keeps the registry in order.
    pub proof fn lemma_step_wf(self, event: TunnelEvent)
        requires
            self.wf(),
        ensures
            self.step(event).0.wf(),
    {
        match self.pending {
            Some(p) => {
                match p.phase {
                    RequestPhase::Checking => {
                        self.lemma_without_wf(p.name);
                    },
                    RequestPhase::Waiting(phase) => {
                        if wait_step(p.local_port, READY_TIMEOUT_SECS, phase, event).1
                            matches TunnelAction::Finish(Ok(_)) {
                            self.lemma_register_wf(p);
                        }
                    },
                    _ => {},
                }
            },
            None => {},
        }
    }
}

impl Registry {
    /// No request is under way, or the one under way has asked for its
    /// process already.
    pub open spec fn past_spawn(self) -> bool {
        self.pending is None || self.creating()
    }

    /// Once the process of a request was asked for, no step asks for
    /// another.
    pub proof fn lemma_no_second_spawn(self, events: Seq<TunnelEvent>, next: TunnelEvent)
        requires
            self.past_spawn(),
        ensures
            self.after_events(events).past_spawn(),
            !(self.after_events(events).step(next).1 is Spawn),
        decreases events.len(),
    {
        if events.len() > 0 {
            self.lemma_no_second_spawn(events.drop_last(), events.last());
        }
    }

    /// A service that is not tracked gets exactly one new process. While
    /// local ports remain, the request begins by asking for a process on a
    /// port that no tracked tunnel uses; a second request made before the
    /// first is settled is turned down and changes nothing; and whatever is
    /// observed afterwards, no step asks for another process.
    pub proof fn law_one_process_per_request(
        self,
        name: Seq<char>,
        remote_port: u16,
        other: Seq<char>,
        other_port: u16,
        events: Seq<TunnelEvent>,
        next: TunnelEvent,
    )
        requires
            self.wf(),
            self.pending is None,
            self.position(name) is None,
        ensures
            self.next_local_port < u16::MAX ==> {
                &&& self.begin(name, remote_port).1 == (TunnelAction::Spawn {
                    local_port: self.next_local_port,
                    remote_port,
                })
                &&& forall|i: int|
                    0 <= i < self.tunnels.len() ==> (#[trigger] self.tunnels[i]).local_port
                        != self.next_local_port
                &&& self.begin(name, remote_port).0.begin(other, other_port) == (
                    self.begin(name, remote_port).0,
                    TunnelAction::Finish(Err(TunnelError::Busy)),
                )
            },
            !(self.begin(name, remote_port).0.after_events(events).step(next).1 is Spawn),
    {
        self.begin(name, remote_port).0.lemma_no_second_spawn(events, next);
    }

    /// Local ports are handed out in rising order and never twice: the next
    /// port to hand out never falls, and a process is only ever asked for on
    /// the port that was next, which no tracked tunnel uses and which is
    /// spent by the asking.
    pub proof fn law_ports_are_never_reused(
        self,
        name: Seq<char>,
        remote_port: u16,
        event: TunnelEvent,
    )
        requires
            self.wf(),
        ensures
            self.begin(name, remote_port).0.next_local_port >= self.next_local_port,
            self.step(event).0.next_local_port >= self.next_local_port,
            self.begin(name, remote_port).1 matches TunnelAction::Spawn { local_port, .. }
                ==> local_port == self.next_local_port && self.begin(
                name,
                remote_port,
            ).0.next_local_port == local_port + 1 && forall|i: int|
                0 <= i < self.tunnels.len() ==> (#[trigger] self.tunnels[i]).local_port
                    != local_port,
            self.step(event).1 matches TunnelAction::Spawn { local_port, .. } ==> local_port
                == self.next_local_port && self.step(event).0.next_local_port == local_port + 1
                && forall|i: int|
                0 <= i < self.tunnels.len() ==> (#[trigger] self.tunnels[i]).local_port
                    != local_port,
    {
    }

    /// A new tunnel that does not become ready is given up only after its
    /// process was ended: a step settles the request with the news that the
    /// process died or that the time is up only when it was waiting for the
    /// process to be ended and takes in that it was.
    pub proof fn law_process_ends_before_failure(self, event: TunnelEvent, e: TunnelError)
        requires
            self.step(event).1 == TunnelAction::Finish(Err(e)),
            e == TunnelError::Timeout || e == TunnelError::Died,
        ensures
            event == TunnelEvent::Killed,
            self.pending matches Some(p) && p.phase == RequestPhase::Waiting(
                WaitPhase::Terminating(e),
            ),
            self.step(event).0.pending is None,
    {
    }

    /// A tracked tunnel that is alive is handed out as it is; one whose
    /// process has ended is replaced, not reused. The request begins by
    /// checking the tracked tunnel. If it is alive its port is the answer
    /// and the registry is as before. If it is dead it is dropped, its
    /// process is released, and then, while local ports remain, a process is
    /// asked for on a port that the dead tunnel did not have.
    pub proof fn law_dead_tunnel_is_replaced(self, name: Seq<char>, remote_port: u16)
        requires
            self.wf(),
            self.pending is None,
            self.position(name) is Some,
        ensures
            ({
                let port = self.port_of(name)->0;
                let checking = self.begin(name, remote_port);
                let reused = checking.0.step(TunnelEvent::Alive(true));
                let dropped = checking.0.step(TunnelEvent::Alive(false));
                let replaced = dropped.0.step(TunnelEvent::Killed);
                &&& checking.1 == (TunnelAction::CheckAlive { local_port: port })
                &&& reused == (self, TunnelAction::Finish(Ok(port)))
                &&& dropped.1 == (TunnelAction::Kill { local_port: port })
                &&& dropped.0.position(name) is None
                &&& self.next_local_port < u16::MAX ==> replaced.1 == (TunnelAction::Spawn {
                    local_port: self.next_local_port,
                    remote_port,
                }) && self.next_local_port != port
            }),
    {
        lemma_position_from(self.tunnels, name, 0);
        self.lemma_without_wf(name);
    }
}

/// What the registry knows of a list of tracked tunnels.
pub open spec fn tracked_views(records: Seq<TunnelRecord>) -> Seq<TrackedTunnel> {
    records.map_values(|r: TunnelRecord| r@)
}

/// Manager for the tunnels to the remote services: at most one per service.
pub struct TunnelManager {
    pub config: Config,
    pub tunnels: Vec<TunnelRecord>,
    pub next_local_port: u16,
    pub pending: Option<PendingRequest>,
}

impl View for TunnelManager {
    type V = Registry;

    open spec fn view(&self) -> Registry {
        Registry {
            tunnels: tracked_views(self.tunnels@),
            next_local_port: self.next_local_port,
            pending: match self.pending {
                Some(p) => Some(p@),
                None => None,
            },
        }
    }
}

impl TunnelManager {
    /// A manager that tracks no tunnel yet.
    pub fn new(config: Config) -> (r: TunnelManager)
        ensures
            r.config == config,
            r@.tunnels.len() == 0,
            r@.next_local_port == FIRST_LOCAL_PORT,
            r@.pending is None,
            r@.wf(),
    {
        TunnelManager {
            config,
            tunnels: Vec::new(),
            next_local_port: FIRST_LOCAL_PORT,
            pending: None,
        }
    }

    /// The position of the tunnel tracked under `name`.
    pub fn find(&self, name: &str) -> (r: Option<usize>)
        ensures
            match r {
                Some(i) => self@.position(name@) == Some(i as int) && i < self.tunnels.len(),
                None => self@.position(name@) is None,
            },
    {
        let mut i: usize = 0;
        while i < self.tunnels.len()
            invariant
                i <= self.tunnels.len(),
                self@.position(name@) == position_from(self@.tunnels, name@, i as int),
            decreases self.tunnels.len() - i,
        {
            if str_eq(self.tunnels[i].name.as_str(), name) {
                return Some(i);
            }
            i += 1;
        }
        None
    }

    /// Drops the tunnel tracked under `name`, if there is one.
    fn discard(&mut self, name: &str)
        ensures
            final(self)@.tunnels == old(self)@.without(name@),
            final(self).config == old(self).config,
            final(self).next_local_port == old(self).next_local_port,
            final(self).pending == old(self).pending,
    {
        match self.find(name) {
            Some(i) => {
                let ghost before = self.tunnels@;
                self.tunnels.remove(i);
                assert(tracked_views(self.tunnels@) =~= tracked_views(before).remove(i as int));
            },
            None => {},
        }
    }

    /// Hands out the next local port for a new tunnel of the service `name`.
    fn allocate(&mut self, name: String, remote_port: u16) -> (r: TunnelAction)
        ensures
            (final(self)@, r) == old(self)@.allocate(name@, remote_port),
            final(self).config == old(self).config,
    {
        if self.next_local_port == u16::MAX {
            self.pending = None;
            TunnelAction::Finish(Err(TunnelError::PortsExhausted))
        } else {
            let local_port = self.next_local_port;
            self.next_local_port = local_port + 1;
            self.pending = Some(
                PendingRequest { name, local_port, remote_port, phase: RequestPhase::Spawning },
            );
            TunnelAction::Spawn { local_port, remote_port }
        }
    }

    /// Begins a request for the tunnel of a service and says what to do
    /// first. The steps that follow go through `advance`, until the answer
    /// is `Finish`.
    pub fn get_tunnel(&mut self, service_name: &str, remote_port: u16) -> (r: TunnelAction)
        ensures
            (final(self)@, r) == old(self)@.begin(service_name@, remote_port),
            final(self).config == old(self).config,
            old(self)@.wf() ==> final(self)@.wf(),
    {
        proof {
            if self@.wf() {
                self@.lemma_begin_wf(service_name@, remote_port);
            }
        }
        if self.pending.is_some() {
            return TunnelAction::Finish(Err(TunnelError::Busy));
        }
        match self.find(service_name) {
            Some(i) => {
                let local_port = self.tunnels[i].tunnel.local_port;
                self.pending = Some(
                    PendingRequest {
                        name: String::from_str(service_name),
                        local_port,
                        remote_port,
                        phase: RequestPhase::Checking,
                    },
                );
                TunnelAction::CheckAlive { local_port }
            },
            None => self.allocate(String::from_str(service_name), remote_port),
        }
    }

    /// Takes in what the caller observed and says what to do next.
    pub fn advance(&mut self, event: TunnelEvent) -> (r: TunnelAction)
        ensures
            (final(self)@, r) == old(self)@.step(event),
            final(self).config == old(self).config,
            old(self)@.wf() ==> final(self)@.wf(),
    {
        proof {
            if self@.wf() {
                self@.lemma_step_wf(event);
            }
        }
        let p = match self.pending.take() {
            Some(p) => p,
            None => {
                return TunnelAction::Nothing;
            },
        };
        match (p.phase, event) {
            (RequestPhase::Checking, TunnelEvent::Alive(true)) => TunnelAction::Finish(
                Ok(p.local_port),
            ),
            (RequestPhase::Checking, TunnelEvent::Alive(false)) => {
                self.discard(p.name.as_str());
                let local_port = p.local_port;
                self.pending = Some(
                    PendingRequest {
                        name: p.name,
                        local_port: p.local_port,
                        remote_port: p.remote_port,
                        phase: RequestPhase::Discarding,
                    },
                );
                TunnelAction::Kill { local_port }
            },
            (RequestPhase::Discarding, TunnelEvent::Killed) => self.allocate(p.name, p.remote_port),
            (RequestPhase::Spawning, TunnelEvent::Spawned(true)) => {
                self.pending = Some(
                    PendingRequest {
                        name: p.name,
                        local_port: p.local_port,
                        remote_port: p.remote_port,
                        phase: RequestPhase::Waiting(WaitPhase::Timing),
                    },
                );
                TunnelAction::ReadClock
            },
            (RequestPhase::Spawning, TunnelEvent::Spawned(false)) => TunnelAction::Finish(
                Err(TunnelError::Spawn),
            ),
            (RequestPhase::Waiting(phase), _) => {
                let (next, action) = next_wait_step(p.local_port, READY_TIMEOUT_SECS, phase, event);
                match action {
                    TunnelAction::Finish(Ok(_)) => {
                        self.discard(p.name.as_str());
                        let ghost before = self.tunnels@;
                        let record = TunnelRecord {
                            name: p.name,
                            tunnel: SshTunnel {
                                local_port: p.local_port,
                                remote_port: p.remote_port,
                                remote_host: self.config.remote.host.clone(),
                                state: TunnelState::Ready,
                            },
                        };
                        self.tunnels.push(record);
                        assert(tracked_views(self.tunnels@) =~= tracked_views(before).push(
                            record@,
                        ));
                        action
                    },
                    TunnelAction::Finish(Err(_)) => action,
                    _ => {
                        self.pending = Some(
                            PendingRequest {
                                name: p.name,
                                local_port: p.local_port,
                                remote_port: p.remote_port,
                                phase: RequestPhase::Waiting(next),
                            },
                        );
                        action
                    },
                }
            },
            _ => {
                self.pending = Some(p);
                TunnelAction::Nothing
            },
        }
    }

    /// Begins a request for the tunnel of the language model server.
    pub fn get_ollama_tunnel(&mut self) -> (r: TunnelAction)
        ensures
            (final(self)@, r) == old(self)@.begin("ollama"@, old(self).config.remote.ollama_port),
            final(self).config == old(self).config,
            old(self)@.wf() ==> final(self)@.wf(),
    {
        let port = self.config.remote.ollama_port;
        self.get_tunnel("ollama", port)
    }

    /// Begins a request for the tunnel of the image generation server.
    pub fn get_comfyui_tunnel(&mut self) -> (r: TunnelAction)
        ensures
            (final(self)@, r) == old(self)@.begin("comfyui"@, old(self).config.remote.comfyui_port),
            final(self).config == old(self).config,
            old(self)@.wf() ==> final(self)@.wf(),
    {
        let port = self.config.remote.comfyui_port;
        self.get_tunnel("comfyui", port)
    }

    /// The local port of the tunnel tracked under `service_name`.
    pub fn local_port(&self, service_name: &str) -> (r: Option<u16>)
        ensures
            r == self@.port_of(service_name@),
    {
        match self.find(service_name) {
            Some(i) => Some(self.tunnels[i].tunnel.local_port),
            None => None,
        }
    }

    /// Whether the tunnel of a service is active, given whether its process
    /// still runs: it is tracked, the process runs, and it was never seen
    /// dead. A tunnel found dead stays tracked, and dead, until it is asked
    /// for again.
    pub fn is_tunnel_active(&mut self, service_name: &str, running: bool) -> (r: bool)
        ensures
            match old(self)@.position(service_name@) {
                Some(i) => r == (running && old(self)@.tunnels[i].state != TunnelState::Dead)
                    && final(self)@.tunnels == old(self)@.tunnels.update(
                    i,
                    TrackedTunnel {
                        state: if r {
                            old(self)@.tunnels[i].state
                        } else {
                            TunnelState::Dead
                        },
                        ..old(self)@.tunnels[i]
                    },
                ),
                None => !r && final(self)@.tunnels == old(self)@.tunnels,
            },
            final(self).config == old(self).config,
            final(self).next_local_port == old(self).next_local_port,
            final(self).pending == old(self).pending,
    {
        match self.find(service_name) {
            Some(i) => {
                let ghost before = self.tunnels@;
                let r = running && self.tunnels[i].tunnel.state != TunnelState::Dead;
                if !r {
                    let mut record = self.tunnels.remove(i);
                    record.tunnel.state = TunnelState::Dead;
                    self.tunnels.insert(i, record);
                }
                assert(tracked_views(self.tunnels@) =~= tracked_views(before).update(
                    i as int,
                    TrackedTunnel {
                        state: if r {
                            before[i as int]@.state
                        } else {
                            TunnelState::Dead
                        },
                        ..before[i as int]@
                    },
                ));
                r
            },
            None => false,
        }
    }

    /// Stops tracking the tunnel of a service and hands back its local
    /// port, for its process to be ended.
    pub fn close_tunnel(&mut self, service_name: &str) -> (r: Option<u16>)
        ensures
            r == old(self)@.port_of(service_name@),
            final(self)@.tunnels == old(self)@.without(service_name@),
            final(self).config == old(self).config,
            final(self).next_local_port == old(self).next_local_port,
            final(self).pending == old(self).pending,
    {
        let r = self.local_port(service_name);
        self.discard(service_name);
        r
    }

    /// Stops tracking every tunnel and hands back their local ports, for
    /// their processes to be ended.
    pub fn close_all(&mut self) -> (r: Vec<u16>)
        ensures
            r@ == old(self)@.tunnels.map_values(|t: TrackedTunnel| t.local_port),
            final(self)@.tunnels.len() == 0,
            final(self).config == old(self).config,
            final(self).next_local_port == old(self).next_local_port,
            final(self).pending == old(self).pending,
    {
        let mut r: Vec<u16> = Vec::new();
        let mut i: usize = 0;
        while i < self.tunnels.len()
            invariant
                i <= self.tunnels.len(),
                *self == *old(self),
                r@ =~= self@.tunnels.take(i as int).map_values(|t: TrackedTunnel| t.local_port),
            decreases self.tunnels.len() - i,
        {
            r.push(self.tunnels[i].tunnel.local_port);
            i += 1;
        }
        assert(self@.tunnels.take(i as int) =~= self@.tunnels);
        self.tunnels.clear();
        r
    }

    /// The tracked services, each with whether its tunnel is alive, given
    /// for each whether its process still runs; `running` goes by position,
    /// and a tunnel it does not reach counts as ended.
    pub fn status(&mut self, running: &Vec<bool>) -> (r: Vec<(String, bool)>)
        ensures
            r@.len() == old(self)@.tunnels.len(),
            forall|i: int|
                0 <= i < r@.len() ==> (#[trigger] r@[i]).0@ == old(self)@.tunnels[i].name && r@[i].1
                    == (i < running@.len() && running@[i] && old(self)@.tunnels[i].state
                    != TunnelState::Dead),
            final(self)@.tunnels.len() == old(self)@.tunnels.len(),
            forall|i: int|
                0 <= i < r@.len() ==> #[trigger] final(self)@.tunnels[i] == (TrackedTunnel {
                    state: if r@[i].1 {
                        old(self)@.tunnels[i].state
                    } else {
                        TunnelState::Dead
                    },
                    ..old(self)@.tunnels[i]
                }),
            final(self).config == old(self).config,
            final(self).next_local_port == old(self).next_local_port,
            final(self).pending == old(self).pending,
    {
        let mut r: Vec<(String, bool)> = Vec::new();
        let mut fresh: Vec<TunnelRecord> = Vec::new();
        let mut i: usize = 0;
        while i < self.tunnels.len()
            invariant
                i <= self.tunnels.len(),
                *self == *old(self),
                r@.len() == i,
                fresh@.len() == i,
                forall|k: int|
                    0 <= k < i ==> (#[trigger] r@[k]).0@ == self@.tunnels[k].name && r@[k].1 == (k
                        < running@.len() && running@[k] && self@.tunnels[k].state
                        != TunnelState::Dead),
                forall|k: int|
                    0 <= k < i ==> (#[trigger] fresh@[k])@ == (TrackedTunnel {
                        state: if r@[k].1 {
                            self@.tunnels[k].state
                        } else {
                            TunnelState::Dead
                        },
                        ..self@.tunnels[k]
                    }),
            decreases self.tunnels.len() - i,
        {
            let record = &self.tunnels[i];
            let alive = i < running.len() && running[i] && record.tunnel.state
                != TunnelState::Dead;
            r.push((record.name.clone(), alive));
            fresh.push(
                TunnelRecord {
                    name: record.name.clone(),
                    tunnel: SshTunnel {
                        local_port: record.tunnel.local_port,
                        remote_port: record.tunnel.remote_port,
                        remote_host: record.tunnel.remote_host.clone(),
                        state: if alive {
                            record.tunnel.state
                        } else {
                            TunnelState::Dead
                        },
                    },
                },
            );
            i += 1;
        }
        self.tunnels = fresh;
        r
    }
}

} // verus!
