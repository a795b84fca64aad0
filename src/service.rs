//! The rules of the daemon's life as an OS service: the status reports and
//! their checkpoints, which controls are accepted in which state, how service
//! controls become daemon actions, the hibernation detector and the exit code.
use vstd::prelude::*;

verus! {

/// The name the service is registered under.
pub const SERVICE_NAME: &'static str = "MullvadVPN";

/// The name shown for the service.
pub const SERVICE_DISPLAY_NAME: &'static str = "Mullvad VPN Service";

/// How long after an interactive logoff a suspend still counts as the
/// start of a hibernation.
pub const HIBERNATION_LOGOFF_WINDOW_MS: u64 = 5_000;

/// The wait hint sent with the stop-pending report.
pub const STOP_PENDING_WAIT_HINT_MS: u64 = 10_000;

/// The logon type of an interactive session.
pub const SECURITY_LOGON_TYPE_INTERACTIVE: u32 = 2;

/// The state a service reports to the service manager.
#[derive(Debug, Clone, Copy, PartialEq, Eq, Structural)]
pub enum ServiceState {
    Stopped,
    StartPending,
    StopPending,
    Running,
    ContinuePending,
    PausePending,
    Paused,
}

/// The controls a service accepts in a state.
#[derive(Debug, Clone, Copy, PartialEq, Eq, Structural)]
pub struct ControlsAccepted {
    pub stop: bool,
    pub preshutdown: bool,
    pub power_event: bool,
    pub session_change: bool,
}

/// The exit code a service reports.
#[derive(Debug, Clone, Copy, PartialEq, Eq, Structural)]
pub enum ServiceExitCode {
    Win32(u32),
    ServiceSpecific(u32),
}

/// One status report to the service manager.
#[derive(Debug, Clone, Copy, PartialEq, Eq, Structural)]
pub struct ServiceStatus {
    pub current_state: ServiceState,
    pub controls_accepted: ControlsAccepted,
    pub exit_code: ServiceExitCode,
    pub checkpoint: u32,
    pub wait_hint_ms: u64,
}

pub open spec fn is_pending(state: ServiceState) -> bool {
    match state {
        ServiceState::StartPending | ServiceState::StopPending | ServiceState::ContinuePending
        | ServiceState::PausePending => true,
        _ => false,
    }
}

/// Nothing is accepted while a transition is pending or once stopped;
/// power events, session changes, stop and pre-shutdown while running or
/// paused.
pub open spec fn accepted_controls_spec(state: ServiceState) -> ControlsAccepted {
    let open = state == ServiceState::Running || state == ServiceState::Paused;
    ControlsAccepted { stop: open, preshutdown: open, power_event: open, session_change: open }
}

/// The checkpoint that a report of `state` carries, after `counter`: the
/// next number for a pending state, 0 for any other.
pub open spec fn next_checkpoint(counter: u32, state: ServiceState) -> u32 {
    if is_pending(state) {
        if counter == u32::MAX {
            counter
        } else {
            (counter + 1) as u32
        }
    } else {
        0
    }
}

/// Returns the controls accepted at each stage of the service lifecycle.
pub fn accepted_controls_by_state(state: ServiceState) -> (r: ControlsAccepted)
    ensures
        r == accepted_controls_spec(state),
{
    let open = match state {
        ServiceState::Running | ServiceState::Paused => true,
        _ => false,
    };
    ControlsAccepted { stop: open, preshutdown: open, power_event: open, session_change: open }
}

/// The reporter of service status, with its checkpoint counter: the
/// checkpoint of the last report.
pub struct PersistentServiceStatus {
    checkpoint_counter: u32,
}

impl View for PersistentServiceStatus {
    type V = u32;

    closed spec fn view(&self) -> u32 {
        self.checkpoint_counter
    }
}

impl PersistentServiceStatus {
    pub fn new() -> (r: PersistentServiceStatus)
        ensures
            r@ == 0,
    {
        PersistentServiceStatus { checkpoint_counter: 0 }
    }

    /// The report of `next_state`. A pending state bumps the checkpoint, to
    /// tell the system that the transition makes progress; any other state
    /// carries checkpoint 0 and starts the count again.
    pub fn report_status(
        &mut self,
        next_state: ServiceState,
        wait_hint_ms: u64,
        exit_code: ServiceExitCode,
    ) -> (r: ServiceStatus)
        ensures
            r == (ServiceStatus {
                current_state: next_state,
                controls_accepted: accepted_controls_spec(next_state),
                exit_code,
                checkpoint: next_checkpoint(old(self)@, next_state),
                wait_hint_ms,
            }),
            final(self)@ == r.checkpoint,
    {
        let checkpoint = match next_state {
            ServiceState::StartPending | ServiceState::StopPending
            | ServiceState::ContinuePending | ServiceState::PausePending => {
                if self.checkpoint_counter < u32::MAX {
                    self.checkpoint_counter + 1
                } else {
                    self.checkpoint_counter
                }
            },
            _ => 0,
        };
        self.checkpoint_counter = checkpoint;
        ServiceStatus {
            current_state: next_state,
            controls_accepted: accepted_controls_by_state(next_state),
            exit_code,
            checkpoint,
            wait_hint_ms,
        }
    }

    /// The report that the service is starting, with the time it expects
    /// to need.
    pub fn set_pending_start(&mut self, wait_hint_ms: u64) -> (r: ServiceStatus)
        ensures
            r == (ServiceStatus {
                current_state: ServiceState::StartPending,
                controls_accepted: accepted_controls_spec(ServiceState::StartPending),
                exit_code: ServiceExitCode::Win32(0),
                checkpoint: next_checkpoint(old(self)@, ServiceState::StartPending),
                wait_hint_ms,
            }),
            final(self)@ == r.checkpoint,
    {
        self.report_status(ServiceState::StartPending, wait_hint_ms, ServiceExitCode::Win32(0))
    }

    /// The report that the service is running.
    pub fn set_running(&mut self) -> (r: ServiceStatus)
        ensures
            r == (ServiceStatus {
                current_state: ServiceState::Running,
                controls_accepted: accepted_controls_spec(ServiceState::Running),
                exit_code: ServiceExitCode::Win32(0),
                checkpoint: 0,
                wait_hint_ms: 0,
            }),
            final(self)@ == 0,
    {
        self.report_status(ServiceState::Running, 0, ServiceExitCode::Win32(0))
    }

    /// The report that the service is stopping, with the time it expects to
    /// need.
    pub fn set_pending_stop(&mut self, wait_hint_ms: u64) -> (r: ServiceStatus)
        ensures
            r == (ServiceStatus {
                current_state: ServiceState::StopPending,
                controls_accepted: accepted_controls_spec(ServiceState::StopPending),
                exit_code: ServiceExitCode::Win32(0),
                checkpoint: next_checkpoint(old(self)@, ServiceState::StopPending),
                wait_hint_ms,
            }),
            final(self)@ == r.checkpoint,
    {
        self.report_status(ServiceState::StopPending, wait_hint_ms, ServiceExitCode::Win32(0))
    }

    /// The report that the service has stopped, with its exit code.
    pub fn set_stopped(&mut self, exit_code: ServiceExitCode) -> (r: ServiceStatus)
        ensures
            r == (ServiceStatus {
                current_state: ServiceState::Stopped,
                controls_accepted: accepted_controls_spec(ServiceState::Stopped),
                exit_code,
                checkpoint: 0,
                wait_hint_ms: 0,
            }),
            final(self)@ == 0,
    {
        self.report_status(ServiceState::Stopped, 0, exit_code)
    }
}

/// The counter after reporting `states` in turn, from `counter`.
pub open spec fn counter_after(counter: u32, states: Seq<ServiceState>) -> u32
    decreases states.len(),
{
    if states.len() == 0 {
        counter
    } else {
        next_checkpoint(counter_after(counter, states.drop_last()), states.last())
    }
}

/// The checkpoint of the `k`-th of the reports `states`, made in turn by a
/// new reporter.
pub open spec fn emitted_checkpoint(states: Seq<ServiceState>, k: int) -> u32 {
    next_checkpoint(counter_after(0, states.take(k)), states[k])
}

proof fn lemma_counter_bound(states: Seq<ServiceState>)
    requires
        states.len() < u32::MAX,
    ensures
        counter_after(0, states) <= states.len(),
    decreases states.len(),
{
    if states.len() > 0 {
        lemma_counter_bound(states.drop_last());
    }
}

proof fn lemma_counter_step(states: Seq<ServiceState>, k: int)
    requires
        0 <= k < states.len(),
    ensures
        counter_after(0, states.take(k + 1)) == emitted_checkpoint(states, k),
{
    assert(states.take(k + 1).drop_last() =~= states.take(k));
}

/// Of the reports made in turn by one reporter, each one of a state that is
/// not pending carries checkpoint 0, and the pending reports between two
/// such carry strictly increasing positive checkpoints.
pub proof fn lemma_checkpoints_monotonic(states: Seq<ServiceState>, i: int, j: int)
    requires
        0 <= i < j < states.len(),
        states.len() < u32::MAX,
        forall|k: int| i <= k <= j ==> is_pending(#[trigger] states[k]),
    ensures
        0 < emitted_checkpoint(states, i) < emitted_checkpoint(states, j),
        forall|k: int| 0 <= k < states.len() && !is_pending(#[trigger] states[k])
            ==> emitted_checkpoint(states, k) == 0,
    decreases j - i,
{
    lemma_counter_bound(states.take(i));
    lemma_counter_bound(states.take(j));
    lemma_counter_step(states, j - 1);
    if j - 1 > i {
        lemma_checkpoints_monotonic(states, i, j - 1);
    } else {
        lemma_counter_step(states, i);
    }
}

/// Finds whether the logon session of `session_id` is interactive: the
/// first entry of `sessions` for that session decides, and a session that
/// is not listed is not interactive.
pub open spec fn interactive_spec(session_id: u32, sessions: Seq<LogonSession>) -> bool
    decreases sessions.len(),
{
    if sessions.len() == 0 {
        false
    } else if sessions[0].session == session_id {
        sessions[0].logon_type == SECURITY_LOGON_TYPE_INTERACTIVE
    } else {
        interactive_spec(session_id, sessions.drop_first())
    }
}

/// One logon session as the OS lists it.
#[derive(Debug, Clone, Copy, PartialEq, Eq, Structural)]
pub struct LogonSession {
    pub session: u32,
    pub logon_type: u32,
}

/// Whether the session `session_id` is interactive, given the logon
/// sessions that the OS listed.
pub fn interactive_session(session_id: u32, sessions: &Vec<LogonSession>) -> (r: bool)
    ensures
        r == interactive_spec(session_id, sessions@),
{
    let mut i: usize = 0;
    assert(sessions@.skip(0) =~= sessions@);
    while i < sessions.len()
        invariant
            i <= sessions@.len(),
            interactive_spec(session_id, sessions@) == interactive_spec(
                session_id,
                sessions@.skip(i as int),
            ),
        decreases sessions.len() - i,
    {
        assert(sessions@.skip(i as int).drop_first() =~= sessions@.skip(i + 1));
        assert(sessions@.skip(i as int)[0] == sessions@[i as int]);
        if sessions[i].session == session_id {
            return sessions[i].logon_type == SECURITY_LOGON_TYPE_INTERACTIVE;
        }
        i = i + 1;
    }
    false
}

/// What the hibernation detector remembers: when the last interactive
/// logoff happened, and whether the next resume is to restart the daemon.
pub struct HibernationState {
    pub logoff_time: Option<u64>,
    pub should_restart: bool,
}

pub open spec fn logoff_spec(s: HibernationState, interactive: bool, now: u64) -> HibernationState {
    if interactive {
        HibernationState { logoff_time: Some(now), ..s }
    } else {
        s
    }
}

/// Time from `then` to `now`, and 0 where `now` is earlier.
pub open spec fn elapsed(then: u64, now: u64) -> u64 {
    if now >= then {
        (now - then) as u64
    } else {
        0
    }
}

pub open spec fn suspend_spec(s: HibernationState, now: u64) -> HibernationState {
    match s.logoff_time {
        Some(t) => if elapsed(t, now) < HIBERNATION_LOGOFF_WINDOW_MS {
            HibernationState { should_restart: true, ..s }
        } else {
            s
        },
        None => s,
    }
}

pub open spec fn resume_spec(s: HibernationState) -> HibernationState {
    HibernationState { should_restart: false, ..s }
}

/// Tracks the events that, taken together, mean that the machine is being
/// hibernated: the user's session is logged off first, and moments later the
/// machine suspends.
pub struct HibernationDetector {
    logoff_time: Option<u64>,
    should_restart: bool,
}

impl View for HibernationDetector {
    type V = HibernationState;

    closed spec fn view(&self) -> HibernationState {
        HibernationState { logoff_time: self.logoff_time, should_restart: self.should_restart }
    }
}

impl HibernationDetector {
    pub fn new() -> (r: HibernationDetector)
        ensures
            r@ == (HibernationState { logoff_time: None, should_restart: false }),
    {
        HibernationDetector { logoff_time: None, should_restart: false }
    }

    /// A session logged off at `now`; only the logoff of an interactive
    /// session counts.
    pub fn register_logoff(&mut self, interactive: bool, now: u64)
        ensures
            final(self)@ == logoff_spec(old(self)@, interactive, now),
    {
        if interactive {
            self.logoff_time = Some(now);
        }
    }

    /// The machine suspends at `now`: within the window after an interactive
    /// logoff, this is a hibernation.
    pub fn register_suspend(&mut self, now: u64)
        ensures
            final(self)@ == suspend_spec(old(self)@, now),
    {
        if let Some(logoff_time) = self.logoff_time {
            let elapsed = if now >= logoff_time {
                now - logoff_time
            } else {
                0
            };
            if elapsed < HIBERNATION_LOGOFF_WINDOW_MS {
                self.should_restart = true;
            }
        }
    }

    /// The machine resumes: whether it comes back from hibernation, in which
    /// case the daemon is to be restarted.
    pub fn register_resume(&mut self) -> (restart: bool)
        ensures
            restart == old(self)@.should_restart,
            final(self)@ == resume_spec(old(self)@),
    {
        let restart = self.should_restart;
        self.should_restart = false;
        restart
    }
}

/// A logoff at `t` followed by a suspend at `t + delay` and a resume makes
/// the resume restart the daemon exactly when the session was interactive
/// and the delay is under the window.
pub proof fn lemma_hibernation_detected(interactive: bool, t: u64, delay: u64)
    requires
        t + delay <= u64::MAX,
    ensures
        ({
            let s0 = HibernationState { logoff_time: None, should_restart: false };
            let s2 = suspend_spec(logoff_spec(s0, interactive, t), (t + delay) as u64);
            s2.should_restart == (interactive && delay < HIBERNATION_LOGOFF_WINDOW_MS)
                && !resume_spec(s2).should_restart
        }),
{
}

/// Where a service control goes: acknowledged only, forwarded to the event
/// monitor, or refused.
#[derive(Debug, Clone, Copy, PartialEq, Eq, Structural)]
pub enum ControlDisposition {
    Acknowledge,
    Forward,
    NotImplemented,
}

/// A power event of the host.
#[derive(Debug, Clone, Copy, PartialEq, Eq, Structural)]
pub enum PowerEvent {
    Suspend,
    ResumeAutomatic,
    ResumeSuspend,
    Other,
}

/// A service control that the service manager sends.
#[derive(Debug, Clone, Copy, PartialEq, Eq, Structural)]
pub enum ServiceControl {
    Interrogate,
    Stop,
    Preshutdown,
    PowerEvent(PowerEvent),
    /// A session changed; `logoff` says whether it was a logoff.
    SessionChange { logoff: bool, session_id: u32 },
    Other,
}

pub open spec fn disposition_spec(control: ServiceControl) -> ControlDisposition {
    match control {
        ServiceControl::Interrogate => ControlDisposition::Acknowledge,
        ServiceControl::Other => ControlDisposition::NotImplemented,
        _ => ControlDisposition::Forward,
    }
}

/// How the control handler answers `control`: interrogation is acknowledged,
/// stop, pre-shutdown, power events and session changes are forwarded, and
/// any other control is refused.
pub fn control_disposition(control: ServiceControl) -> (r: ControlDisposition)
    ensures
        r == disposition_spec(control),
{
    match control {
        ServiceControl::Interrogate => ControlDisposition::Acknowledge,
        ServiceControl::Other => ControlDisposition::NotImplemented,
        _ => ControlDisposition::Forward,
    }
}

/// What the event monitor asks of the service after a forwarded control.
#[derive(Debug, Clone, Copy, PartialEq, Eq, Structural)]
pub enum MonitorAction {
    Nothing,
    /// Send this status report, then shut the daemon down.
    Shutdown(ServiceStatus),
    /// Ask whether session `session_id` is interactive, and pass the answer
    /// to `EventMonitor::session_logoff`.
    CheckLogoff(u32),
    /// Restart the daemon service.
    RestartDaemon,
}

/// The monitor that turns forwarded service controls into daemon actions.
pub struct EventMonitor {
    pub hibernation_detector: HibernationDetector,
    pub clean_shutdown: bool,
}

impl EventMonitor {
    pub fn new() -> (r: EventMonitor)
        ensures
            r.hibernation_detector@ == (HibernationState {
                logoff_time: None,
                should_restart: false,
            }),
            !r.clean_shutdown,
    {
        EventMonitor { hibernation_detector: HibernationDetector::new(), clean_shutdown: false }
    }

    /// Handles a forwarded control at `now`. Stop and pre-shutdown report
    /// stop-pending, mark the shutdown as clean and shut the daemon down;
    /// power events and logoffs go to the hibernation detector.
    pub fn handle(
        &mut self,
        control: ServiceControl,
        now: u64,
        status: &mut PersistentServiceStatus,
    ) -> (r: MonitorAction)
        ensures
            match control {
                ServiceControl::Stop | ServiceControl::Preshutdown => {
                    &&& final(self).clean_shutdown
                    &&& final(self).hibernation_detector@ == old(self).hibernation_detector@
                    &&& r == MonitorAction::Shutdown(
                        ServiceStatus {
                            current_state: ServiceState::StopPending,
                            controls_accepted: accepted_controls_spec(ServiceState::StopPending),
                            exit_code: ServiceExitCode::Win32(0),
                            checkpoint: next_checkpoint(old(status)@, ServiceState::StopPending),
                            wait_hint_ms: STOP_PENDING_WAIT_HINT_MS,
                        },
                    )
                    &&& final(status)@ == next_checkpoint(old(status)@, ServiceState::StopPending)
                },
                ServiceControl::PowerEvent(PowerEvent::Suspend) => {
                    &&& r == MonitorAction::Nothing
                    &&& final(self).hibernation_detector@ == suspend_spec(
                        old(self).hibernation_detector@,
                        now,
                    )
                    &&& final(self).clean_shutdown == old(self).clean_shutdown
                    &&& final(status)@ == old(status)@
                },
                ServiceControl::PowerEvent(PowerEvent::ResumeAutomatic)
                | ServiceControl::PowerEvent(PowerEvent::ResumeSuspend) => {
                    &&& r == (if old(self).hibernation_detector@.should_restart {
                        MonitorAction::RestartDaemon
                    } else {
                        MonitorAction::Nothing
                    })
                    &&& final(self).hibernation_detector@ == resume_spec(
                        old(self).hibernation_detector@,
                    )
                    &&& final(self).clean_shutdown == old(self).clean_shutdown
                    &&& final(status)@ == old(status)@
                },
                ServiceControl::SessionChange { logoff: true, session_id } => {
                    &&& r == MonitorAction::CheckLogoff(session_id)
                    &&& final(self).hibernation_detector@ == old(self).hibernation_detector@
                    &&& final(self).clean_shutdown == old(self).clean_shutdown
                    &&& final(status)@ == old(status)@
                },
                _ => {
                    &&& r == MonitorAction::Nothing
                    &&& final(self).hibernation_detector@ == old(self).hibernation_detector@
                    &&& final(self).clean_shutdown == old(self).clean_shutdown
                    &&& final(status)@ == old(status)@
                },
            },
    {
        match control {
            ServiceControl::Stop | ServiceControl::Preshutdown => {
                let report = status.set_pending_stop(STOP_PENDING_WAIT_HINT_MS);
                self.clean_shutdown = true;
                MonitorAction::Shutdown(report)
            },
            ServiceControl::PowerEvent(PowerEvent::Suspend) => {
                self.hibernation_detector.register_suspend(now);
                MonitorAction::Nothing
            },
            ServiceControl::PowerEvent(PowerEvent::ResumeAutomatic)
            | ServiceControl::PowerEvent(PowerEvent::ResumeSuspend) => {
                if self.hibernation_detector.register_resume() {
                    MonitorAction::RestartDaemon
                } else {
                    MonitorAction::Nothing
                }
            },
            ServiceControl::SessionChange { logoff: true, session_id } => {
                MonitorAction::CheckLogoff(session_id)
            },
            _ => MonitorAction::Nothing,
        }
    }

    /// The answer to `MonitorAction::CheckLogoff`: a session logged off at
    /// `now`, interactive or not.
    pub fn session_logoff(&mut self, interactive: bool, now: u64)
        ensures
            final(self).hibernation_detector@ == logoff_spec(
                old(self).hibernation_detector@,
                interactive,
                now,
            ),
            final(self).clean_shutdown == old(self).clean_shutdown,
    {
        self.hibernation_detector.register_logoff(interactive, now);
    }
}

/// The exit code of the service: 0 after a clean shutdown that the service
/// manager asked for, else a service-specific code that makes the service
/// manager apply its recovery actions.
pub fn service_exit_code(daemon_ok: bool, clean_shutdown: bool) -> (r: ServiceExitCode)
    ensures
        r == (if daemon_ok && clean_shutdown {
            ServiceExitCode::Win32(0)
        } else {
            ServiceExitCode::ServiceSpecific(1)
        }),
{
    if daemon_ok && clean_shutdown {
        ServiceExitCode::Win32(0)
    } else {
        ServiceExitCode::ServiceSpecific(1)
    }
}

/// The time after which the failure count of the service is reset.
pub const SERVICE_FAILURE_RESET_PERIOD_SECS: u64 = 900;

/// The delays of the three restarts that the service manager makes after
/// failures, in seconds.
pub fn recovery_restart_delays_secs() -> (r: Vec<u64>)
    ensures
        r@ == seq![3u64, 30u64, 600u64],
{
    let r = vec![3u64, 30u64, 600u64];
    assert(r@ =~= seq![3u64, 30u64, 600u64]);
    r
}

/// The arguments the service is launched with.
pub fn service_launch_arguments() -> (r: Vec<String>)
    ensures
        r@.len() == 2,
        r@[0]@ == "--run-as-service"@,
        r@[1]@ == "-v"@,
{
    vec![String::from_str("--run-as-service"), String::from_str("-v")]
}

/// The services that the service depends on: the base filter engine and
/// the network store interface.
pub fn service_dependencies() -> (r: Vec<String>)
    ensures
        r@.len() == 2,
        r@[0]@ == "BFE"@,
        r@[1]@ == "NSI"@,
{
    vec![String::from_str("BFE"), String::from_str("NSI")]
}

pub open spec fn backslash() -> char {
    '\\'
}

/// `path`, ending in a backslash.
pub open spec fn with_trailing_backslash_spec(path: Seq<char>) -> Seq<char> {
    if path.len() > 0 && path.last() == backslash() {
        path
    } else {
        path.push(backslash())
    }
}

/// Makes a directory path end in a backslash.
pub fn with_trailing_backslash(path: String) -> (r: String)
    ensures
        r@ == with_trailing_backslash_spec(path@),
{
    let len = path.as_str().unicode_len();
    if len > 0 && path.as_str().get_char(len - 1) == '\\' {
        path
    } else {
        proof {
            if len > 0 {
                assert(path@.last() == path@[len - 1]);
            }
        }
        let ghost before = path@;
        let mut path = path;
        proof {
            reveal_strlit("\\");
        }
        path.append("\\");
        assert(path@ =~= with_trailing_backslash_spec(before));
        path
    }
}

/// The shell script that restarts the service.
pub open spec fn restart_script() -> Seq<char> {
    "net stop "@ + SERVICE_NAME@ + " & net start "@ + SERVICE_NAME@
}

/// The program and arguments that restart the daemon service: the shell of
/// the system directory `system_dir` (which ends in a backslash), running
/// `net stop` and then `net start` on the service.
pub fn restart_command(system_dir: &str) -> (r: (String, Vec<String>))
    ensures
        r.0@ == system_dir@ + "cmd.exe"@,
        r.1@.len() == 2,
        r.1@[0]@ == "/C"@,
        r.1@[1]@ == restart_script(),
{
    let mut cmd_path = system_dir.to_owned();
    cmd_path.append("cmd.exe");
    let mut script = String::from_str("net stop ");
    script.append(SERVICE_NAME);
    script.append(" & net start ");
    script.append(SERVICE_NAME);
    (cmd_path, vec![String::from_str("/C"), script])
}

} // verus!
