//! The tunnel supervisor's rules: where a session's event channel lives,
//! which plugin events are known, how the first of the child process and the
//! event channel to end decides the session's outcome, and when the
//! credentials files go.
use crate::routing::IpAddress;
use std::collections::HashMap;
use vstd::string::StringSliceAdditionalSpecFns;
use vstd::prelude::*;

verus! {

/// Errors that can happen when using the OpenVPN tunnel. Each variant that
/// comes from a failed operation carries the text of its error.
#[derive(Debug, Clone, PartialEq, Eq)]
pub enum Error {
    /// Failed to initialize the runtime.
    RuntimeError(String),
    /// Unable to start, wait for or kill the OpenVPN process.
    ChildProcessError(&'static str, String),
    /// Unable to start the event dispatcher IPC server.
    EventDispatcherError(String),
    /// The OpenVPN event dispatcher exited unexpectedly.
    EventDispatcherExited,
    /// No TAP adapter was detected.
    MissingTapAdapter,
    /// The TAP adapter seems to be disabled.
    DisabledTapAdapter,
    /// The OpenVPN process died unexpectedly.
    ChildProcessDied,
    /// The IP routing program was not found.
    IpRouteNotFound(String),
    /// The OpenVPN binary was not found at this path.
    OpenVpnNotFound(String),
    /// The OpenVPN plugin was not found at this path.
    PluginNotFound(String),
    /// Error while writing credentials to a temporary file.
    CredentialsWriteError(String),
    /// Unable to start the proxy service.
    StartProxyError(String),
    /// Error while monitoring the proxy service.
    MonitorProxyError(String),
    /// The proxy exited unexpectedly, with these details.
    ProxyExited(String),
    /// Failure in a Windows system call.
    WinnetError(String),
}

/// The operating system the daemon runs on.
#[derive(Debug, Clone, Copy, PartialEq, Eq, Structural)]
pub enum Platform {
    Linux,
    Macos,
    Windows,
    Android,
}

/// How a child process ended: whether it reported success, and its exit
/// code where it has one.
#[derive(Debug, Clone, Copy, PartialEq, Eq, Structural)]
pub struct ExitStatus {
    pub success: bool,
    pub code: Option<i32>,
}

/// Which of the two watchers of a tunnel session finished first: the child
/// process, with how waiting for it went and whether the session had been
/// closed by then, or the event dispatcher.
#[derive(Debug)]
pub enum WaitResult {
    Child(Result<ExitStatus, String>, bool),
    EventDispatcher,
}

pub const MISSING_TAP_MESSAGE: &'static str = "There are no TAP-Windows adapters on this system";

pub const DISABLED_TAP_MESSAGE: &'static str = "CreateFile failed on TAP device";

/// Whether `needle` occurs in `haystack`.
pub open spec fn occurs_in<T>(haystack: Seq<T>, needle: Seq<T>) -> bool {
    exists|i: int|
        0 <= i && i + needle.len() <= haystack.len() && #[trigger] haystack.subrange(
            i,
            i + needle.len(),
        ) == needle
}

/// Whether the log text `log` holds `message`.
pub open spec fn log_mentions(log: &str, message: &str) -> bool {
    occurs_in(log.spec_bytes(), message.spec_bytes())
}

fn bytes_occur(haystack: &[u8], needle: &[u8]) -> (r: bool)
    ensures
        r == occurs_in(haystack@, needle@),
{
    if needle.len() > haystack.len() {
        return false;
    }
    if needle.len() == 0 {
        assert(haystack@.subrange(0, 0int + needle@.len()) =~= needle@);
        return true;
    }
    let last = haystack.len() - needle.len();
    let mut i: usize = 0;
    while i <= last
        invariant
            last == haystack@.len() - needle@.len(),
            haystack@.len() <= usize::MAX,
            needle@.len() > 0,
            forall|k: int|
                0 <= k < i ==> #[trigger] haystack@.subrange(k, k + needle@.len()) != needle@,
        decreases last + 1 - i,
    {
        let mut j: usize = 0;
        while j < needle.len() && haystack[i + j] == needle[j]
            invariant
                i <= last,
                last == haystack@.len() - needle@.len(),
                haystack@.len() <= usize::MAX,
                j <= needle@.len(),
                forall|m: int| 0 <= m < j ==> haystack@[i + m] == needle@[m],
            decreases needle.len() - j,
        {
            j = j + 1;
        }
        if j == needle.len() {
            assert(haystack@.subrange(i as int, i + needle@.len()) =~= needle@);
            return true;
        }
        assert(haystack@.subrange(i as int, i + needle@.len())[j as int] != needle@[j as int]);
        i = i + 1;
    }
    proof {
        if occurs_in(haystack@, needle@) {
            let k = choose|k: int|
                0 <= k && k + needle@.len() <= haystack@.len() && #[trigger] haystack@.subrange(
                    k,
                    k + needle@.len(),
                ) == needle@;
            assert(haystack@.subrange(k, k + needle@.len()) != needle@);
        }
    }
    false
}

/// What a postmortem of a failed child finds: on Windows, a log that tells
/// of a missing or of a disabled TAP adapter says so; anything else is an
/// unexpected death.
pub open spec fn postmortem_spec(platform: Platform, log: Option<&str>) -> Error {
    match log {
        Some(text) => if platform == Platform::Windows && log_mentions(text, MISSING_TAP_MESSAGE) {
            Error::MissingTapAdapter
        } else if platform == Platform::Windows && log_mentions(text, DISABLED_TAP_MESSAGE) {
            Error::DisabledTapAdapter
        } else {
            Error::ChildProcessDied
        },
        None => Error::ChildProcessDied,
    }
}

/// Looks for a more precise cause of the child's death in its log, the
/// text of the log file where one was configured and could be read.
pub fn postmortem(platform: Platform, log: Option<&str>) -> (r: Error)
    ensures
        r == postmortem_spec(platform, log),
{
    match platform {
        Platform::Windows => match log {
            Some(text) => {
                if bytes_occur(text.as_bytes(), MISSING_TAP_MESSAGE.as_bytes()) {
                    Error::MissingTapAdapter
                } else if bytes_occur(text.as_bytes(), DISABLED_TAP_MESSAGE.as_bytes()) {
                    Error::DisabledTapAdapter
                } else {
                    Error::ChildProcessDied
                }
            },
            None => Error::ChildProcessDied,
        },
        _ => Error::ChildProcessDied,
    }
}

/// Whether `result` is a death of the child that a postmortem is to explain:
/// an unsuccessful exit of a session that was not closed.
pub open spec fn needs_postmortem_spec(result: &WaitResult) -> bool {
    match result {
        WaitResult::Child(Ok(status), closed) => !status.success && !*closed,
        _ => false,
    }
}

pub fn needs_postmortem(result: &WaitResult) -> (r: bool)
    ensures
        r == needs_postmortem_spec(result),
{
    match result {
        WaitResult::Child(Ok(status), closed) => !status.success && !*closed,
        _ => false,
    }
}

/// The outcome of a tunnel session, given which watcher finished first. An
/// exit after a close, or a successful exit, ends the session well; an
/// unexpected death is explained by `postmortem`; a failed wait and an ended
/// event dispatcher are errors.
pub open spec fn tunnel_result_spec(result: WaitResult, platform: Platform, log: Option<&str>) -> Result<(), Error> {
    match result {
        WaitResult::Child(Ok(status), closed) => if status.success || closed {
            Ok(())
        } else {
            Err(postmortem_spec(platform, log))
        },
        WaitResult::Child(Err(e), _) => Err(Error::ChildProcessError("Error when waiting", e)),
        WaitResult::EventDispatcher => Err(Error::EventDispatcherExited),
    }
}

/// Maps the first finished watcher of a tunnel session to the session's
/// result. `log` is the text of the log, which only a postmortem reads.
pub fn wait_tunnel(result: WaitResult, platform: Platform, log: Option<&str>) -> (r: Result<
    (),
    Error,
>)
    ensures
        r == tunnel_result_spec(result, platform, log),
{
    match result {
        WaitResult::Child(Ok(status), closed) => {
            if status.success || closed {
                Ok(())
            } else {
                Err(postmortem(platform, log))
            }
        },
        WaitResult::Child(Err(e), _) => Err(Error::ChildProcessError("Error when waiting", e)),
        WaitResult::EventDispatcher => Err(Error::EventDispatcherExited),
    }
}

/// How a proxy ended, where it ended by itself.
#[derive(Debug, Clone, PartialEq, Eq)]
pub enum ProxyWaitResult {
    ProperShutdown,
    UnexpectedExit(String),
}

/// Which of the tunnel and its proxy stopped first, with its result.
#[derive(Debug)]
pub enum Stopped {
    Tunnel(Result<(), Error>),
    Proxy(Result<ProxyWaitResult, String>),
}

/// The result of a session with a proxy, given which of the tunnel and the
/// proxy stopped first: the tunnel's own result, or an error, since the proxy
/// is never to exit before the tunnel.
pub fn proxied_session_result(first: Stopped) -> (r: Result<(), Error>)
    ensures
        match first {
            Stopped::Tunnel(result) => r == result,
            Stopped::Proxy(Ok(ProxyWaitResult::ProperShutdown)) => r matches Err(
                Error::ProxyExited(details),
            ) && details@ == "No details"@,
            Stopped::Proxy(Ok(ProxyWaitResult::UnexpectedExit(details))) => r == Err::<(), Error>(
                Error::ProxyExited(details),
            ),
            Stopped::Proxy(Err(e)) => r == Err::<(), Error>(Error::MonitorProxyError(e)),
        },
{
    match first {
        Stopped::Tunnel(result) => result,
        Stopped::Proxy(Ok(ProxyWaitResult::ProperShutdown)) => Err(
            Error::ProxyExited(String::from_str("No details")),
        ),
        Stopped::Proxy(Ok(ProxyWaitResult::UnexpectedExit(details))) => Err(
            Error::ProxyExited(details),
        ),
        Stopped::Proxy(Err(e)) => Err(Error::MonitorProxyError(e)),
    }
}

/// The events that the OpenVPN plugin reports, in the order of their codes.
#[derive(Debug, Clone, Copy, PartialEq, Eq, Structural)]
pub enum OpenVpnEvent {
    Up,
    Down,
    RouteUp,
    IpChange,
    TlsVerify,
    AuthUserPassVerify,
    ClientConnect,
    ClientDisconnect,
    LearnAddress,
    ClientConnectV2,
    TlsFinal,
    EnablePf,
    RoutePredown,
    ClientConnectDefer,
    ClientConnectDeferV2,
    ClientCrresponse,
}

/// The event that code `code` stands for, among the codes 0 to 15.
pub open spec fn event_of_code(code: u32) -> Option<OpenVpnEvent> {
    if code == 0 {
        Some(OpenVpnEvent::Up)
    } else if code == 1 {
        Some(OpenVpnEvent::Down)
    } else if code == 2 {
        Some(OpenVpnEvent::RouteUp)
    } else if code == 3 {
        Some(OpenVpnEvent::IpChange)
    } else if code == 4 {
        Some(OpenVpnEvent::TlsVerify)
    } else if code == 5 {
        Some(OpenVpnEvent::AuthUserPassVerify)
    } else if code == 6 {
        Some(OpenVpnEvent::ClientConnect)
    } else if code == 7 {
        Some(OpenVpnEvent::ClientDisconnect)
    } else if code == 8 {
        Some(OpenVpnEvent::LearnAddress)
    } else if code == 9 {
        Some(OpenVpnEvent::ClientConnectV2)
    } else if code == 10 {
        Some(OpenVpnEvent::TlsFinal)
    } else if code == 11 {
        Some(OpenVpnEvent::EnablePf)
    } else if code == 12 {
        Some(OpenVpnEvent::RoutePredown)
    } else if code == 13 {
        Some(OpenVpnEvent::ClientConnectDefer)
    } else if code == 14 {
        Some(OpenVpnEvent::ClientConnectDeferV2)
    } else if code == 15 {
        Some(OpenVpnEvent::ClientCrresponse)
    } else {
        None
    }
}

/// Relies on `openvpn_plugin::EventType::try_from`, derived for the
/// `repr(i32)` enum: it accepts exactly the codes of the enum's variants, 0
/// to 15, and a variant casts back to its code.
#[verifier::external_body]
fn plugin_event_code(code: u32) -> (r: Option<i32>)
    ensures
        r == (if code <= 15 {
            Some(code as i32)
        } else {
            None
        }),
{
    openvpn_plugin::EventType::try_from(code as i32).ok().map(|event| event as i32)
}

/// The plugin event with code `code`, if there is one.
pub fn decode_event(code: u32) -> (r: Option<OpenVpnEvent>)
    ensures
        r == event_of_code(code),
{
    match plugin_event_code(code) {
        Some(0) => Some(OpenVpnEvent::Up),
        Some(1) => Some(OpenVpnEvent::Down),
        Some(2) => Some(OpenVpnEvent::RouteUp),
        Some(3) => Some(OpenVpnEvent::IpChange),
        Some(4) => Some(OpenVpnEvent::TlsVerify),
        Some(5) => Some(OpenVpnEvent::AuthUserPassVerify),
        Some(6) => Some(OpenVpnEvent::ClientConnect),
        Some(7) => Some(OpenVpnEvent::ClientDisconnect),
        Some(8) => Some(OpenVpnEvent::LearnAddress),
        Some(9) => Some(OpenVpnEvent::ClientConnectV2),
        Some(10) => Some(OpenVpnEvent::TlsFinal),
        Some(11) => Some(OpenVpnEvent::EnablePf),
        Some(12) => Some(OpenVpnEvent::RoutePredown),
        Some(13) => Some(OpenVpnEvent::ClientConnectDefer),
        Some(14) => Some(OpenVpnEvent::ClientConnectDeferV2),
        Some(15) => Some(OpenVpnEvent::ClientCrresponse),
        _ => None,
    }
}

/// The answer to an event request that names no known event.
#[derive(Debug, Clone, Copy, PartialEq, Eq, Structural)]
pub enum EventStatus {
    InvalidArgument,
}

/// The service that receives the plugin's events, and hands each known one
/// to `on_event`.
pub struct OpenvpnEventProxyImpl<L> {
    pub on_event: L,
}

impl<L: Fn(OpenVpnEvent, HashMap<String, String>)> OpenvpnEventProxyImpl<L> {
    /// Handles one event request: a known event goes to the sink, once,
    /// before the request is acknowledged; an unknown code is refused
    /// without calling the sink.
    pub fn event(&self, event: u32, env: HashMap<String, String>) -> (r: Result<(), EventStatus>)
        requires
            forall|e: OpenVpnEvent, m: HashMap<String, String>| self.on_event.requires((e, m)),
        ensures
            r is Ok <==> event_of_code(event) is Some,
            r is Err ==> r == Err::<(), EventStatus>(EventStatus::InvalidArgument),
            event_of_code(event) matches Some(e) ==> call_ensures(self.on_event, (e, env), ()),
    {
        match decode_event(event) {
            Some(event_type) => {
                (self.on_event)(event_type, env);
                Ok(())
            },
            None => Err(EventStatus::InvalidArgument),
        }
    }
}

/// Time given to the OpenVPN process to stop before it is killed: Windows'
/// tunnel driver needs longer to tear down.
pub open spec fn die_timeout_spec(platform: Platform) -> u64 {
    if platform == Platform::Windows {
        30_000
    } else {
        4_000
    }
}

pub fn openvpn_die_timeout_ms(platform: Platform) -> (r: u64)
    ensures
        r == die_timeout_spec(platform),
{
    match platform {
        Platform::Windows => 30_000,
        _ => 4_000,
    }
}

pub open spec fn plugin_filename_spec(platform: Platform) -> Seq<char> {
    match platform {
        Platform::Macos => "libtalpid_openvpn_plugin.dylib"@,
        Platform::Windows => "talpid_openvpn_plugin.dll"@,
        _ => "libtalpid_openvpn_plugin.so"@,
    }
}

pub open spec fn bin_filename_spec(platform: Platform) -> Seq<char> {
    if platform == Platform::Windows {
        "openvpn.exe"@
    } else {
        "openvpn"@
    }
}

/// The file name of the OpenVPN plugin on `platform`.
pub fn plugin_filename(platform: Platform) -> (r: &'static str)
    ensures
        r@ == plugin_filename_spec(platform),
{
    match platform {
        Platform::Macos => "libtalpid_openvpn_plugin.dylib",
        Platform::Windows => "talpid_openvpn_plugin.dll",
        _ => "libtalpid_openvpn_plugin.so",
    }
}

/// The file name of the OpenVPN binary on `platform`.
pub fn openvpn_bin_filename(platform: Platform) -> (r: &'static str)
    ensures
        r@ == bin_filename_spec(platform),
{
    match platform {
        Platform::Windows => "openvpn.exe",
        _ => "openvpn",
    }
}

/// Where the event channel of a session lives: a named pipe on Windows, a
/// Unix socket elsewhere.
pub open spec fn ipc_prefix(platform: Platform) -> Seq<char> {
    if platform == Platform::Windows {
        "\\\\.\\pipe\\talpid-openvpn-"@
    } else {
        "/tmp/talpid-openvpn-"@
    }
}

/// The path of the event channel of the session `session_id`.
pub fn ipc_path(platform: Platform, session_id: &str) -> (r: String)
    ensures
        r@ == ipc_prefix(platform) + session_id@,
{
    let mut path = match platform {
        Platform::Windows => String::from_str("\\\\.\\pipe\\talpid-openvpn-"),
        _ => String::from_str("/tmp/talpid-openvpn-"),
    };
    path.append(session_id);
    path
}

pub open spec fn is_lower_hex(c: char) -> bool {
    ('0' <= c && c <= '9') || ('a' <= c && c <= 'f')
}

/// The hyphenated form of a UUID: 36 characters, lowercase hex digits with
/// hyphens at 8, 13, 18 and 23.
pub open spec fn is_hyphenated_uuid(s: Seq<char>) -> bool {
    &&& s.len() == 36
    &&& forall|i: int|
        0 <= i < 36 ==> if i == 8 || i == 13 || i == 18 || i == 23 {
            #[trigger] s[i] == '-'
        } else {
            is_lower_hex(s[i])
        }
}

/// Relies on `uuid::Builder`, which makes a random (version 4, RFC 4122)
/// UUID of the 16 bytes `random`, and on the `Display` of `Uuid`, which
/// writes the lowercase hyphenated form.
#[verifier::external_body]
fn session_id_of(random: [u8; 16]) -> (r: String)
    ensures
        is_hyphenated_uuid(r@),
{
    uuid::Builder::from_bytes(random)
        .set_variant(uuid::Variant::RFC4122)
        .set_version(uuid::Version::Random)
        .build()
        .to_string()
}

/// The event channel path of a new session, made unique by a session id
/// drawn from the 16 random bytes `random`.
pub fn new_ipc_path(platform: Platform, random: [u8; 16]) -> (r: String)
    ensures
        r@.len() == ipc_prefix(platform).len() + 36,
        r@.take(ipc_prefix(platform).len() as int) == ipc_prefix(platform),
        is_hyphenated_uuid(r@.skip(ipc_prefix(platform).len() as int)),
{
    let id = session_id_of(random);
    let r = ipc_path(platform, id.as_str());
    assert(r@.take(ipc_prefix(platform).len() as int) =~= ipc_prefix(platform));
    assert(r@.skip(ipc_prefix(platform).len() as int) =~= id@);
    r
}

/// The state of one tunnel session, from the moment its credentials files
/// are written.
pub struct SessionState {
    pub credentials_on_disk: bool,
    pub closed: bool,
    pub first: Option<WaitResult>,
    pub child_done: bool,
    pub dispatcher_done: bool,
    pub finished: bool,
}

/// One tunnel session: its credentials files, whether it was closed by the
/// user, and which of the child process and the event dispatcher ended
/// first.
pub struct TunnelSession {
    credentials_on_disk: bool,
    closed: bool,
    first: Option<WaitResult>,
    child_done: bool,
    dispatcher_done: bool,
    finished: bool,
}

impl View for TunnelSession {
    type V = SessionState;

    closed spec fn view(&self) -> SessionState {
        SessionState {
            credentials_on_disk: self.credentials_on_disk,
            closed: self.closed,
            first: self.first,
            child_done: self.child_done,
            dispatcher_done: self.dispatcher_done,
            finished: self.finished,
        }
    }
}

/// The result that a session surfaces, given which watcher ended first.
pub open spec fn session_result_spec(s: SessionState, platform: Platform, log: Option<&str>) -> Result<(), Error> {
    match s.first {
        Some(first) => tunnel_result_spec(first, platform, log),
        None => Err(Error::EventDispatcherExited),
    }
}

pub open spec fn close_spec(s: SessionState) -> SessionState {
    SessionState { closed: true, ..s }
}

pub open spec fn plugin_event_spec(s: SessionState, event: OpenVpnEvent) -> SessionState {
    SessionState {
        credentials_on_disk: s.credentials_on_disk && event != OpenVpnEvent::RouteUp,
        ..s
    }
}

pub open spec fn child_exited_spec(s: SessionState, result: Result<ExitStatus, String>) -> SessionState {
    SessionState {
        first: if s.first is Some {
            s.first
        } else {
            Some(WaitResult::Child(result, s.closed))
        },
        child_done: true,
        ..s
    }
}

pub open spec fn dispatcher_exited_spec(s: SessionState) -> SessionState {
    SessionState {
        first: if s.first is Some {
            s.first
        } else {
            Some(WaitResult::EventDispatcher)
        },
        dispatcher_done: true,
        closed: true,
        ..s
    }
}

pub open spec fn finish_spec(s: SessionState) -> SessionState {
    SessionState { credentials_on_disk: false, finished: true, first: None, ..s }
}

pub open spec fn new_session() -> SessionState {
    SessionState {
        credentials_on_disk: true,
        closed: false,
        first: None,
        child_done: false,
        dispatcher_done: false,
        finished: false,
    }
}

/// One thing that happens to a tunnel session.
pub enum SessionStep {
    Close,
    PluginEvent(OpenVpnEvent),
    ChildExited(Result<ExitStatus, String>),
    DispatcherExited,
    Finish,
}

pub open spec fn step_spec(s: SessionState, step: SessionStep) -> SessionState {
    match step {
        SessionStep::Close => close_spec(s),
        SessionStep::PluginEvent(event) => plugin_event_spec(s, event),
        SessionStep::ChildExited(result) => child_exited_spec(s, result),
        SessionStep::DispatcherExited => dispatcher_exited_spec(s),
        SessionStep::Finish => finish_spec(s),
    }
}

/// The session after `steps`, in order, from `s`.
pub open spec fn run_steps(s: SessionState, steps: Seq<SessionStep>) -> SessionState
    decreases steps.len(),
{
    if steps.len() == 0 {
        s
    } else {
        step_spec(run_steps(s, steps.drop_last()), steps.last())
    }
}

pub open spec fn removes_credentials(step: SessionStep) -> bool {
    match step {
        SessionStep::PluginEvent(OpenVpnEvent::RouteUp) => true,
        SessionStep::Finish => true,
        _ => false,
    }
}

/// The credentials files of a session stay on disk until the first
/// `RouteUp` or the end of the session, whichever comes first, and never
/// come back: after any steps that include one of those, they are gone.
pub proof fn lemma_credentials_removed(steps: Seq<SessionStep>, k: int)
    requires
        0 <= k < steps.len(),
        removes_credentials(steps[k]),
    ensures
        !run_steps(new_session(), steps).credentials_on_disk,
    decreases steps.len(),
{
    if k < steps.len() - 1 {
        lemma_credentials_removed(steps.drop_last(), k);
    }
}

/// Before any step that removes them, the credentials files are there.
pub proof fn lemma_credentials_kept(steps: Seq<SessionStep>)
    requires
        forall|k: int| 0 <= k < steps.len() ==> !removes_credentials(#[trigger] steps[k]),
    ensures
        run_steps(new_session(), steps).credentials_on_disk,
    decreases steps.len(),
{
    if steps.len() > 0 {
        assert(!removes_credentials(steps[steps.len() - 1]));
        lemma_credentials_kept(steps.drop_last());
    }
}

impl TunnelSession {
    /// A session whose credentials files have just been written.
    pub fn new() -> (r: TunnelSession)
        ensures
            r@ == new_session(),
    {
        TunnelSession {
            credentials_on_disk: true,
            closed: false,
            first: None,
            child_done: false,
            dispatcher_done: false,
            finished: false,
        }
    }

    /// Starting the event server failed before it was ready.
    pub fn event_server_failed(error: String) -> (r: Error)
        ensures
            r == Error::EventDispatcherError(error),
    {
        Error::EventDispatcherError(error)
    }

    /// Spawning the child process failed.
    pub fn spawn_failed(error: String) -> (r: Error)
        ensures
            r == Error::ChildProcessError("Failed to start", error),
    {
        Error::ChildProcessError("Failed to start", error)
    }

    /// The user closes the session: only the first close kills the child.
    pub fn close(&mut self) -> (kill: bool)
        ensures
            kill == !old(self)@.closed,
            final(self)@ == close_spec(old(self)@),
    {
        let kill = !self.closed;
        self.closed = true;
        kill
    }

    /// The plugin reported `event`. The first `RouteUp` means that OpenVPN
    /// has read the credentials: they are to be removed at once.
    pub fn plugin_event(&mut self, event: OpenVpnEvent) -> (remove_credentials: bool)
        ensures
            remove_credentials == (event == OpenVpnEvent::RouteUp
                && old(self)@.credentials_on_disk),
            final(self)@ == plugin_event_spec(old(self)@, event),
    {
        let remove = match event {
            OpenVpnEvent::RouteUp => self.credentials_on_disk,
            _ => false,
        };
        if remove {
            self.credentials_on_disk = false;
        }
        remove
    }

    /// The child process ended, with `result`. Where it ends first, the
    /// session's outcome is its result together with whether the session had
    /// been closed. The event server is to be stopped.
    pub fn child_exited(&mut self, result: Result<ExitStatus, String>)
        ensures
            final(self)@ == child_exited_spec(old(self)@, result),
    {
        if self.first.is_none() {
            self.first = Some(WaitResult::Child(result, self.closed));
        }
        self.child_done = true;
    }

    /// The event dispatcher ended. Where it ends first, that is the
    /// session's outcome. The session is closed, and the child is to be
    /// killed unless it was closed before.
    pub fn dispatcher_exited(&mut self) -> (kill: bool)
        ensures
            kill == !old(self)@.closed,
            final(self)@ == dispatcher_exited_spec(old(self)@),
    {
        if self.first.is_none() {
            self.first = Some(WaitResult::EventDispatcher);
        }
        self.dispatcher_done = true;
        self.close()
    }

    /// Whether the outcome calls for a postmortem, which reads the log.
    pub fn needs_postmortem(&self) -> (r: bool)
        ensures
            r == match self@.first {
                Some(first) => needs_postmortem_spec(&first),
                None => false,
            },
    {
        match &self.first {
            Some(first) => needs_postmortem(first),
            None => false,
        }
    }

    /// Ends the session once both watchers are done: the credentials files
    /// that are still there are to be removed, and the outcome of the watcher
    /// that ended first is surfaced, once.
    pub fn finish(&mut self, platform: Platform, log: Option<&str>) -> (r: (bool, Result<(), Error>))
        requires
            old(self)@.child_done,
            old(self)@.dispatcher_done,
            !old(self)@.finished,
        ensures
            r.0 == old(self)@.credentials_on_disk,
            r.1 == session_result_spec(old(self)@, platform, log),
            final(self)@ == finish_spec(old(self)@),
    {
        let remove = self.credentials_on_disk;
        self.credentials_on_disk = false;
        self.finished = true;
        let first = self.first.take();
        let result = match first {
            Some(first) => wait_tunnel(first, platform, log),
            None => Err(Error::EventDispatcherExited),
        };
        (remove, result)
    }
}

pub open spec fn separator(platform: Platform) -> char {
    if platform == Platform::Windows {
        '\\'
    } else {
        '/'
    }
}

pub open spec fn is_separator(platform: Platform, c: char) -> bool {
    c == '/' || (platform == Platform::Windows && c == '\\')
}

/// `name` in the directory `dir`: a separator goes between them unless
/// `dir` is empty or already ends in one.
pub open spec fn join_path_spec(platform: Platform, dir: Seq<char>, name: Seq<char>) -> Seq<char> {
    if dir.len() == 0 || is_separator(platform, dir.last()) {
        dir + name
    } else {
        dir.push(separator(platform)) + name
    }
}

/// The path of `name` in the directory `dir`.
pub fn join_path(platform: Platform, dir: &str, name: &str) -> (r: String)
    ensures
        r@ == join_path_spec(platform, dir@, name@),
{
    let len = dir.unicode_len();
    let mut path = dir.to_owned();
    let ends_in_separator = if len == 0 {
        true
    } else {
        let c = dir.get_char(len - 1);
        proof {
            assert(dir@.last() == dir@[len - 1]);
        }
        match platform {
            Platform::Windows => c == '/' || c == '\\',
            _ => c == '/',
        }
    };
    if !ends_in_separator {
        match platform {
            Platform::Windows => {
                proof {
                    reveal_strlit("\\");
                }
                path.append("\\");
            },
            _ => {
                proof {
                    reveal_strlit("/");
                }
                path.append("/");
            },
        }
    }
    path.append(name);
    assert(path@ =~= join_path_spec(platform, dir@, name@));
    path
}

/// The path of the OpenVPN plugin in `resource_dir`, where `exists` says
/// that it is there.
pub fn plugin_path(platform: Platform, resource_dir: &str, exists: bool) -> (r: Result<String, Error>)
    ensures
        exists ==> (r matches Ok(p) && p@ == join_path_spec(
            platform,
            resource_dir@,
            plugin_filename_spec(platform),
        )),
        !exists ==> (r matches Err(Error::PluginNotFound(p)) && p@ == join_path_spec(
            platform,
            resource_dir@,
            plugin_filename_spec(platform),
        )),
{
    let path = join_path(platform, resource_dir, plugin_filename(platform));
    if exists {
        Ok(path)
    } else {
        Err(Error::PluginNotFound(path))
    }
}

/// The transport protocol of a tunnel.
#[derive(Debug, Clone, Copy, PartialEq, Eq, Structural)]
pub enum TransportProtocol {
    Udp,
    Tcp,
}

/// An address and a port.
#[derive(Debug, Clone, Copy, PartialEq, Eq, Structural)]
pub struct SocketAddress {
    pub address: IpAddress,
    pub port: u16,
}

/// The remote end of a tunnel.
#[derive(Debug, Clone, Copy, PartialEq, Eq, Structural)]
pub struct Endpoint {
    pub address: SocketAddress,
    pub protocol: TransportProtocol,
}

/// Options of the OpenVPN tunnel itself.
#[derive(Debug, Clone, Copy, PartialEq, Eq, Structural)]
pub struct TunnelOptions {
    pub mssfix: Option<u16>,
}

/// Credentials for a remote proxy.
#[derive(Debug, Clone, PartialEq, Eq)]
pub struct ProxyAuth {
    pub username: String,
    pub password: String,
}

/// The proxy a tunnel goes through.
#[derive(Debug, Clone, PartialEq, Eq)]
pub enum ProxySettings {
    /// A proxy on this machine, listening on `port`, that reaches `peer`.
    Local { port: u16, peer: SocketAddress },
    /// A remote proxy, with its credentials where it needs them.
    Remote { address: SocketAddress, auth: Option<ProxyAuth> },
    /// A Shadowsocks proxy that this machine runs.
    Shadowsocks { peer: SocketAddress, password: String, cipher: String },
}

/// What a tunnel session is started from.
#[derive(Debug, Clone, PartialEq, Eq)]
pub struct TunnelParams {
    pub endpoint: Endpoint,
    pub username: String,
    pub password: String,
    pub options: TunnelOptions,
    pub enable_ipv6: bool,
    pub proxy: Option<ProxySettings>,
}

/// The OpenVPN command line, as settings.
#[derive(Debug, Clone, PartialEq, Eq)]
pub struct OpenVpnArgs {
    pub binary: String,
    pub config: Option<String>,
    pub iproute_bin: Option<String>,
    pub remote: Endpoint,
    pub user_pass: String,
    pub tunnel_options: TunnelOptions,
    pub enable_ipv6: bool,
    pub ca: String,
    pub tunnel_alias: Option<String>,
    pub proxy: Option<ProxySettings>,
    pub proxy_auth: Option<String>,
    pub proxy_port: Option<u16>,
}

pub open spec fn text_of(o: Option<String>) -> Option<Seq<char>> {
    match o {
        Some(s) => Some(s@),
        None => None,
    }
}

pub open spec fn str_text(o: Option<&str>) -> Option<Seq<char>> {
    match o {
        Some(s) => Some(s@),
        None => None,
    }
}

/// The value a lookup found, if it found one.
pub open spec fn found(lookup: Option<Result<String, String>>) -> Option<String> {
    match lookup {
        Some(Ok(value)) => Some(value),
        _ => None,
    }
}

/// Whether a lookup that `platform` needs failed or was not made.
pub open spec fn lookup_failed(needed: bool, lookup: Option<Result<String, String>>) -> bool {
    needed && !(lookup matches Some(Ok(_)))
}

/// The error text for a lookup that was not made.
pub open spec fn not_looked_up() -> Seq<char> {
    "not looked up"@
}

/// The credentials of the proxy, where it is a remote proxy that needs
/// them; they go to a file of their own.
pub fn proxy_auth(proxy: &Option<ProxySettings>) -> (r: Option<&ProxyAuth>)
    ensures
        r == match proxy {
            Some(ProxySettings::Remote { auth: Some(auth), .. }) => Some(auth),
            _ => None::<&ProxyAuth>,
        },
{
    match proxy {
        Some(ProxySettings::Remote { auth: Some(auth), .. }) => Some(auth),
        _ => None,
    }
}

/// Assembles the OpenVPN command for a session. `bin_exists` and
/// `config_exists` say whether the binary and the configuration file are in
/// `resource_dir`; `ip_bin` is where the `ip` tool was found (looked up on
/// Linux) and `tap_alias` the TAP adapter's alias (looked up on Windows).
pub fn openvpn_command(
    platform: Platform,
    resource_dir: &str,
    bin_exists: bool,
    config_exists: bool,
    ip_bin: Option<Result<String, String>>,
    tap_alias: Option<Result<String, String>>,
    params: TunnelParams,
    user_pass_file: &str,
    proxy_auth_file: Option<&str>,
    proxy_port: Option<u16>,
) -> (r: Result<OpenVpnArgs, Error>)
    ensures
        !bin_exists ==> (r matches Err(Error::OpenVpnNotFound(p)) && p@ == join_path_spec(
            platform,
            resource_dir@,
            bin_filename_spec(platform),
        )),
        bin_exists && platform == Platform::Linux ==> match ip_bin {
            Some(Err(e)) => r == Err::<OpenVpnArgs, Error>(Error::IpRouteNotFound(e)),
            None => r matches Err(Error::IpRouteNotFound(e)) && e@ == not_looked_up(),
            _ => true,
        },
        bin_exists && platform == Platform::Windows ==> match tap_alias {
            Some(Err(e)) => r == Err::<OpenVpnArgs, Error>(Error::WinnetError(e)),
            None => r matches Err(Error::WinnetError(e)) && e@ == not_looked_up(),
            _ => true,
        },
        r is Ok <==> bin_exists && !lookup_failed(platform == Platform::Linux, ip_bin)
            && !lookup_failed(platform == Platform::Windows, tap_alias),
        match r {
            Err(_) => true,
            Ok(args) => {
            &&& args.binary@ == join_path_spec(platform, resource_dir@, bin_filename_spec(platform))
            &&& text_of(args.config) == (if config_exists {
                Some(join_path_spec(platform, resource_dir@, "openvpn.conf"@))
            } else {
                None
            })
            &&& args.iproute_bin == (if platform == Platform::Linux {
                found(ip_bin)
            } else {
                None
            })
            &&& args.remote == params.endpoint
            &&& args.user_pass@ == user_pass_file@
            &&& args.tunnel_options == params.options
            &&& args.enable_ipv6 == params.enable_ipv6
            &&& args.ca@ == join_path_spec(platform, resource_dir@, "ca.crt"@)
            &&& args.tunnel_alias == (if platform == Platform::Windows {
                found(tap_alias)
            } else {
                None
            })
            &&& args.proxy == params.proxy
            &&& text_of(args.proxy_auth) == str_text(proxy_auth_file)
            &&& args.proxy_port == proxy_port
            },
        },
{
    let binary = join_path(platform, resource_dir, openvpn_bin_filename(platform));
    if !bin_exists {
        return Err(Error::OpenVpnNotFound(binary));
    }
    let config = if config_exists {
        Some(join_path(platform, resource_dir, "openvpn.conf"))
    } else {
        None
    };
    let iproute_bin = match platform {
        Platform::Linux => match ip_bin {
            Some(Ok(path)) => Some(path),
            Some(Err(e)) => return Err(Error::IpRouteNotFound(e)),
            None => return Err(Error::IpRouteNotFound(String::from_str("not looked up"))),
        },
        _ => None,
    };
    let tunnel_alias = match platform {
        Platform::Windows => match tap_alias {
            Some(Ok(alias)) => Some(alias),
            Some(Err(e)) => return Err(Error::WinnetError(e)),
            None => return Err(Error::WinnetError(String::from_str("not looked up"))),
        },
        _ => None,
    };
    let proxy_auth = match proxy_auth_file {
        Some(file) => Some(file.to_owned()),
        None => None,
    };
    Ok(OpenVpnArgs {
        binary,
        config,
        iproute_bin,
        remote: params.endpoint,
        user_pass: user_pass_file.to_owned(),
        tunnel_options: params.options,
        enable_ipv6: params.enable_ipv6,
        ca: join_path(platform, resource_dir, "ca.crt"),
        tunnel_alias,
        proxy: params.proxy,
        proxy_auth,
        proxy_port,
    })
}

} // verus!
