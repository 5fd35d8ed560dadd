//! The process supervisor: a single backend server's lifecycle.
//!
//! The supervisor owns the configuration (port, language) and the process
//! slot, the sole source of truth for "is running". Operations that need the
//! operating system — polling a child for liveness, spawning, signalling,
//! connecting to a port — are performed by the hosting application, which
//! passes the observed outcome into the transition functions here and carries
//! out the actions they return.

use vstd::prelude::*;

use crate::decimal::{decimal_chars, decimal_string};

verus! {

/// What a non-blocking liveness poll of the child process reported.
#[derive(Clone, Copy, Debug, PartialEq, Eq, Structural)]
pub enum Liveness {
    /// The process has not exited yet.
    Alive,
    /// The process has already exited.
    Exited,
    /// The poll itself failed; treated conservatively as not running.
    PollFailed,
}

/// Why a start could not complete.
#[derive(Debug)]
pub enum StartError {
    /// A live process already occupies the slot.
    AlreadyRunning,
    /// No usable interpreter was resolved.
    InterpreterNotFound,
    /// Process creation failed; carries the reason reported by the system.
    SpawnFailed(String),
}

/// The supervisor's state, as contracts speak of it.
pub ghost struct SupervisorModel {
    /// Configured port.
    pub port: u16,
    /// Configured language tag.
    pub language: Seq<char>,
    /// The process slot: the identifier of the supervised process, if any.
    pub handle: Option<u32>,
}

/// The supervisor: configuration plus the singleton process slot.
pub struct Supervisor {
    port: u16,
    language: String,
    handle: Option<u32>,
}

impl View for Supervisor {
    type V = SupervisorModel;

    closed spec fn view(&self) -> SupervisorModel {
        SupervisorModel { port: self.port, language: self.language@, handle: self.handle }
    }
}

/// The initial state: default port, default language, empty slot.
pub open spec fn spec_init() -> SupervisorModel {
    SupervisorModel { port: 8765, language: "en"@, handle: None }
}

/// Whether the supervisor counts as running: a handle occupies the slot and
/// the liveness poll reported the process still alive. An exited process or
/// a failed poll both count as not running.
pub open spec fn spec_running(m: SupervisorModel, poll: Liveness) -> bool {
    m.handle is Some && poll is Alive
}

/// Changing the language leaves port and slot untouched.
pub open spec fn spec_set_language(m: SupervisorModel, language: Seq<char>) -> SupervisorModel {
    SupervisorModel { language, ..m }
}

/// What a read of the language returns.
pub open spec fn spec_get_language(m: SupervisorModel) -> Seq<char> {
    m.language
}

/// The guard of a start: when not running, the configuration is overwritten
/// and a stale handle (one whose process exited) is cleared; when running,
/// nothing changes.
pub open spec fn spec_begin_start(
    m: SupervisorModel,
    port: u16,
    language: Seq<char>,
    poll: Liveness,
) -> SupervisorModel {
    if spec_running(m, poll) {
        m
    } else {
        SupervisorModel { port, language, handle: None }
    }
}

/// Recording a successful spawn: the new process occupies the slot.
pub open spec fn spec_commit_spawn(m: SupervisorModel, pid: u32) -> SupervisorModel {
    SupervisorModel { handle: Some(pid), ..m }
}

/// A stop empties the slot and leaves the configuration alone.
pub open spec fn spec_stop(m: SupervisorModel) -> SupervisorModel {
    SupervisorModel { handle: None, ..m }
}

/// The base URL the hosting application points at: the backend serves HTTP
/// one above the configured port.
pub open spec fn url_chars(port: u16) -> Seq<char> {
    "http://127.0.0.1:"@ + decimal_chars((port + 1) as nat)
}

/// The descriptive message of each start failure.
pub open spec fn start_error_chars(e: StartError) -> Seq<char> {
    match e {
        StartError::AlreadyRunning => "Server is already running"@,
        StartError::InterpreterNotFound => "Python not found"@,
        StartError::SpawnFailed(detail) => "Failed to spawn Python process: "@ + detail@,
    }
}

/// The message a failed restart reports: the start failure, wrapped.
pub open spec fn restart_failure_chars(e: StartError) -> Seq<char> {
    "Failed to restart server: "@ + start_error_chars(e)
}

/// Upper bound on readiness attempts (one per second).
pub const MAX_READY_ATTEMPTS: u32 = 30;

/// Spacing between readiness attempts, in milliseconds.
pub const READY_POLL_INTERVAL_MILLIS: u64 = 1000;

/// Timeout of one readiness connection attempt, in milliseconds.
pub const READY_CONNECT_TIMEOUT_MILLIS: u64 = 500;

/// Grace period between the stop and the start of a restart, in
/// milliseconds.
pub const RESTART_GRACE_MILLIS: u64 = 500;

/// What the readiness poll loop does after one connection attempt.
#[derive(Clone, Copy, Debug, PartialEq, Eq, Structural)]
pub enum ReadyPoll {
    /// A listener accepted the connection: the backend is ready.
    Confirmed,
    /// Not ready yet; wait one interval and try again.
    Retry,
    /// All attempts exhausted: give up polling, but the start still
    /// succeeds; the unconfirmed readiness is only worth a warning.
    Unconfirmed,
}

/// The decision after readiness attempt number `attempt` (counted from 1)
/// observed `connected`.
pub open spec fn spec_ready_poll(attempt: u32, connected: bool) -> ReadyPoll {
    if connected {
        ReadyPoll::Confirmed
    } else if attempt < MAX_READY_ATTEMPTS {
        ReadyPoll::Retry
    } else {
        ReadyPoll::Unconfirmed
    }
}

impl StartError {
    /// The descriptive string reported to callers, as the command surface
    /// returns it.
    pub fn message(&self) -> (m: String)
        ensures
            m@ == start_error_chars(*self),
    {
        match self {
            StartError::AlreadyRunning => String::from_str("Server is already running"),
            StartError::InterpreterNotFound => String::from_str("Python not found"),
            StartError::SpawnFailed(detail) => {
                let mut m = String::from_str("Failed to spawn Python process: ");
                m.append(detail.as_str());
                m
            },
        }
    }
}

/// The status record handed to the hosting application.
pub struct ServerStatus {
    pub running: bool,
    pub port: u16,
    pub url: String,
}

impl Supervisor {
    /// Ports must leave room for the HTTP port one above.
    pub open spec fn wf(&self) -> bool {
        self@.port < 65535
    }

    /// A fresh supervisor: nothing running, default configuration.
    pub fn new() -> (s: Supervisor)
        ensures
            s@ == spec_init(),
            s.wf(),
    {
        Supervisor { port: 8765, language: String::from_str("en"), handle: None }
    }

    /// Whether the supervised process is running, given what a liveness
    /// poll of the slot's occupant just reported. With an empty slot the
    /// answer is false whatever `poll` says.
    pub fn is_server_running(&self, poll: Liveness) -> (r: bool)
        ensures
            r == spec_running(self@, poll),
    {
        match poll {
            Liveness::Alive => self.handle.is_some(),
            _ => false,
        }
    }

    /// The configured port.
    pub fn get_server_port(&self) -> (p: u16)
        ensures
            p == self@.port,
    {
        self.port
    }

    /// The configured language tag.
    pub fn get_language(&self) -> (language: String)
        ensures
            language@ == spec_get_language(self@),
    {
        self.language.clone()
    }

    /// Set the language tag. Takes effect on the next launch only; the
    /// port and the process slot are untouched.
    pub fn set_language(&mut self, language: &str)
        ensures
            final(self)@ == spec_set_language(old(self)@, language@),
            old(self).wf() ==> final(self).wf(),
    {
        self.language = language.to_owned();
    }

    /// The status record: liveness verdict, configured port, and the URL
    /// of the backend's HTTP listener.
    pub fn get_server_status(&self, poll: Liveness) -> (status: ServerStatus)
        requires
            self.wf(),
        ensures
            status.running == spec_running(self@, poll),
            status.port == self@.port,
            status.url@ == url_chars(self@.port),
    {
        let running = self.is_server_running(poll);
        let url = server_url(self.port);
        ServerStatus { running, port: self.port, url }
    }

    /// The guard of a start. Fails with `AlreadyRunning` — and changes
    /// nothing — when the slot's occupant was polled alive. Otherwise
    /// overwrites the configuration (kept even if a later step of the
    /// start fails) and clears any stale handle from the slot.
    pub fn begin_start(&mut self, port: u16, language: &str, poll: Liveness) -> (r: Result<
        (),
        StartError,
    >)
        requires
            port < 65535,
        ensures
            final(self)@ == spec_begin_start(old(self)@, port, language@, poll),
            r is Ok <==> !spec_running(old(self)@, poll),
            r matches Err(e) ==> e is AlreadyRunning,
            old(self).wf() || r is Ok ==> final(self).wf(),
    {
        if self.is_server_running(poll) {
            return Err(StartError::AlreadyRunning);
        }
        self.port = port;
        self.language = language.to_owned();
        self.handle = None;
        Ok(())
    }

    /// Record the outcome of the spawn the start attempted. A created
    /// process occupies the slot; a failed creation changes nothing and
    /// reports `SpawnFailed` with the system's reason.
    pub fn complete_start(&mut self, spawn: Result<u32, String>) -> (r: Result<(), StartError>)
        ensures
            spawn matches Ok(pid) ==> (final(self)@ == spec_commit_spawn(old(self)@, pid) && r is Ok),
            spawn matches Err(detail) ==> (final(self)@ == old(self)@ && (r matches Err(e) && (e
                matches StartError::SpawnFailed(d) && d == detail))),
            old(self).wf() ==> final(self).wf(),
    {
        match spawn {
            Ok(pid) => {
                self.handle = Some(pid);
                Ok(())
            },
            Err(detail) => Err(StartError::SpawnFailed(detail)),
        }
    }

    /// A stop: empty the slot and hand back the occupant, if any, for the
    /// caller to terminate and wait on. On an empty slot this is a no-op,
    /// and it never reports an error either way.
    pub fn stop_server(&mut self) -> (terminated: Option<u32>)
        ensures
            final(self)@ == spec_stop(old(self)@),
            terminated == old(self)@.handle,
            old(self).wf() ==> final(self).wf(),
    {
        let taken = self.handle;
        self.handle = None;
        taken
    }
}

/// The URL of the backend's HTTP listener for a configured port.
pub fn server_url(port: u16) -> (s: String)
    requires
        port < 65535,
    ensures
        s@ == url_chars(port),
{
    let mut s = String::from_str("http://127.0.0.1:");
    let digits = decimal_string(port as u64 + 1);
    s.append(digits.as_str());
    s
}

/// The HTTP port the backend binds: one above the configured port.
pub fn ready_check_port(port: u16) -> (r: u16)
    requires
        port < 65535,
    ensures
        r == port + 1,
{
    port + 1
}

/// The loopback address a readiness attempt connects to, for a given HTTP
/// port.
pub open spec fn probe_address_chars(port: u16) -> Seq<char> {
    "127.0.0.1:"@ + decimal_chars(port as nat)
}

/// Render the loopback address for one readiness connection attempt.
pub fn probe_address(port: u16) -> (s: String)
    ensures
        s@ == probe_address_chars(port),
{
    let mut s = String::from_str("127.0.0.1:");
    let digits = decimal_string(port as u64);
    s.append(digits.as_str());
    s
}

/// Decide what the readiness loop does after attempt `attempt` (counted
/// from 1) observed connection outcome `connected`.
pub fn ready_poll_step(attempt: u32, connected: bool) -> (r: ReadyPoll)
    requires
        1 <= attempt && attempt <= MAX_READY_ATTEMPTS,
    ensures
        r == spec_ready_poll(attempt, connected),
{
    if connected {
        ReadyPoll::Confirmed
    } else if attempt < MAX_READY_ATTEMPTS {
        ReadyPoll::Retry
    } else {
        ReadyPoll::Unconfirmed
    }
}

/// The argument vector of the backend's invocation: the entry module, then
/// the port and language flags, exactly as launch uses them.
pub fn spawn_args(port: u16, language: &str) -> (args: Vec<String>)
    ensures
        args@.len() == 6,
        args@[0]@ == "-m"@,
        args@[1]@ == "streamware.voice_shell_server"@,
        args@[2]@ == "--port"@,
        args@[3]@ == decimal_chars(port as nat),
        args@[4]@ == "--lang"@,
        args@[5]@ == language@,
{
    let mut args: Vec<String> = Vec::new();
    args.push(String::from_str("-m"));
    args.push(String::from_str("streamware.voice_shell_server"));
    args.push(String::from_str("--port"));
    args.push(decimal_string(port as u64));
    args.push(String::from_str("--lang"));
    args.push(language.to_owned());
    args
}

/// The string a restart reports: the fixed success message, or the start's
/// failure wrapped in the restart failure message.
pub fn restart_report(start_result: Result<(), StartError>) -> (r: Result<String, String>)
    ensures
        start_result is Ok ==> (r matches Ok(m) && m@ == "Server restarted successfully"@),
        start_result matches Err(e) ==> (r matches Err(m) && m@ == restart_failure_chars(e)),
{
    match start_result {
        Ok(()) => Ok(String::from_str("Server restarted successfully")),
        Err(e) => {
            let mut m = String::from_str("Failed to restart server: ");
            let detail = e.message();
            m.append(detail.as_str());
            Err(m)
        },
    }
}

/// The confirmation string a language change reports.
pub fn set_language_message(language: &str) -> (m: String)
    ensures
        m@ == "Language set to: "@ + language@,
{
    let mut m = String::from_str("Language set to: ");
    m.append(language);
    m
}

/// The application's static version string.
pub fn get_app_version() -> (v: String)
    ensures
        v@ == "0.1.0"@,
{
    String::from_str("0.1.0")
}

/// Before any start — in any state whose process slot is empty — the
/// supervisor reports not running, whatever a liveness poll says.
pub proof fn lemma_empty_slot_not_running(m: SupervisorModel, poll: Liveness)
    requires
        m.handle is None,
    ensures
        !spec_running(m, poll),
{
}

/// A successful start — the liveness guard passed, then the spawned process
/// recorded — leaves the supervisor running under exactly the requested
/// configuration, with the status URL derived from the requested port.
pub proof fn lemma_start_success(
    m: SupervisorModel,
    port: u16,
    language: Seq<char>,
    poll: Liveness,
    pid: u32,
)
    requires
        !spec_running(m, poll),
    ensures
        ({
            let started = spec_commit_spawn(spec_begin_start(m, port, language, poll), pid);
            &&& spec_running(started, Liveness::Alive)
            &&& started.port == port
            &&& started.language == language
            &&& url_chars(started.port) == "http://127.0.0.1:"@ + decimal_chars((port + 1) as nat)
        }),
{
}

/// Stopping a supervisor whose slot is already empty changes nothing: the
/// stop is a no-op (and it reports no error in any case).
pub proof fn lemma_stop_idle_noop(m: SupervisorModel)
    requires
        m.handle is None,
    ensures
        spec_stop(m) == m,
{
}

/// After a stop completes the supervisor reports not running, whatever a
/// later liveness poll says.
pub proof fn lemma_stop_not_running(m: SupervisorModel, poll: Liveness)
    ensures
        !spec_running(spec_stop(m), poll),
{
}

/// A restart — stop, grace delay, then a fresh start — always passes the
/// start's liveness guard, and ends, on a successful spawn, running under
/// the new configuration, whatever configuration the prior process used.
pub proof fn lemma_restart_success(
    m: SupervisorModel,
    port: u16,
    language: Seq<char>,
    poll: Liveness,
    pid: u32,
)
    ensures
        ({
            let stopped = spec_stop(m);
            let started = spec_commit_spawn(spec_begin_start(stopped, port, language, poll), pid);
            &&& !spec_running(stopped, poll)
            &&& spec_running(started, Liveness::Alive)
            &&& started.port == port
            &&& started.language == language
        }),
{
}

/// Setting the language is visible to the very next read, and touches
/// neither the port nor the process slot.
pub proof fn lemma_set_then_get_language(m: SupervisorModel, language: Seq<char>)
    ensures
        spec_get_language(spec_set_language(m, language)) == language,
        spec_set_language(m, language).handle == m.handle,
        spec_set_language(m, language).port == m.port,
{
}

} // verus!
