//! The background daemon: the requests it takes over its socket and how it
//! answers them, the file that records its process id, the status report,
//! and the decisions around starting and stopping it.
use vstd::prelude::*;
use vstd::utf8::{decode_utf8, encode_utf8, valid_utf8};
use crate::config::Config;
use crate::number::{lemma_parse_signed_decimal, parse_i32, parse_i32_spec, signed_decimal, signed_decimal_string};
use crate::text::{
    lemma_trim_unchanged, spec_is_whitespace, str_eq, strip_prefix, strip_prefix_str,
    string_from_utf8_lossy, trim, trim_str, utf8_lossy,
};

verus! {

/// The text of a request as the daemon reads it from the bytes it received:
/// decoded as UTF-8 (invalid sequences replaced) and trimmed.
pub open spec fn request_text(received: Seq<u8>) -> Seq<char> {
    if valid_utf8(received) {
        trim(decode_utf8(received))
    } else {
        trim(utf8_lossy(received))
    }
}

/// The request that asks the daemon to stop.
pub open spec fn stop_request_spec() -> Seq<char> {
    "stop"@
}

/// The request that asks the daemon to serve the model `name`.
pub open spec fn switch_request_spec(name: Seq<char>) -> Seq<char> {
    "switch "@ + name
}

/// The model that a request text asks to switch to, if it is a switch
/// request.
pub open spec fn switch_target(text: Seq<char>) -> Option<Seq<char>> {
    if text == stop_request_spec() {
        None
    } else {
        strip_prefix(text, "switch "@)
    }
}

/// A request to the daemon.
pub enum DaemonRequest {
    /// Stop the server and the daemon.
    Stop,
    /// Serve the named model in place of the current one.
    Switch(String),
    /// Anything else.
    Unknown,
}

/// The request to stop the daemon, as the client sends it.
pub fn stop_request() -> (r: String)
    ensures
        r@ == stop_request_spec(),
{
    String::from_str("stop")
}

/// The request to switch the daemon to the model `name`, as the client sends it.
pub fn switch_request(name: &str) -> (r: String)
    ensures
        r@ == switch_request_spec(name@),
{
    let mut r = String::from_str("switch ");
    r.append(name);
    r
}

/// Reads the request in the bytes that the daemon received.
pub fn parse_request(received: &[u8]) -> (r: DaemonRequest)
    ensures
        ({
            let text = request_text(received@);
            match r {
                DaemonRequest::Stop => text == stop_request_spec(),
                DaemonRequest::Switch(name) => switch_target(text) == Some(name@),
                DaemonRequest::Unknown => text != stop_request_spec() && switch_target(text) is None,
            }
        }),
{
    let decoded = string_from_utf8_lossy(received);
    let text = trim_str(decoded.as_str());
    if str_eq(text.as_str(), "stop") {
        DaemonRequest::Stop
    } else {
        match strip_prefix_str(text.as_str(), "switch ") {
            Some(name) => DaemonRequest::Switch(name),
            None => DaemonRequest::Unknown,
        }
    }
}

/// A request sent as the client sends it is read back by the daemon as the
/// same request: `stop` as a stop, and `switch` with a model name as a switch
/// to that very name, for any name that is not empty and does not end in
/// white space.
pub proof fn lemma_requests_read_back(name: Seq<char>)
    requires
        name.len() > 0,
        !spec_is_whitespace(name.last()),
    ensures
        request_text(encode_utf8(stop_request_spec())) == stop_request_spec(),
        switch_target(request_text(encode_utf8(switch_request_spec(name)))) == Some(name),
{
    broadcast use vstd::utf8::group_utf8_lib;

    reveal_strlit("stop");
    reveal_strlit("switch ");
    let stop = stop_request_spec();
    lemma_trim_unchanged(stop);
    let sw = switch_request_spec(name);
    assert(sw[0] == 's');
    assert(sw.last() == name.last());
    lemma_trim_unchanged(sw);
    assert(sw.len() != stop.len());
    assert(sw.subrange(0, 7) =~= "switch "@);
    assert(sw.subrange(7, sw.len() as int) =~= name);
}

/// What the daemon keeps between requests: the model it serves.
pub struct DaemonState {
    pub current_model: String,
}

/// What the daemon does for a request.
pub enum DaemonAction {
    /// Nothing was received: do nothing.
    Ignore,
    /// Send this answer and go on as before.
    Reply(String),
    /// Send this answer, stop the running server, start one for `model`
    /// and record `model` as the current one.
    Switch { model: String, reply: String },
    /// Send this answer, stop the running server, remove the process id
    /// file and the socket, and exit.
    Shutdown { reply: String },
}

/// The answer to a switch to a configured model.
pub open spec fn switching_reply(name: Seq<char>) -> Seq<char> {
    "Switching to "@ + name + ", loading...\n"@
}

/// The answer to a switch to a model that is not configured.
pub open spec fn unknown_model_reply(name: Seq<char>) -> Seq<char> {
    "Error: model '"@ + name + "' not found\n"@
}

/// The answer to a stop.
pub open spec fn stopping_reply() -> Seq<char> {
    "Stopping daemon...\n"@
}

/// The answer to anything else.
pub open spec fn unknown_command_reply() -> Seq<char> {
    "Unknown command\n"@
}

/// The outcome of a request as the daemon handles it, given the text of the
/// request and the configuration: the answer it sends and the model it
/// switches to, if any (`None` for the answer where nothing was received).
pub open spec fn handle_spec(config: Config, received: Seq<u8>) -> (Option<Seq<char>>, Option<Seq<char>>) {
    let text = request_text(received);
    if received.len() == 0 {
        (None, None)
    } else if text == stop_request_spec() {
        (Some(stopping_reply()), None)
    } else {
        match switch_target(text) {
            Some(name) => if config.has_model(name) {
                (Some(switching_reply(name)), Some(name))
            } else {
                (Some(unknown_model_reply(name)), None)
            },
            None => (Some(unknown_command_reply()), None),
        }
    }
}

impl DaemonState {
    /// Handles one request, the bytes the daemon received from a client:
    /// says what to do, and records the model it switches to.
    pub fn handle(&mut self, config: &Config, received: &[u8]) -> (r: DaemonAction)
        ensures
            ({
                let (reply, switched) = handle_spec(*config, received@);
                &&& match r {
                    DaemonAction::Ignore => reply is None,
                    DaemonAction::Reply(text) => reply == Some(text@) && switched is None
                        && request_text(received@) != stop_request_spec(),
                    DaemonAction::Switch { model, reply: text } => reply == Some(text@)
                        && switched == Some(model@),
                    DaemonAction::Shutdown { reply: text } => reply == Some(text@)
                        && request_text(received@) == stop_request_spec(),
                }
                &&& final(self).current_model@ == match switched {
                    Some(name) => name,
                    None => old(self).current_model@,
                }
            }),
            config.has_model(old(self).current_model@) ==> config.has_model(
                final(self).current_model@,
            ),
    {
        if received.len() == 0 {
            return DaemonAction::Ignore;
        }
        match parse_request(received) {
            DaemonRequest::Stop => DaemonAction::Shutdown { reply: String::from_str("Stopping daemon...\n") },
            DaemonRequest::Switch(name) => {
                if config.contains_model(name.as_str()) {
                    let mut reply = String::from_str("Switching to ");
                    reply.append(name.as_str());
                    reply.append(", loading...\n");
                    self.current_model = name.clone();
                    DaemonAction::Switch { model: name, reply }
                } else {
                    let mut reply = String::from_str("Error: model '");
                    reply.append(name.as_str());
                    reply.append("' not found\n");
                    DaemonAction::Reply(reply)
                }
            },
            DaemonRequest::Unknown => DaemonAction::Reply(String::from_str("Unknown command\n")),
        }
    }
}

/// What to do when asked to start the daemon for a model.
pub enum StartDecision {
    /// A daemon runs already: refuse.
    AlreadyRunning,
    /// The model is not configured: refuse.
    UnknownModel,
    /// Start the daemon in this state.
    Start(DaemonState),
}

/// Decides whether the daemon may start for `model`: not while one runs,
/// and only for a configured model, which it then serves.
pub fn start_decision(already_running: bool, config: &Config, model: &str) -> (r: StartDecision)
    ensures
        already_running ==> r is AlreadyRunning,
        !already_running && !config.has_model(model@) ==> r is UnknownModel,
        !already_running && config.has_model(model@) ==> r is Start,
        r matches StartDecision::Start(s) ==> s.current_model@ == model@,
{
    if already_running {
        StartDecision::AlreadyRunning
    } else if !config.contains_model(model) {
        StartDecision::UnknownModel
    } else {
        StartDecision::Start(DaemonState { current_model: String::from_str(model) })
    }
}

/// The contents of the process id file for the process `pid`.
pub fn pid_file_contents(pid: i32) -> (r: String)
    ensures
        r@ == signed_decimal(pid as int),
{
    signed_decimal_string(pid as i64)
}

/// The process id that the contents of a process id file name: the trimmed
/// text read as an `i32`.
pub fn parse_pid_file(contents: &str) -> (r: Option<i32>)
    ensures
        r == parse_i32_spec(trim(contents@)),
{
    let t = trim_str(contents);
    parse_i32(t.as_str())
}

/// A process id written to the process id file reads back as itself.
pub proof fn lemma_pid_file_read_back(pid: i32)
    ensures
        parse_i32_spec(trim(signed_decimal(pid as int))) == Some(pid),
{
    let s = signed_decimal(pid as int);
    crate::number::lemma_decimal_digits(if pid < 0 { (-(pid as int)) as nat } else { pid as nat });
    if pid < 0 {
        assert(s[0] == '-');
        assert(s.last() == crate::number::decimal((-(pid as int)) as nat).last());
    }
    assert(crate::number::is_digit(s.last()));
    lemma_trim_unchanged(s);
    lemma_parse_signed_decimal(pid);
}

/// The lines of the status report: whether the daemon runs and, where it
/// does, its process id and the model it serves (as recorded, trimmed, or
/// `unknown` where none is recorded).
pub open spec fn status_spec(pid: Option<i32>, alive: bool, model: Option<Seq<char>>) -> Seq<
    Seq<char>,
> {
    match pid {
        Some(p) => if alive {
            seq![
                "Daemon Status: running"@,
                "PID: "@ + signed_decimal(p as int),
                match model {
                    Some(m) => "Current Model: "@ + trim(m),
                    None => "Current Model: unknown"@,
                },
            ]
        } else {
            seq!["Daemon Status: not running"@]
        },
        None => seq!["Daemon Status: not running"@],
    }
}

/// The status report, from the process id in the process id file (if it
/// could be read), whether that process is alive, and the recorded current
/// model (if it could be read).
pub fn status_report(pid: Option<i32>, alive: bool, model: Option<&str>) -> (r: Vec<String>)
    ensures
        r.deep_view() == status_spec(pid, alive, crate::text::opt_str_view(model)),
{
    let mut r: Vec<String> = Vec::new();
    match pid {
        Some(p) => {
            if alive {
                r.push(String::from_str("Daemon Status: running"));
                let mut line = String::from_str("PID: ");
                let digits = signed_decimal_string(p as i64);
                line.append(digits.as_str());
                r.push(line);
                match model {
                    Some(m) => {
                        let mut line = String::from_str("Current Model: ");
                        let t = trim_str(m);
                        line.append(t.as_str());
                        r.push(line);
                    },
                    None => r.push(String::from_str("Current Model: unknown")),
                }
            } else {
                r.push(String::from_str("Daemon Status: not running"));
            }
        },
        None => r.push(String::from_str("Daemon Status: not running")),
    }
    assert(r.deep_view() =~= status_spec(pid, alive, crate::text::opt_str_view(model)));
    r
}

/// The status report of a running daemon is three lines: that it runs, its
/// process id in a form that reads back as that very id, and the current
/// model; a daemon that is not running, or has no process id, is reported in
/// one line.
pub proof fn lemma_status_report_shape(pid: Option<i32>, alive: bool, model: Option<Seq<char>>)
    ensures
        pid is Some && alive ==> {
            let lines = status_spec(pid, alive, model);
            &&& lines.len() == 3
            &&& lines[0] == "Daemon Status: running"@
            &&& lines[1].take(5) == "PID: "@
            &&& parse_i32_spec(lines[1].skip(5)) == pid
            &&& lines[2].take(15) == "Current Model: "@
        },
        !(pid is Some && alive) ==> status_spec(pid, alive, model) == seq![
            "Daemon Status: not running"@,
        ],
{
    reveal_strlit("PID: ");
    reveal_strlit("Current Model: ");
    reveal_strlit("Current Model: unknown");
    if let Some(p) = pid {
        if alive {
            let lines = status_spec(pid, alive, model);
            let digits = signed_decimal(p as int);
            assert(lines[1].take(5) =~= "PID: "@);
            assert(lines[1].skip(5) =~= digits);
            lemma_parse_signed_decimal(p);
            match model {
                Some(m) => {
                    assert(lines[2].take(15) =~= "Current Model: "@);
                },
                None => {
                    assert(lines[2].take(15) =~= "Current Model: "@);
                },
            }
        }
    }
}

/// A model name recorded as the current model is reported as it was
/// written, where it has no white space at its ends.
pub proof fn lemma_current_model_reported(pid: i32, name: Seq<char>)
    requires
        name.len() == 0 || (!spec_is_whitespace(name[0]) && !spec_is_whitespace(name.last())),
    ensures
        status_spec(Some(pid), true, Some(name))[2] == "Current Model: "@ + name,
{
    lemma_trim_unchanged(name);
}

/// How many times a stopping daemon is checked before it is killed.
pub const STOP_CHECKS: u32 = 10;

/// What to do after checking whether a daemon that was asked to stop still
/// runs.
#[derive(Debug, Clone, Copy, PartialEq, Eq, Structural)]
pub enum StopPoll {
    /// It stopped.
    Stopped,
    /// It still runs: wait, then check again.
    WaitAndCheck,
    /// It still runs and was checked often enough: wait, then kill it and
    /// remove its files.
    WaitAndKill,
}

/// Decides after the check numbered `check` (from 0) whether the daemon
/// stopped, is to be checked again, or is to be killed.
pub fn stop_poll(check: u32, running: bool) -> (r: StopPoll)
    requires
        check < STOP_CHECKS,
    ensures
        !running ==> r == StopPoll::Stopped,
        running && check + 1 < STOP_CHECKS ==> r == StopPoll::WaitAndCheck,
        running && check + 1 == STOP_CHECKS ==> r == StopPoll::WaitAndKill,
{
    if !running {
        StopPoll::Stopped
    } else if check + 1 < STOP_CHECKS {
        StopPoll::WaitAndCheck
    } else {
        StopPoll::WaitAndKill
    }
}

} // verus!
