//! The debug server's protocol: the messages exchanged over the socket, the
//! socket naming scheme, and the decisions the server makes for each request.

use vstd::prelude::*;
use vstd::string::*;

use crate::screenshot::{encode_screenshot_jpeg, encode_screenshot_spec, SCREENSHOT_JPEG_QUALITY};
use crate::text::{
    all_digits, chars_of, decimal, digit_char, digits_value, last_slash, file_name_of, file_name_range, occurs_at_exec, parse_i32_range, parse_i32_spec,
    parse_u32_range, parse_u32_spec, push_decimal, push_str,
};

pub mod client;

verus! {

/// Request types sent over IPC.
#[derive(Debug, Clone, PartialEq, Eq)]
pub enum Request {
    /// Dump the current layout tree.
    Dump,
    /// Set text in an entry field (identified by placeholder).
    Input { field: String, value: String },
    /// Click a button (identified by label text).
    Click { label: String },
    /// Activate the currently focused widget (like pressing Enter).
    Submit,
    /// Ping to check if server is alive.
    Ping,
    /// Get layout as JSON instead of text.
    DumpJson,
    /// Send a key press event.
    KeyPress { key: String },
    /// Take a screenshot (returns base64-encoded JPEG).
    Screenshot,
}

/// Response types sent over IPC.
#[derive(Debug, Clone, PartialEq, Eq)]
pub enum Response {
    /// Layout dump as text.
    Layout(String),
    /// Operation succeeded (sent over the wire as `Ok`).
    Success,
    /// Pong response.
    Pong,
    /// Error message.
    Error(String),
    /// Screenshot as base64-encoded JPEG.
    Screenshot(String),
}

/// Raw screenshot data from the application: RGBA pixels, row by row.
#[derive(Debug, Clone)]
pub struct ScreenshotData {
    pub width: u32,
    pub height: u32,
    pub pixels: Vec<u8>,
}

/// What a response says, with its texts as character sequences.
pub enum ResponseView {
    Layout(Seq<char>),
    Success,
    Pong,
    Error(Seq<char>),
    Screenshot(Seq<char>),
}

impl View for Response {
    type V = ResponseView;

    open spec fn view(&self) -> ResponseView {
        match self {
            Response::Layout(s) => ResponseView::Layout(s@),
            Response::Success => ResponseView::Success,
            Response::Pong => ResponseView::Pong,
            Response::Error(e) => ResponseView::Error(e@),
            Response::Screenshot(s) => ResponseView::Screenshot(s@),
        }
    }
}

// ---------------------------------------------------------------------------
// Serving a request
// ---------------------------------------------------------------------------

/// What the server asks of the application for a request.
#[derive(Debug, Clone, PartialEq, Eq)]
pub enum AppCommand {
    /// Dump the layout as text.
    Dump,
    /// Dump the layout as JSON.
    DumpJson,
    /// Set the text of the entry whose placeholder matches `field`.
    Input { field: String, value: String },
    /// Click the button whose label matches.
    Click { label: String },
    /// Activate the focused widget.
    Submit,
    /// Send a key press.
    KeyPress { key: String },
    /// Capture the window's pixels.
    Screenshot,
}

/// How the server handles a request.
#[derive(Debug, Clone, PartialEq, Eq)]
pub enum Dispatch {
    /// Answer at once, without the application.
    Reply(Response),
    /// Hand a command to the application and wait at most this many
    /// milliseconds for its answer.
    Forward(AppCommand, u64),
}

/// How long the server waits for a dump or a screenshot.
pub const SLOW_COMMAND_TIMEOUT_MS: u64 = 5000;

/// How long the server waits for an input, click, submit or key press.
pub const FAST_COMMAND_TIMEOUT_MS: u64 = 2000;

/// Each request but `Ping` is forwarded to the application as the command of
/// the same kind, with its fields; dumps and screenshots get the longer wait.
pub open spec fn dispatch_spec(req: Request) -> Dispatch {
    match req {
        Request::Ping => Dispatch::Reply(Response::Pong),
        Request::Dump => Dispatch::Forward(AppCommand::Dump, SLOW_COMMAND_TIMEOUT_MS),
        Request::DumpJson => Dispatch::Forward(AppCommand::DumpJson, SLOW_COMMAND_TIMEOUT_MS),
        Request::Screenshot => Dispatch::Forward(AppCommand::Screenshot, SLOW_COMMAND_TIMEOUT_MS),
        Request::Input { field, value } => Dispatch::Forward(
            AppCommand::Input { field, value },
            FAST_COMMAND_TIMEOUT_MS,
        ),
        Request::Click { label } => Dispatch::Forward(AppCommand::Click { label }, FAST_COMMAND_TIMEOUT_MS),
        Request::Submit => Dispatch::Forward(AppCommand::Submit, FAST_COMMAND_TIMEOUT_MS),
        Request::KeyPress { key } => Dispatch::Forward(AppCommand::KeyPress { key }, FAST_COMMAND_TIMEOUT_MS),
    }
}

/// Decide how to serve a request.
pub fn dispatch_request(req: Request) -> (d: Dispatch)
    ensures
        d == dispatch_spec(req),
{
    match req {
        Request::Ping => Dispatch::Reply(Response::Pong),
        Request::Dump => Dispatch::Forward(AppCommand::Dump, SLOW_COMMAND_TIMEOUT_MS),
        Request::DumpJson => Dispatch::Forward(AppCommand::DumpJson, SLOW_COMMAND_TIMEOUT_MS),
        Request::Screenshot => Dispatch::Forward(AppCommand::Screenshot, SLOW_COMMAND_TIMEOUT_MS),
        Request::Input { field, value } => Dispatch::Forward(
            AppCommand::Input { field, value },
            FAST_COMMAND_TIMEOUT_MS,
        ),
        Request::Click { label } => Dispatch::Forward(AppCommand::Click { label }, FAST_COMMAND_TIMEOUT_MS),
        Request::Submit => Dispatch::Forward(AppCommand::Submit, FAST_COMMAND_TIMEOUT_MS),
        Request::KeyPress { key } => Dispatch::Forward(AppCommand::KeyPress { key }, FAST_COMMAND_TIMEOUT_MS),
    }
}

/// What came of a forwarded command.
#[derive(Debug)]
pub enum AppReply {
    /// The application's command queue is closed.
    Undelivered,
    /// The application did not answer in time, or dropped the command.
    NoAnswer,
    /// The layout text of a dump.
    Layout(String),
    /// The outcome of an input, click, submit or key press.
    Outcome(Result<(), String>),
    /// The outcome of a screenshot capture.
    Screenshot(Result<ScreenshotData, String>),
}

/// The response the server sends for what came of a forwarded command.
pub open spec fn reply_spec(reply: AppReply) -> ResponseView {
    match reply {
        AppReply::Undelivered => ResponseView::Error("App closed"@),
        AppReply::NoAnswer => ResponseView::Error("Timeout"@),
        AppReply::Layout(s) => ResponseView::Layout(s@),
        AppReply::Outcome(Ok(_)) => ResponseView::Success,
        AppReply::Outcome(Err(e)) => ResponseView::Error(e@),
        AppReply::Screenshot(Err(e)) => ResponseView::Error(e@),
        AppReply::Screenshot(Ok(data)) => match encode_screenshot_spec(
            data.width,
            data.height,
            data.pixels@,
            SCREENSHOT_JPEG_QUALITY,
        ) {
            Ok(text) => ResponseView::Screenshot(text),
            Err(e) => ResponseView::Error(e),
        },
    }
}

/// The response to send for what came of a forwarded command; screenshots
/// are sent as base64 JPEG at `SCREENSHOT_JPEG_QUALITY`.
pub fn reply_for(reply: AppReply) -> (r: Response)
    ensures
        r@ == reply_spec(reply),
{
    match reply {
        AppReply::Undelivered => Response::Error(String::from_str("App closed")),
        AppReply::NoAnswer => Response::Error(String::from_str("Timeout")),
        AppReply::Layout(s) => Response::Layout(s),
        AppReply::Outcome(Ok(())) => Response::Success,
        AppReply::Outcome(Err(e)) => Response::Error(e),
        AppReply::Screenshot(Err(e)) => Response::Error(e),
        AppReply::Screenshot(Ok(data)) => match encode_screenshot_jpeg(&data, SCREENSHOT_JPEG_QUALITY) {
            Ok(text) => Response::Screenshot(text),
            Err(e) => Response::Error(e),
        },
    }
}

// ---------------------------------------------------------------------------
// Socket naming
// ---------------------------------------------------------------------------

/// The socket path of the server in the process `pid`.
pub open spec fn socket_path_spec(pid: u32) -> Seq<char> {
    "/tmp/gtk-debug-"@ + decimal(pid as nat) + ".sock"@
}

/// The socket path of the server in the process `pid`:
/// `/tmp/gtk-debug-{pid}.sock`.
pub fn socket_path_for(pid: u32) -> (s: String)
    ensures
        s@ == socket_path_spec(pid),
{
    let mut s = String::new();
    push_str(&mut s, "/tmp/gtk-debug-");
    push_decimal(&mut s, pid as u64);
    push_str(&mut s, ".sock");
    assert(s@ =~= socket_path_spec(pid));
    s
}

/// The text between `gtk-debug-` and `.sock` in a socket file name.
pub open spec fn socket_name_pid_text(name: Seq<char>) -> Option<Seq<char>> {
    let prefix = "gtk-debug-"@;
    let suffix = ".sock"@;
    if prefix.is_prefix_of(name) {
        let rest = name.skip(prefix.len() as int);
        if suffix.is_suffix_of(rest) {
            Some(rest.take(rest.len() - suffix.len()))
        } else {
            None
        }
    } else {
        None
    }
}

/// The process id in a socket path, parsed as an unsigned number.
pub open spec fn extract_pid_spec(path: Seq<char>) -> Option<u32> {
    match file_name_of(path) {
        Some(name) => match socket_name_pid_text(name) {
            Some(t) => parse_u32_spec(t),
            None => None,
        },
        None => None,
    }
}

/// The process id in a socket path, parsed as a signed number (the form the
/// stale-socket sweep uses before probing the process).
pub open spec fn stale_socket_pid_spec(path: Seq<char>) -> Option<i32> {
    match file_name_of(path) {
        Some(name) => match socket_name_pid_text(name) {
            Some(t) => parse_i32_spec(t),
            None => None,
        },
        None => None,
    }
}

/// Bounds of the pid text inside the path `v`.
fn pid_text_range(v: &Vec<char>) -> (r: Option<(usize, usize)>)
    ensures
        match r {
            None => match file_name_of(v@) {
                Some(name) => socket_name_pid_text(name) is None,
                None => true,
            },
            Some((a, b)) => a <= b <= v@.len() && match file_name_of(v@) {
                Some(name) => socket_name_pid_text(name) == Some(v@.subrange(a as int, b as int)),
                None => false,
            },
        },
{
    match file_name_range(v) {
        None => None,
        Some((a, b)) => {
            let ghost name = v@.subrange(a as int, b as int);
            let p = chars_of("gtk-debug-");
            let q = chars_of(".sock");
            let plen = p.len();
            let qlen = q.len();
            if b - a < plen {
                return None;
            }
            if !occurs_at_exec(v, &p, a) {
                assert(!"gtk-debug-"@.is_prefix_of(name)) by {
                    if "gtk-debug-"@.is_prefix_of(name) {
                        assert(v@.subrange(a as int, a + plen) =~= p@);
                    }
                }
                return None;
            }
            assert("gtk-debug-"@.is_prefix_of(name)) by {
                assert forall|k: int| 0 <= k < plen implies name[k] == p@[k] by {
                    assert(v@.subrange(a as int, a + plen)[k] == p@[k]);
                }
            }
            let ghost rest = name.skip(plen as int);
            assert(rest =~= v@.subrange(a + plen, b as int));
            if b - a - plen < qlen {
                return None;
            }
            let start = a + plen;
            let stop = b - qlen;
            if !occurs_at_exec(v, &q, stop) {
                assert(!".sock"@.is_suffix_of(rest)) by {
                    if ".sock"@.is_suffix_of(rest) {
                        assert forall|k: int| 0 <= k < qlen implies v@.subrange(
                            stop as int,
                            stop + qlen,
                        )[k] == q@[k] by {
                            assert(rest[rest.len() - qlen + k] == q@[k]);
                        }
                        assert(v@.subrange(stop as int, stop + qlen) =~= q@);
                    }
                }
                return None;
            }
            assert(".sock"@.is_suffix_of(rest)) by {
                assert forall|k: int| 0 <= k < qlen implies rest[rest.len() - qlen + k] == q@[k] by {
                    assert(v@.subrange(stop as int, stop + qlen)[k] == q@[k]);
                }
            }
            assert(rest.take(rest.len() - qlen) =~= v@.subrange(start as int, stop as int));
            Some((start, stop))
        },
    }
}

/// Extract the process id from a socket path such as
/// `/tmp/gtk-debug-1234.sock`.
pub fn extract_pid(path: &str) -> (r: Option<u32>)
    ensures
        r == extract_pid_spec(path@),
{
    let v = chars_of(path);
    match pid_text_range(&v) {
        None => None,
        Some((a, b)) => parse_u32_range(&v, a, b),
    }
}

/// The process id that the stale-socket sweep probes for a socket path.
pub fn stale_socket_pid(path: &str) -> (r: Option<i32>)
    ensures
        r == stale_socket_pid_spec(path@),
{
    let v = chars_of(path);
    match pid_text_range(&v) {
        None => None,
        Some((a, b)) => parse_i32_range(&v, a, b),
    }
}

/// Asks the file system whether a path exists, through `std::path::Path::exists`.
/// Nothing is stated of the answer: it depends on the state of the machine
/// at the time of the call.
#[verifier::external_body]
fn path_exists(path: &str) -> bool {
    std::path::Path::new(path).exists()
}

/// The `/proc` entry of a process.
pub open spec fn proc_dir_spec(pid: u32) -> Seq<char> {
    "/proc/"@ + decimal(pid as nat)
}

/// The `/proc` entry of a process, `/proc/{pid}`: the path that
/// `is_process_running` probes.
pub fn proc_dir(pid: u32) -> (s: String)
    ensures
        s@ == proc_dir_spec(pid),
{
    let mut s = String::new();
    push_str(&mut s, "/proc/");
    push_decimal(&mut s, pid as u64);
    s
}

/// Whether the process `pid` is running: whether `/proc/{pid}` exists.
pub fn is_process_running(pid: u32) -> bool {
    let dir = proc_dir(pid);
    path_exists(dir.as_str())
}

/// Sorts socket paths by whether their process is running (`running`, one
/// flag per path): the live ones and the stale ones, each in the given
/// order. Paths that name no process are in neither.
pub open spec fn sort_sockets(paths: Seq<String>, running: Seq<bool>) -> (Seq<String>, Seq<String>)
    decreases paths.len(),
{
    if paths.len() == 0 {
        (Seq::empty(), Seq::empty())
    } else {
        let (live, stale) = sort_sockets(paths.drop_last(), running.take(paths.len() - 1));
        let p = paths.last();
        if extract_pid_spec(p@) is None {
            (live, stale)
        } else if running[paths.len() - 1] {
            (live.push(p), stale)
        } else {
            (live, stale.push(p))
        }
    }
}

/// Sort socket paths by the probe answers for their processes: `running[i]`
/// says whether the process named by `paths[i]` (its `extract_pid`) is
/// running. Gives the live paths and the stale ones, each in the given
/// order; paths that name no process are in neither.
pub fn sort_socket_paths(paths: &Vec<String>, running: &Vec<bool>) -> (r: (Vec<String>, Vec<String>))
    requires
        running@.len() == paths@.len(),
    ensures
        (r.0@, r.1@) == sort_sockets(paths@, running@),
{
    let mut live: Vec<String> = Vec::new();
    let mut stale: Vec<String> = Vec::new();
    let n = paths.len();
    let mut i: usize = 0;
    while i < n
        invariant
            n == paths@.len(),
            running@.len() == n,
            i <= n,
            (live@, stale@) == sort_sockets(paths@.take(i as int), running@.take(i as int)),
        decreases n - i,
    {
        let p = &paths[i];
        match extract_pid(p.as_str()) {
            None => {},
            Some(_) => {
                if running[i] {
                    live.push(p.clone());
                } else {
                    stale.push(p.clone());
                }
            },
        }
        assert(paths@.take(i + 1).drop_last() =~= paths@.take(i as int));
        assert(running@.take(i + 1).take(i as int) =~= running@.take(i as int));
        i = i + 1;
    }
    assert(paths@.take(n as int) =~= paths@);
    assert(running@.take(n as int) =~= running@);
    (live, stale)
}

// ---------------------------------------------------------------------------
// The socket path names its process
// ---------------------------------------------------------------------------

proof fn lemma_decimal_digits(n: nat)
    ensures
        decimal(n).len() >= 1,
        all_digits(decimal(n)),
        digits_value(decimal(n)) == n,
        forall|i: int| 0 <= i < decimal(n).len() ==> #[trigger] decimal(n)[i] != '/',
    decreases n,
{
    if n >= 10 {
        lemma_decimal_digits(n / 10);
        let s = decimal(n / 10);
        let t = decimal(n);
        assert(t == s.push(digit_char((n % 10) as int)));
        assert(t.drop_last() =~= s);
        assert forall|i: int| 0 <= i < t.len() implies crate::text::is_digit(#[trigger] t[i]) by {
            if i < s.len() {
                assert(t[i] == s[i]);
            }
        }
        assert(digit_char((n % 10) as int) as int == 48 + n % 10);
        assert(t.last() == digit_char((n % 10) as int));
        assert(digits_value(t) == digits_value(s) * 10 + (n % 10));
        assert(n == (n / 10) * 10 + n % 10);
    } else {
        let t = decimal(n);
        assert(t.drop_last() =~= Seq::<char>::empty());
        assert(digit_char(n as int) as int == 48 + n);
        assert(t.last() == digit_char(n as int));
        assert(digits_value(t.drop_last()) == 0);
    }
}

proof fn lemma_last_slash_append(a: Seq<char>, b: Seq<char>)
    requires
        forall|i: int| 0 <= i < b.len() ==> #[trigger] b[i] != '/',
    ensures
        last_slash(a + b) == last_slash(a),
    decreases b.len(),
{
    if b.len() > 0 {
        let c = a + b;
        assert(c.drop_last() =~= a + b.drop_last());
        assert(c.last() == b.last());
        lemma_last_slash_append(a, b.drop_last());
    } else {
        assert(a + b =~= a);
    }
}

/// A socket file of a process, in any directory, names that process:
/// reading the pid back out of `{dir}/gtk-debug-{pid}.sock` gives `pid`.
pub proof fn lemma_socket_file_names_pid(dir: Seq<char>, pid: u32)
    requires
        dir.len() == 0 || dir.last() == '/',
    ensures
        extract_pid_spec(dir + ("gtk-debug-"@ + decimal(pid as nat) + ".sock"@)) == Some(pid),
        stale_socket_pid_spec(dir + ("gtk-debug-"@ + decimal(pid as nat) + ".sock"@)) == if pid
            <= i32::MAX {
            Some(pid as i32)
        } else {
            None::<i32>
        },
{
    reveal_strlit("gtk-debug-");
    reveal_strlit(".sock");
    let d = decimal(pid as nat);
    lemma_decimal_digits(pid as nat);
    let prefix = "gtk-debug-"@;
    let suffix = ".sock"@;
    let name = prefix + d + suffix;
    let path = dir + name;
    assert forall|i: int| 0 <= i < name.len() implies #[trigger] name[i] != '/' by {
        if i < prefix.len() {
        } else if i < prefix.len() + d.len() {
            assert(name[i] == d[i - prefix.len()]);
        } else {
        }
    }
    lemma_last_slash_append(dir, name);
    assert(last_slash(dir) == dir.len() - 1);
    assert(path.last() == 'k');
    assert(path.skip(dir.len() as int) =~= name);
    assert(name.len() > 2);
    assert(file_name_of(path) == Some(name));
    assert(prefix.is_prefix_of(name));
    let rest = name.skip(prefix.len() as int);
    assert(rest =~= d + suffix);
    assert(suffix.is_suffix_of(rest));
    assert(rest.take(rest.len() - suffix.len()) =~= d);
    assert(d[0] != '+' && d[0] != '-') by {
        assert(crate::text::is_digit(d[0]));
    }
}

/// The socket path of a process names that process: reading the pid back
/// out of `socket_path_for(pid)` gives `pid`.
pub proof fn lemma_socket_path_names_pid(pid: u32)
    ensures
        extract_pid_spec(socket_path_spec(pid)) == Some(pid),
        stale_socket_pid_spec(socket_path_spec(pid)) == if pid <= i32::MAX {
            Some(pid as i32)
        } else {
            None::<i32>
        },
{
    reveal_strlit("/tmp/gtk-debug-");
    reveal_strlit("gtk-debug-");
    reveal_strlit("/tmp/");
    let dir = "/tmp/"@;
    let name = "gtk-debug-"@ + decimal(pid as nat) + ".sock"@;
    assert(socket_path_spec(pid) =~= dir + name);
    assert(dir.last() == '/');
    lemma_socket_file_names_pid(dir, pid);
}

} // verus!
