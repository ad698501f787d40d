//! Client/daemon messages: the request and response values, the socket path,
//! length-prefixed framing, and the daemon's answer to requests no plugin handles.
use vstd::prelude::*;
use vstd::string::*;
use crate::config::PluginsConfig;

verus! {

/// Requests a client sends to the daemon.
#[derive(Debug)]
pub enum IpcRequest {
    ScratchpadToggle { name: String },
    ScratchpadAdd { name: String, direction: String, swallow_to_focus: bool },
    SingletonToggle { name: String },
    WindowOrderToggle,
    /// Focus the window bound to `name`, else bind the focused window to it.
    MarkToggle { name: String },
    /// Remove mark `name` (nothing when missing).
    MarkDelete { name: String },
    /// Bind the focused window to `name`, replacing any previous binding.
    MarkAdd { name: String },
    StickyAdd { cross: bool },
    StickyDelete,
    Ping,
    Shutdown,
}

/// The daemon's answers.
#[derive(Debug)]
pub enum IpcResponse {
    Success,
    Error(String),
    Pong,
}

/// `<runtime_dir>/piri.sock` joined as a path: no separator added after an empty
/// directory or one already ending in `/`.
pub open spec fn socket_in(dir: Seq<char>) -> Seq<char> {
    if dir.len() == 0 {
        "piri.sock"@
    } else if dir.last() == '/' {
        dir + "piri.sock"@
    } else {
        dir + "/piri.sock"@
    }
}

/// The daemon socket path: in the runtime directory when one is set, else `/tmp/piri.sock`.
pub open spec fn default_socket(runtime_dir: Option<Seq<char>>) -> Seq<char> {
    match runtime_dir {
        Some(d) => socket_in(d),
        None => "/tmp/piri.sock"@,
    }
}

pub open spec fn opt_seq(o: Option<&str>) -> Option<Seq<char>> {
    match o {
        Some(s) => Some(s@),
        None => None,
    }
}

/// The default socket path for the daemon, given the value of `XDG_RUNTIME_DIR`.
pub fn get_socket_path(runtime_dir: Option<&str>) -> (r: String)
    ensures
        r@ == default_socket(opt_seq(runtime_dir)),
{
    match runtime_dir {
        None => String::from_str("/tmp/piri.sock"),
        Some(d) => {
            let n = d.unicode_len();
            if n == 0 {
                String::from_str("piri.sock")
            } else if d.get_char(n - 1) == '/' {
                String::from_str(d).concat("piri.sock")
            } else {
                String::from_str(d).concat("/piri.sock")
            }
        },
    }
}

/// IPC client for subcommands.
pub struct IpcClient {
    pub socket_path: String,
}

impl IpcClient {
    /// A client for the given socket, or for the default socket.
    pub fn new(socket_path: Option<String>, runtime_dir: Option<&str>) -> (r: Self)
        ensures
            r.socket_path@ == match socket_path {
                Some(p) => p@,
                None => default_socket(opt_seq(runtime_dir)),
            },
    {
        let socket_path = match socket_path {
            Some(p) => p,
            None => get_socket_path(runtime_dir),
        };
        IpcClient { socket_path }
    }
}

/// Big-endian bytes of a 32-bit length.
pub open spec fn be_bytes(n: u32) -> Seq<u8> {
    seq![(n / 0x1000000) as u8, ((n / 0x10000) % 0x100) as u8, ((n / 0x100) % 0x100) as u8, (n % 0x100) as u8]
}

/// The number four big-endian bytes encode.
pub open spec fn be_value(b: Seq<u8>) -> int {
    b[0] * 0x1000000 + b[1] * 0x10000 + b[2] * 0x100 + b[3]
}

/// A frame: the payload length as four big-endian bytes (the length taken modulo 2^32),
/// then the payload.
pub open spec fn frame(payload: Seq<u8>) -> Seq<u8> {
    be_bytes((payload.len() % 0x1_0000_0000) as u32) + payload
}

/// Frame a message payload for the socket.
pub fn encode_frame(payload: &[u8]) -> (r: Vec<u8>)
    ensures
        r@ == frame(payload@),
{
    let plen: usize = payload.len();
    let len: u32 = plen as u32;
    proof {
        assert(len == ((plen as u64) % 0x1_0000_0000) as u32) by (bit_vector)
            requires
                len == plen as u32;
    }
    let mut out: Vec<u8> = Vec::new();
    out.push((len / 0x1000000) as u8);
    out.push(((len / 0x10000) % 0x100) as u8);
    out.push(((len / 0x100) % 0x100) as u8);
    out.push((len % 0x100) as u8);
    let n = payload.len();
    let mut i: usize = 0;
    while i < n
        invariant
            n == payload@.len(),
            0 <= i <= n,
            out@ == be_bytes(len) + payload@.subrange(0, i as int),
        decreases n - i,
    {
        out.push(payload[i]);
        proof {
            assert(payload@.subrange(0, i as int + 1) =~= payload@.subrange(0, i as int).push(payload@[i as int]));
            assert(out@ =~= be_bytes(len) + payload@.subrange(0, i as int + 1));
        }
        i = i + 1;
    }
    assert(payload@.subrange(0, n as int) =~= payload@);
    out
}

/// The payload length a frame header announces.
pub fn frame_length(header: [u8; 4]) -> (r: u32)
    ensures
        r == be_value(header@),
{
    (header[0] as u32) * 0x1000000 + (header[1] as u32) * 0x10000 + (header[2] as u32) * 0x100
        + (header[3] as u32)
}

/// A received frame: the announced length and the payload that follows.
pub fn decode_frame(bytes: &[u8]) -> (r: Option<(u32, Vec<u8>)>)
    ensures
        bytes@.len() < 4 ==> r is None,
        bytes@.len() >= 4 ==> (r matches Some(p) && p.0 == be_value(bytes@.subrange(0, 4))
            && p.1@ == bytes@.subrange(4, bytes@.len() as int)),
{
    let n = bytes.len();
    if n < 4 {
        return None;
    }
    let header: [u8; 4] = [bytes[0], bytes[1], bytes[2], bytes[3]];
    assert(header@ =~= bytes@.subrange(0, 4));
    let len = frame_length(header);
    let mut payload: Vec<u8> = Vec::new();
    let mut i: usize = 4;
    while i < n
        invariant
            n == bytes@.len(),
            4 <= i <= n,
            payload@ =~= bytes@.subrange(4, i as int),
        decreases n - i,
    {
        payload.push(bytes[i]);
        i = i + 1;
    }
    Some((len, payload))
}

/// Decoding a frame gives back the payload and its length, for payloads that fit a
/// 32-bit length.
pub proof fn lemma_frame_roundtrip(payload: Seq<u8>)
    requires
        payload.len() <= u32::MAX,
    ensures
        frame(payload).len() == payload.len() + 4,
        be_value(frame(payload).subrange(0, 4)) == payload.len(),
        frame(payload).subrange(4, frame(payload).len() as int) == payload,
{
    let n = payload.len() as u32;
    assert(frame(payload).subrange(4, frame(payload).len() as int) =~= payload);
    assert(frame(payload).subrange(0, 4) =~= be_bytes(n));
    assert(((n / 0x1000000) as u8) * 0x1000000 + (((n / 0x10000) % 0x100) as u8) * 0x10000 + (((n
        / 0x100) % 0x100) as u8) * 0x100 + ((n % 0x100) as u8) == n) by (bit_vector);
}

/// Error text for a plugin that is switched on but did not start, or is switched off.
pub open spec fn plugin_error(enabled: bool, on_msg: Seq<char>, off_msg: Seq<char>) -> Seq<char> {
    if enabled { on_msg } else { off_msg }
}

/// The daemon's answer to a request that no plugin handled, and whether the daemon
/// should shut down.
pub open spec fn fallback_spec(request: IpcRequest, plugins: PluginsConfig) -> (Option<Seq<char>>, bool, bool) {
    // (error text, is pong, shutdown)
    match request {
        IpcRequest::Ping => (None, true, false),
        IpcRequest::Shutdown => (None, false, true),
        IpcRequest::ScratchpadToggle { .. } | IpcRequest::ScratchpadAdd { .. } => (Some(plugin_error(
            plugins.enabled("scratchpads"@),
            "Scratchpads plugin is enabled but not initialized. Please restart the daemon."@,
            "Scratchpads plugin is not enabled. Please enable it in the configuration file (piri.plugins.scratchpads = true)."@,
        )), false, false),
        IpcRequest::SingletonToggle { .. } => (Some(plugin_error(
            plugins.enabled("singleton"@),
            "Singleton plugin is enabled but not initialized. Please restart the daemon."@,
            "Singleton plugin is not enabled. Please enable it in the configuration file (piri.plugins.singleton = true)."@,
        )), false, false),
        IpcRequest::WindowOrderToggle => (Some(plugin_error(
            plugins.enabled("window_order"@),
            "WindowOrder plugin is enabled but not initialized. Please restart the daemon."@,
            "WindowOrder plugin is not enabled. Please enable it in the configuration file (piri.plugins.window_order = true)."@,
        )), false, false),
        IpcRequest::MarkToggle { .. } | IpcRequest::MarkDelete { .. } | IpcRequest::MarkAdd { .. } => (Some(plugin_error(
            plugins.enabled("mark"@),
            "Mark plugin is enabled but not initialized. Please restart the daemon."@,
            "Mark plugin is not enabled. Set piri.plugins.mark = true in the config."@,
        )), false, false),
        IpcRequest::StickyAdd { .. } | IpcRequest::StickyDelete => (Some(plugin_error(
            plugins.enabled("sticky"@),
            "Sticky plugin is enabled but not initialized. Please restart the daemon."@,
            "Sticky plugin is not enabled. Set piri.plugins.sticky = true in the config."@,
        )), false, false),
    }
}

fn plugin_error_exec(enabled: bool, on_msg: &str, off_msg: &str) -> (r: IpcResponse)
    ensures
        r matches IpcResponse::Error(m) && m@ == plugin_error(enabled, on_msg@, off_msg@),
{
    if enabled {
        IpcResponse::Error(String::from_str(on_msg))
    } else {
        IpcResponse::Error(String::from_str(off_msg))
    }
}

/// The answer to a request no plugin handled, and whether to shut the daemon down.
pub fn fallback_response(request: &IpcRequest, plugins: &PluginsConfig) -> (r: (IpcResponse, bool))
    ensures
        ({
            let s = fallback_spec(*request, *plugins);
            &&& r.1 == s.2
            &&& match s.0 {
                Some(msg) => r.0 matches IpcResponse::Error(m) && m@ == msg,
                None => if s.1 { r.0 is Pong } else { r.0 is Success },
            }
        }),
{
    match request {
        IpcRequest::Ping => (IpcResponse::Pong, false),
        IpcRequest::Shutdown => (IpcResponse::Success, true),
        IpcRequest::ScratchpadToggle { .. } | IpcRequest::ScratchpadAdd { .. } => (plugin_error_exec(
            plugins.is_enabled("scratchpads"),
            "Scratchpads plugin is enabled but not initialized. Please restart the daemon.",
            "Scratchpads plugin is not enabled. Please enable it in the configuration file (piri.plugins.scratchpads = true).",
        ), false),
        IpcRequest::SingletonToggle { .. } => (plugin_error_exec(
            plugins.is_enabled("singleton"),
            "Singleton plugin is enabled but not initialized. Please restart the daemon.",
            "Singleton plugin is not enabled. Please enable it in the configuration file (piri.plugins.singleton = true).",
        ), false),
        IpcRequest::WindowOrderToggle => (plugin_error_exec(
            plugins.is_enabled("window_order"),
            "WindowOrder plugin is enabled but not initialized. Please restart the daemon.",
            "WindowOrder plugin is not enabled. Please enable it in the configuration file (piri.plugins.window_order = true).",
        ), false),
        IpcRequest::MarkToggle { .. } | IpcRequest::MarkDelete { .. } | IpcRequest::MarkAdd { .. } => (plugin_error_exec(
            plugins.is_enabled("mark"),
            "Mark plugin is enabled but not initialized. Please restart the daemon.",
            "Mark plugin is not enabled. Set piri.plugins.mark = true in the config.",
        ), false),
        IpcRequest::StickyAdd { .. } | IpcRequest::StickyDelete => (plugin_error_exec(
            plugins.is_enabled("sticky"),
            "Sticky plugin is enabled but not initialized. Please restart the daemon.",
            "Sticky plugin is not enabled. Set piri.plugins.sticky = true in the config.",
        ), false),
    }
}

/// The daemon's answer to a request, given what the plugins made of it (`None` when no
/// plugin handles it, else the plugin's outcome with its error text), and whether the daemon
/// should shut down. A plugin's success is `Success` and its error is `Error` with the same
/// text; a request no plugin handles gets the fallback answer. Only a `Shutdown` request that
/// no plugin handles shuts the daemon down.
pub fn request_response(
    request: &IpcRequest,
    plugins: &PluginsConfig,
    plugin_result: Option<Result<(), String>>,
) -> (r: (IpcResponse, bool))
    ensures
        match plugin_result {
            Some(Ok(())) => r.0 is Success && !r.1,
            Some(Err(e)) => r.0 matches IpcResponse::Error(m) && m@ == e@ && !r.1,
            None => {
                let s = fallback_spec(*request, *plugins);
                &&& r.1 == s.2
                &&& match s.0 {
                    Some(msg) => r.0 matches IpcResponse::Error(m) && m@ == msg,
                    None => if s.1 { r.0 is Pong } else { r.0 is Success },
                }
            },
        },
        r.1 <==> (plugin_result is None && *request is Shutdown),
{
    match plugin_result {
        Some(Ok(())) => (IpcResponse::Success, false),
        Some(Err(e)) => (IpcResponse::Error(e), false),
        None => fallback_response(request, plugins),
    }
}

/// What the command line does with the daemon's answer.
#[derive(Debug)]
pub enum ResponseOutcome {
    /// Print this line and succeed.
    Print(String),
    /// Notify with `notice` and fail with `error`.
    Fail { notice: String, error: String },
}

/// The outcome of a subcommand from the daemon's answer: success prints the success
/// message, a pong prints "Pong", an error notifies and fails with the prefixed message.
pub fn response_outcome(response: IpcResponse, success_msg: &str, error_prefix: &str) -> (r: ResponseOutcome)
    ensures
        match response {
            IpcResponse::Success => r matches ResponseOutcome::Print(s) && s@ == success_msg@,
            IpcResponse::Pong => r matches ResponseOutcome::Print(s) && s@ == "Pong"@,
            IpcResponse::Error(e) => r matches ResponseOutcome::Fail { notice, error } && notice@ == e@
                && error@ == error_prefix@ + ": "@ + e@,
        },
{
    match response {
        IpcResponse::Success => ResponseOutcome::Print(String::from_str(success_msg)),
        IpcResponse::Pong => ResponseOutcome::Print(String::from_str("Pong")),
        IpcResponse::Error(e) => {
            let error = String::from_str(error_prefix).concat(": ").concat(e.as_str());
            ResponseOutcome::Fail { notice: e, error }
        },
    }
}

} // verus!
