//! Command-line arguments of the executor, as plain values.
use crate::text::find_char;
use vstd::prelude::*;
use vstd::string::*;

verus! {

/// The arguments the executor is started with.
pub struct Cli {
    /// Protocol to use (http, websocket, etc.)
    pub protocol: Protocol,
    /// Target URL or address
    pub target: String,
    /// Path to configuration file
    pub config: Option<String>,
    /// Request payload (JSON or raw)
    pub payload: Option<String>,
    /// Request headers (key=value pairs)
    pub headers: Option<Vec<(String, String)>>,
    /// Timeout in seconds
    pub timeout: u64,
    /// Number of retries
    pub retry_count: u32,
    /// Paths to external middleware executables
    pub middleware: Option<Vec<String>>,
    /// Enable verbose output
    pub verbose: bool,
    /// Execute middleware only (dry run)
    pub dry_run: bool,
}

/// The protocols that can be named on the command line.
#[derive(Clone, Copy, Debug, PartialEq, Eq, Structural)]
pub enum Protocol {
    Http,
    Https,
    WebSocket,
    Ws,
    Wss,
    Tcp,
    Udp,
}

/// How a request file is run: one step, or a workflow of steps.
#[derive(Clone, Copy, Debug, PartialEq, Eq, Structural)]
pub enum Mode {
    Single,
    Workflow,
}

impl Mode {
    /// The lower-case name of the mode, under which its middleware chain is configured.
    pub open spec fn spec_name(self) -> Seq<char> {
        match self {
            Mode::Single => "single"@,
            Mode::Workflow => "workflow"@,
        }
    }

    /// The lower-case name of the mode (its `Debug` name in lower case).
    pub fn name(&self) -> (s: String)
        ensures
            s@ == self.spec_name(),
    {
        match self {
            Mode::Single => String::from_str("single"),
            Mode::Workflow => String::from_str("workflow"),
        }
    }
}

/// The message given for a header argument without `=`.
pub open spec fn header_format_message() -> Seq<char> {
    "Header must be in format key=value"@
}

/// Splits a `key=value` header argument at its first `=`.
pub fn parse_header(s: &str) -> (r: Result<(String, String), String>)
    ensures
        r is Ok <==> s@.contains('='),
        r matches Ok((k, v)) ==> s@ == k@ + seq!['='] + v@ && !k@.contains('='),
        r matches Err(e) ==> e@ == header_format_message(),
{
    match find_char(s, '=') {
        Some(i) => {
            let n = s.unicode_len();
            let key = String::from_str(s.substring_char(0, i));
            let value = String::from_str(s.substring_char(i + 1, n));
            assert(s@ =~= key@ + seq!['='] + value@);
            Ok((key, value))
        },
        None => Err(String::from_str("Header must be in format key=value")),
    }
}

/// For a key without `=`, splitting `key=value` gives back the key and the value.
pub proof fn lemma_header_roundtrip(key: Seq<char>, value: Seq<char>, k: Seq<char>, v: Seq<char>)
    requires
        !key.contains('='),
        !k.contains('='),
        key + seq!['='] + value == k + seq!['='] + v,
    ensures
        k == key,
        v == value,
{
    let s = key + seq!['='] + value;
    if k.len() < key.len() {
        assert(s[k.len() as int] == '=');
        assert(key[k.len() as int] == s[k.len() as int]);
    } else if k.len() > key.len() {
        assert(s[key.len() as int] == '=');
        assert(k[key.len() as int] == s[key.len() as int]);
    }
    assert(k =~= s.subrange(0, k.len() as int));
    assert(key =~= s.subrange(0, key.len() as int));
    assert(v =~= s.subrange(k.len() as int + 1, s.len() as int));
    assert(value =~= s.subrange(key.len() as int + 1, s.len() as int));
}

} // verus!
