//! External middlewares: programs that receive a JSON request on standard
//! input and answer with a JSON response on standard output.
//!
//! Starting the program and moving the bytes is left to the caller; this
//! module builds the requests, checks what came back and applies it.
use crate::clock::{is_clock_stamp, now_rfc3339};
use crate::encoding::{base64_encode, base64_len, base64_text};
use crate::executor::{Context, ExecutionResult};
use crate::ids::{default_id_text, nil_id};
use crate::strmap::StrMap;
use crate::text::{decimal, join, u64_text};
use vstd::prelude::*;
use vstd::string::*;
use vstd::utf8::encode_utf8;

verus! {

/// `s` occurs in `p` as a contiguous run of characters.
pub open spec fn is_infix(s: Seq<char>, p: Seq<char>) -> bool {
    exists|i: int| 0 <= i && i + s.len() <= p.len() && #[trigger] p.subrange(i, i + s.len()) == s
}

/// A path that every platform splits the same way: no `\`, no `:`, and
/// not starting with `//`, so that only `/` separates its components and it
/// has no prefix.
pub open spec fn is_plain_path(p: Seq<char>) -> bool {
    &&& !p.contains('\\')
    &&& !p.contains(':')
    &&& !(p.len() >= 2 && p[0] == '/' && p[1] == '/')
}

/// The characters after the last `/`.
pub open spec fn trailing_segment(p: Seq<char>) -> Seq<char>
    decreases p.len(),
{
    if p.len() == 0 || p.last() == '/' {
        Seq::empty()
    } else {
        trailing_segment(p.drop_last()).push(p.last())
    }
}

/// The file name of a plain path: its last component, where repeated and
/// trailing `/` and `.` components do not count; none when the path ends in
/// `..` or has no component.
pub open spec fn file_name_of(p: Seq<char>) -> Option<Seq<char>>
    decreases p.len(),
{
    if p.len() == 0 {
        None
    } else if p.last() == '/' {
        file_name_of(p.drop_last())
    } else {
        let seg = trailing_segment(p);
        if seg == seq!['.'] {
            file_name_of(p.drop_last())
        } else if seg == seq!['.', '.'] {
            None
        } else {
            Some(seg)
        }
    }
}

/// The characters before the last `.`, if there is one.
pub open spec fn before_last_dot(name: Seq<char>) -> Option<Seq<char>>
    decreases name.len(),
{
    if name.len() == 0 {
        None
    } else if name.last() == '.' {
        Some(name.drop_last())
    } else {
        before_last_dot(name.drop_last())
    }
}

/// The stem of a file name: the part before its last `.`, or the whole name
/// when it has no `.` or its only `.` comes first.
pub open spec fn stem_of_name(name: Seq<char>) -> Seq<char> {
    match before_last_dot(name) {
        Some(b) => if b.len() > 0 {
            b
        } else {
            name
        },
        None => name,
    }
}

/// The file stem of a plain path.
pub open spec fn plain_file_stem(p: Seq<char>) -> Option<Seq<char>> {
    match file_name_of(p) {
        Some(n) => Some(stem_of_name(n)),
        None => None,
    }
}

/// `std::path::Path::new(path).file_stem()`, as text. How a path splits
/// into components depends on the platform; for a plain path the stem is
/// stated exactly (`std::path::Path::components`, `file_name` and
/// `file_stem` as documented). On any path a stem is a non-empty run of the
/// path's characters; it holds no `/` when the path holds no `\`, since `/`
/// separates components on every platform except inside a Windows verbatim
/// path (one that starts with `\\?\`), where only `\` does. What a stem
/// holds on a path with `\` is left unsaid.
#[verifier::external_body]
fn path_file_stem(path: &str) -> (r: Option<String>)
    ensures
        r matches Some(s) ==> s@.len() > 0 && is_infix(s@, path@),
        r matches Some(s) ==> (!path@.contains('\\') ==> !s@.contains('/')),
        is_plain_path(path@) ==> r.deep_view() == plain_file_stem(path@),
{
    match std::path::Path::new(path).file_stem() {
        Some(stem) => match stem.to_str() {
            Some(text) => Some(text.to_string()),
            None => None,
        },
        None => None,
    }
}

/// A name the registry may give the program at `path`: for a plain path,
/// its file stem (or `unknown` when it has none); on any path, `unknown` or a
/// non-empty run of the path's characters, without `/` when the path holds
/// no `\`.
pub open spec fn is_name_for(name: Seq<char>, path: Seq<char>) -> bool {
    &&& is_plain_path(path) ==> name == name_from_stem(plain_file_stem(path))
    &&& (name == "unknown"@ || (name.len() > 0 && is_infix(name, path) && (!path.contains(
        '\\',
    ) ==> !name.contains('/'))))
}

/// The name given to a middleware: the stem of its path, or `unknown`.
pub open spec fn name_from_stem(stem: Option<Seq<char>>) -> Seq<char> {
    match stem {
        Some(s) => s,
        None => "unknown"@,
    }
}

/// The name from a stem: the stem itself, or `unknown` when there is none.
pub fn name_or_unknown(stem: Option<String>) -> (r: String)
    ensures
        r@ == name_from_stem(stem.deep_view()),
{
    match stem {
        Some(s) => s,
        None => String::from_str("unknown"),
    }
}

/// The name of the middleware at `path`: the file name without its
/// extension, or `unknown` when the path has no file name.
pub fn name_for_path(path: &str) -> (r: String)
    ensures
        is_name_for(r@, path@),
{
    name_or_unknown(path_file_stem(path))
}

/// How an external middleware program is run.
pub struct ExternalMiddlewareConfig {
    pub path: String,
    pub timeout_secs: u64,
    pub args: Vec<String>,
    pub env_vars: StrMap<String>,
    pub working_dir: Option<String>,
}

impl View for ExternalMiddlewareConfig {
    type V = ExternalMiddlewareConfig;

    open spec fn view(&self) -> ExternalMiddlewareConfig {
        *self
    }
}

/// The timeout, in seconds, of an external middleware unless set otherwise.
pub const DEFAULT_EXTERNAL_TIMEOUT_SECS: u64 = 30;

impl ExternalMiddlewareConfig {
    /// The settings for the program at `path`: a 30 second timeout, no
    /// arguments, no extra environment, the current working directory.
    pub open spec fn is_defaults_for(self, path: Seq<char>) -> bool {
        &&& self.path@ == path
        &&& self.timeout_secs == DEFAULT_EXTERNAL_TIMEOUT_SECS
        &&& self.args@.len() == 0
        &&& self.env_vars@ == Map::<Seq<char>, Seq<char>>::empty()
        &&& self.working_dir is None
    }

    /// The default settings for the program at `path`.
    pub fn new(path: String) -> (c: Self)
        ensures
            c.is_defaults_for(path@),
    {
        ExternalMiddlewareConfig {
            path,
            timeout_secs: DEFAULT_EXTERNAL_TIMEOUT_SECS,
            args: Vec::new(),
            env_vars: StrMap::new(),
            working_dir: None,
        }
    }

    /// A copy of the settings.
    pub fn duplicate(&self) -> (c: Self)
        ensures
            c.path@ == self.path@,
            c.timeout_secs == self.timeout_secs,
            c.args@ == self.args@,
            c.env_vars@ == self.env_vars@,
            c.working_dir == self.working_dir,
    {
        let mut args: Vec<String> = Vec::new();
        for i in 0..self.args.len()
            invariant
                args@.len() == i,
                forall|j: int| 0 <= j < i ==> #[trigger] args@[j] == self.args@[j],
        {
            args.push(self.args[i].clone());
        }
        assert(args@ =~= self.args@);
        let working_dir = match &self.working_dir {
            Some(d) => Some(d.clone()),
            None => None,
        };
        ExternalMiddlewareConfig {
            path: self.path.clone(),
            timeout_secs: self.timeout_secs,
            args,
            env_vars: self.env_vars.duplicate(),
            working_dir,
        }
    }
}

impl Default for ExternalMiddlewareConfig {
    fn default() -> (c: Self)
        ensures
            c.is_defaults_for(Seq::empty()),
    {
        ExternalMiddlewareConfig::new(String::new())
    }
}

/// The `metadata` member of a request.
pub enum RequestMetadata {
    /// Before a request: the context's metadata, as an object of strings.
    Entries(StrMap<String>),
    /// After a request: the context's metadata under `original_metadata`,
    /// and the result under `execution_result`.
    Outcome {
        original_metadata: StrMap<String>,
        success: bool,
        status: String,
        duration_ms: u128,
    },
}

/// What is sent to an external middleware.
pub struct MiddlewareRequest {
    /// `before` or `after`.
    pub action: String,
    pub execution_id: String,
    pub protocol: String,
    pub target: String,
    pub payload: Option<String>,
    pub headers: Vec<(String, String)>,
    pub metadata: RequestMetadata,
    /// Configuration for the middleware, as JSON text.
    pub config: Option<String>,
    pub timestamp: String,
}

/// The `modified_metadata` member of a response.
pub enum MetadataUpdate {
    /// An object whose members are all strings.
    Entries(StrMap<String>),
    /// Any other JSON value; it is ignored.
    Unusable,
}

/// What an external middleware answers.
pub struct MiddlewareResponse {
    pub action: String,
    pub execution_id: String,
    pub should_continue: bool,
    pub modified_payload: Option<String>,
    pub modified_headers: Option<Vec<(String, String)>>,
    pub modified_metadata: Option<MetadataUpdate>,
    pub error_message: Option<String>,
    /// The `metrics` member, as JSON text.
    pub metrics: Option<String>,
}

/// Why a call of an external middleware failed.
pub enum ExternalMiddlewareError {
    /// The program exited with a failure status; its standard error.
    ExecutionFailed(String),
    /// The program did not finish within this many seconds.
    Timeout(u64),
    /// The answer could not be read.
    ParseError(String),
    /// The middleware asked to stop; its message.
    Rejected(String),
    /// Starting or talking to the program failed.
    Io(String),
    /// The request could not be written as JSON.
    Json(String),
}

impl ExternalMiddlewareError {
    /// The text of the error's message.
    pub open spec fn message_text(&self) -> Seq<char> {
        match self {
            ExternalMiddlewareError::ExecutionFailed(d) => "Middleware execution failed: "@ + d@,
            ExternalMiddlewareError::Timeout(secs) => "Middleware timeout after "@ + decimal(
                *secs as nat,
            ) + " seconds"@,
            ExternalMiddlewareError::ParseError(d) => "Failed to parse middleware response: "@
                + d@,
            ExternalMiddlewareError::Rejected(d) => "Middleware rejected the request: "@ + d@,
            ExternalMiddlewareError::Io(d) => "IO error: "@ + d@,
            ExternalMiddlewareError::Json(d) => "JSON error: "@ + d@,
        }
    }

    /// The error's message.
    pub fn message(&self) -> (m: String)
        ensures
            m@ == self.message_text(),
    {
        match self {
            ExternalMiddlewareError::ExecutionFailed(d) => join(
                "Middleware execution failed: ",
                d.as_str(),
            ),
            ExternalMiddlewareError::Timeout(secs) => {
                let digits = u64_text(*secs);
                let head = join("Middleware timeout after ", digits.as_str());
                join(head.as_str(), " seconds")
            },
            ExternalMiddlewareError::ParseError(d) => join(
                "Failed to parse middleware response: ",
                d.as_str(),
            ),
            ExternalMiddlewareError::Rejected(d) => join(
                "Middleware rejected the request: ",
                d.as_str(),
            ),
            ExternalMiddlewareError::Io(d) => join("IO error: ", d.as_str()),
            ExternalMiddlewareError::Json(d) => join("JSON error: ", d.as_str()),
        }
    }
}

impl ExternalMiddlewareError {
    /// The message with which a middleware hook fails: a rejection reads
    /// "Middleware rejected request: " and the middleware's message; any
    /// other error reads as its `message`.
    pub fn hook_message(&self) -> (m: String)
        ensures
            self matches ExternalMiddlewareError::Rejected(d) ==> m@
                == "Middleware rejected request: "@ + d@,
            !(self is Rejected) ==> m@ == self.message_text(),
    {
        match self {
            ExternalMiddlewareError::Rejected(d) => join(
                "Middleware rejected request: ",
                d.as_str(),
            ),
            _ => self.message(),
        }
    }
}

/// What metadata a response adds: the members of a usable update, or nothing.
pub open spec fn update_view(u: Option<MetadataUpdate>) -> Map<Seq<char>, Seq<char>> {
    match u {
        Some(MetadataUpdate::Entries(m)) => m@,
        _ => Map::empty(),
    }
}

/// The message of a rejection: the response's error message, or nothing.
pub open spec fn rejection_message(error_message: Option<String>) -> Seq<char> {
    match error_message {
        Some(m) => m@,
        None => Seq::empty(),
    }
}

/// The UTF-8 bytes of a text.
pub open spec fn utf8_bytes(s: Seq<char>) -> Seq<u8> {
    encode_utf8(s)
}

/// A middleware that runs as a separate program.
pub struct ExternalMiddleware {
    config: ExternalMiddlewareConfig,
    name: String,
}

impl ExternalMiddleware {
    /// How the program is run.
    pub closed spec fn spec_config(&self) -> ExternalMiddlewareConfig {
        self.config
    }

    /// The middleware's name.
    pub closed spec fn spec_name(&self) -> Seq<char> {
        self.name@
    }

    /// The middleware at `path` with default settings, named by the given
    /// stem of the path (or `unknown`).
    pub fn from_stem(path: String, stem: Option<String>) -> (m: Self)
        ensures
            m.spec_config().is_defaults_for(path@),
            m.spec_name() == name_from_stem(stem.deep_view()),
    {
        ExternalMiddleware { config: ExternalMiddlewareConfig::new(path), name: name_or_unknown(stem) }
    }

    /// The middleware at `path` with default settings, named by the file
    /// name of the path without its extension (or `unknown`).
    pub fn new(path: String) -> (m: Self)
        ensures
            m.spec_config().is_defaults_for(path@),
            is_name_for(m.spec_name(), path@),
    {
        let name = name_for_path(path.as_str());
        ExternalMiddleware { config: ExternalMiddlewareConfig::new(path), name }
    }

    /// The same middleware run with other settings.
    pub fn with_config(self, config: ExternalMiddlewareConfig) -> (m: Self)
        ensures
            m.spec_config() == config,
            m.spec_name() == self.spec_name(),
    {
        ExternalMiddleware { config, name: self.name }
    }

    /// The same middleware with another timeout.
    pub fn with_timeout(self, timeout_secs: u64) -> (m: Self)
        ensures
            m.spec_config() == (ExternalMiddlewareConfig { timeout_secs, ..self.spec_config() }),
            m.spec_name() == self.spec_name(),
    {
        let mut m = self;
        m.config.timeout_secs = timeout_secs;
        m
    }

    /// The same middleware with other program arguments.
    pub fn with_args(self, args: Vec<String>) -> (m: Self)
        ensures
            m.spec_config() == (ExternalMiddlewareConfig { args, ..self.spec_config() }),
            m.spec_name() == self.spec_name(),
    {
        let mut m = self;
        m.config.args = args;
        m
    }

    /// The middleware's name.
    pub fn name(&self) -> (r: &str)
        ensures
            r@ == self.spec_name(),
    {
        self.name.as_str()
    }

    /// Settings shown to other middlewares: none.
    pub fn config(&self) -> (r: Option<&StrMap<String>>)
        ensures
            r is None,
    {
        None
    }

    /// How the program is run.
    pub fn settings(&self) -> (r: &ExternalMiddlewareConfig)
        ensures
            *r == self.spec_config(),
    {
        &self.config
    }

    /// The request sent before execution, stamped with `timestamp`: the
    /// context's metadata under the nil execution id, everything else empty.
    pub fn before_request(&self, context: &Context, timestamp: String) -> (r: MiddlewareRequest)
        ensures
            r.action@ == "before"@,
            r.execution_id@ == nil_id(),
            r.protocol@ == Seq::<char>::empty(),
            r.target@ == Seq::<char>::empty(),
            r.payload is None,
            r.headers@.len() == 0,
            r.metadata matches RequestMetadata::Entries(m) && m@ == context.metadata@,
            r.config is None,
            r.timestamp@ == timestamp@,
    {
        MiddlewareRequest {
            action: String::from_str("before"),
            execution_id: default_id_text(),
            protocol: String::new(),
            target: String::new(),
            payload: None,
            headers: Vec::new(),
            metadata: RequestMetadata::Entries(context.metadata.duplicate()),
            config: None,
            timestamp,
        }
    }

    /// The request sent before execution, stamped with the current time.
    pub fn prepare_before(&self, context: &Context) -> (r: MiddlewareRequest)
        ensures
            r.action@ == "before"@,
            r.execution_id@ == nil_id(),
            r.protocol@ == Seq::<char>::empty(),
            r.target@ == Seq::<char>::empty(),
            r.payload is None,
            r.headers@.len() == 0,
            r.metadata matches RequestMetadata::Entries(m) && m@ == context.metadata@,
            r.config is None,
            is_clock_stamp(r.timestamp@),
    {
        self.before_request(context, now_rfc3339())
    }

    /// The request sent after execution, stamped with `timestamp`: the
    /// response data in base64 (none when empty), the context's metadata and
    /// the result's success, status and duration in milliseconds.
    pub fn after_request(&self, result: &ExecutionResult, context: &Context, timestamp: String) -> (r:
        MiddlewareRequest)
        requires
            base64_len(result.data@.len()) <= usize::MAX,
        ensures
            r.action@ == "after"@,
            r.execution_id@ == nil_id(),
            r.protocol@ == Seq::<char>::empty(),
            r.target@ == Seq::<char>::empty(),
            result.data@.len() == 0 ==> r.payload is None,
            result.data@.len() > 0 ==> (r.payload matches Some(p) && p@ == base64_text(result.data@)),
            r.headers@.len() == 0,
            r.metadata matches RequestMetadata::Outcome {
                original_metadata,
                success,
                status,
                duration_ms,
            } && original_metadata@ == context.metadata@ && success == result.success && status@
                == result.status@ && duration_ms == result.duration / 1_000_000,
            r.config is None,
            r.timestamp@ == timestamp@,
    {
        let payload = if result.data.len() == 0 {
            None
        } else {
            Some(base64_encode(result.data.as_slice()))
        };
        MiddlewareRequest {
            action: String::from_str("after"),
            execution_id: default_id_text(),
            protocol: String::new(),
            target: String::new(),
            payload,
            headers: Vec::new(),
            metadata: RequestMetadata::Outcome {
                original_metadata: context.metadata.duplicate(),
                success: result.success,
                status: result.status.clone(),
                duration_ms: result.duration / 1_000_000,
            },
            config: None,
            timestamp,
        }
    }

    /// The request sent after execution, stamped with the current time.
    pub fn prepare_after(&self, result: &ExecutionResult, context: &Context) -> (r:
        MiddlewareRequest)
        requires
            base64_len(result.data@.len()) <= usize::MAX,
        ensures
            r.action@ == "after"@,
            r.execution_id@ == nil_id(),
            r.protocol@ == Seq::<char>::empty(),
            r.target@ == Seq::<char>::empty(),
            result.data@.len() == 0 ==> r.payload is None,
            result.data@.len() > 0 ==> (r.payload matches Some(p) && p@ == base64_text(result.data@)),
            r.headers@.len() == 0,
            r.metadata matches RequestMetadata::Outcome {
                original_metadata,
                success,
                status,
                duration_ms,
            } && original_metadata@ == context.metadata@ && success == result.success && status@
                == result.status@ && duration_ms == result.duration / 1_000_000,
            r.config is None,
            is_clock_stamp(r.timestamp@),
    {
        self.after_request(result, context, now_rfc3339())
    }

    /// Checks what the program gave back: a failure status is an execution
    /// failure carrying its standard error; an unreadable answer is a parse
    /// error; an answer for another execution id is a parse error too.
    pub fn check_output(
        request: &MiddlewareRequest,
        exit_success: bool,
        stderr: String,
        parsed: Result<MiddlewareResponse, String>,
    ) -> (r: Result<MiddlewareResponse, ExternalMiddlewareError>)
        ensures
            !exit_success ==> (r matches Err(ExternalMiddlewareError::ExecutionFailed(e)) && e@
                == stderr@),
            exit_success ==> match parsed {
                Err(msg) => r matches Err(ExternalMiddlewareError::ParseError(e)) && e@ == msg@,
                Ok(resp) => if resp.execution_id@ == request.execution_id@ {
                    r == Ok::<MiddlewareResponse, ExternalMiddlewareError>(resp)
                } else {
                    r matches Err(ExternalMiddlewareError::ParseError(e)) && e@
                        == "Execution ID mismatch"@
                },
            },
    {
        if !exit_success {
            return Err(ExternalMiddlewareError::ExecutionFailed(stderr));
        }
        match parsed {
            Err(msg) => Err(ExternalMiddlewareError::ParseError(msg)),
            Ok(resp) => {
                if resp.execution_id == request.execution_id {
                    Ok(resp)
                } else {
                    Err(ExternalMiddlewareError::ParseError(String::from_str("Execution ID mismatch")))
                }
            },
        }
    }

    /// The metadata key under which the execution id is kept.
    pub open spec fn execution_id_key(&self) -> Seq<char> {
        self.spec_name() + "_execution_id"@
    }

    /// The metadata key under which the middleware's metrics are kept.
    pub open spec fn metrics_key(&self) -> Seq<char> {
        self.spec_name() + "_metrics"@
    }

    /// Applies the answer to a `before` request. A middleware that does not
    /// let the request continue rejects it with its message, and the context
    /// stays as it is. Otherwise the usable metadata it returns is merged
    /// into the context, and the execution id is recorded under the
    /// middleware's name.
    pub fn apply_before(&self, context: &mut Context, response: MiddlewareResponse) -> (r: Result<
        (),
        ExternalMiddlewareError,
    >)
        ensures
            !response.should_continue ==> (r matches Err(ExternalMiddlewareError::Rejected(m)) && m@
                == rejection_message(response.error_message)),
            !response.should_continue ==> *final(context) == *old(context),
            response.should_continue ==> r is Ok && final(context).metadata@ == old(
                context,
            ).metadata@.union_prefer_right(update_view(response.modified_metadata)).insert(
                self.execution_id_key(),
                nil_id(),
            ) && *final(context) == (Context { metadata: final(context).metadata, ..*old(context) }),
    {
        if !response.should_continue {
            let message = match response.error_message {
                Some(m) => m,
                None => String::new(),
            };
            return Err(ExternalMiddlewareError::Rejected(message));
        }
        match &response.modified_metadata {
            Some(MetadataUpdate::Entries(m)) => {
                context.metadata.extend_from(m);
            },
            _ => {
                assert(old(context).metadata@.union_prefer_right(Map::empty()) =~= old(
                    context,
                ).metadata@);
            },
        }
        let key = join(self.name.as_str(), "_execution_id");
        context.metadata.insert(key, default_id_text());
        Ok(())
    }

    /// Applies the answer to an `after` request. A middleware that does not
    /// let execution continue rejects it with its message, and the result
    /// stays as it is. Otherwise a modified payload becomes the result's
    /// data, encoded once more in base64; usable metadata is merged into the
    /// result; metrics are kept under the middleware's name.
    pub fn apply_after(&self, result: &mut ExecutionResult, response: MiddlewareResponse) -> (r:
        Result<(), ExternalMiddlewareError>)
        requires
            response.modified_payload matches Some(p) ==> base64_len(utf8_bytes(p@).len())
                <= usize::MAX,
        ensures
            !response.should_continue ==> (r matches Err(ExternalMiddlewareError::Rejected(m)) && m@
                == rejection_message(response.error_message)),
            !response.should_continue ==> *final(result) == *old(result),
            response.should_continue ==> r is Ok,
            response.should_continue ==> (response.modified_payload matches Some(p) ==> final(result).data@ == utf8_bytes(base64_text(utf8_bytes(p@)))),
            response.should_continue ==> (response.modified_payload is None ==> final(result).data@ == old(result).data@),
            response.should_continue ==> (response.metrics matches Some(t) ==> final(result).metadata@ == old(result).metadata@.union_prefer_right(
                update_view(response.modified_metadata),
            ).insert(self.metrics_key(), t@)),
            response.should_continue ==> (response.metrics is None ==> final(result).metadata@
                == old(result).metadata@.union_prefer_right(
                update_view(response.modified_metadata),
            )),
            final(result).success == old(result).success,
            final(result).status == old(result).status,
            final(result).duration == old(result).duration,
    {
        if !response.should_continue {
            let message = match response.error_message {
                Some(m) => m,
                None => String::new(),
            };
            return Err(ExternalMiddlewareError::Rejected(message));
        }
        match &response.modified_payload {
            Some(p) => {
                let encoded = base64_encode(p.as_str().as_bytes());
                result.data = encoded.as_str().as_bytes_vec();
            },
            None => {},
        }
        match &response.modified_metadata {
            Some(MetadataUpdate::Entries(m)) => {
                result.metadata.extend_from(m);
            },
            _ => {
                assert(old(result).metadata@.union_prefer_right(Map::empty()) =~= old(result).metadata@);
            },
        }
        match response.metrics {
            Some(t) => {
                let key = join(self.name.as_str(), "_metrics");
                result.metadata.insert(key, t);
            },
            None => {},
        }
        Ok(())
    }
}

} // verus!
