//! The validating middleware: checks the target against the protocol and
//! fills in a missing timeout.
use crate::cli::Protocol;
use crate::executor::{Context, ExecutionResult};
use crate::middleware::builtin::settings_view;
use crate::strmap::StrMap;
use crate::text::{has_prefix, join, starts_with};
use vstd::prelude::*;
use vstd::string::*;

verus! {

/// Responses larger than this many bytes are reported.
pub const RESPONSE_SIZE_LIMIT: usize = 10485760;

/// The timeout, in seconds, given to a context that has none.
pub const DEFAULT_TIMEOUT_SECS: u64 = 30;

/// Why a target is refused for a protocol, if it is: an empty target is
/// refused; HTTP targets must start with `http`, WebSocket targets with `ws`.
pub open spec fn target_error(protocol: Protocol, target: Seq<char>) -> Option<Seq<char>> {
    if target.len() == 0 {
        Some("Target URL cannot be empty"@)
    } else {
        match protocol {
            Protocol::Http | Protocol::Https => if has_prefix(target, "http"@) {
                None
            } else {
                Some("Invalid HTTP URL: "@ + target)
            },
            Protocol::WebSocket | Protocol::Ws | Protocol::Wss => if has_prefix(target, "ws"@) {
                None
            } else {
                Some("Invalid WebSocket URL: "@ + target)
            },
            _ => None,
        }
    }
}

/// The target starts with `h`, `t`, `t`, `p`.
pub open spec fn starts_http(t: Seq<char>) -> bool {
    t.len() >= 4 && t[0] == 'h' && t[1] == 't' && t[2] == 't' && t[3] == 'p'
}

/// The target starts with `w`, `s`.
pub open spec fn starts_ws(t: Seq<char>) -> bool {
    t.len() >= 2 && t[0] == 'w' && t[1] == 's'
}

/// Which targets are refused: an empty one always; for HTTP and HTTPS a
/// target not starting with `http`; for the WebSocket protocols one not
/// starting with `ws`; for any other protocol none that is not empty. The
/// message names the target.
pub proof fn lemma_target_error_by_prefix(protocol: Protocol, target: Seq<char>)
    ensures
        target.len() == 0 ==> target_error(protocol, target) == Some("Target URL cannot be empty"@),
        target.len() > 0 && (protocol is Http || protocol is Https) ==> (target_error(
            protocol,
            target,
        ) == if starts_http(target) {
            None
        } else {
            Some("Invalid HTTP URL: "@ + target)
        }),
        target.len() > 0 && (protocol is WebSocket || protocol is Ws || protocol is Wss) ==> (
        target_error(protocol, target) == if starts_ws(target) {
            None
        } else {
            Some("Invalid WebSocket URL: "@ + target)
        }),
        target.len() > 0 && !(protocol is Http || protocol is Https || protocol is WebSocket
            || protocol is Ws || protocol is Wss) ==> target_error(protocol, target) is None,
{
    reveal_strlit("http");
    reveal_strlit("ws");
    if starts_http(target) {
        assert(target.subrange(0, 4) =~= "http"@);
    } else if has_prefix(target, "http"@) {
        assert(target.subrange(0, 4)[0] == target[0]);
        assert(target.subrange(0, 4)[1] == target[1]);
        assert(target.subrange(0, 4)[2] == target[2]);
        assert(target.subrange(0, 4)[3] == target[3]);
    }
    if starts_ws(target) {
        assert(target.subrange(0, 2) =~= "ws"@);
    } else if has_prefix(target, "ws"@) {
        assert(target.subrange(0, 2)[0] == target[0]);
        assert(target.subrange(0, 2)[1] == target[1]);
    }
}

/// Checks requests before they run.
pub struct ValidatorMiddleware {
    config: Option<StrMap<String>>,
}

impl ValidatorMiddleware {
    /// The settings the middleware was created with.
    pub closed spec fn settings(&self) -> Option<Map<Seq<char>, Seq<char>>> {
        settings_view(self.config)
    }

    /// A validator without settings.
    pub fn new() -> (m: Self)
        ensures
            m.settings() is None,
    {
        ValidatorMiddleware { config: None }
    }

    /// A validator with the given settings.
    pub fn create(&self, config: Option<StrMap<String>>) -> (m: Self)
        ensures
            m.settings() == settings_view(config),
    {
        ValidatorMiddleware { config }
    }

    /// The middleware's name.
    pub fn name(&self) -> (r: &'static str)
        ensures
            r@ == "validator"@,
    {
        "validator"
    }

    /// The middleware's settings.
    pub fn config(&self) -> (r: Option<&StrMap<String>>)
        ensures
            settings_view(match r {
                Some(m) => Some(*m),
                None => None,
            }) == self.settings(),
    {
        self.config.as_ref()
    }

    /// The checks of the registered validator: none, the context is left as it is.
    pub fn before(&self, context: &mut Context) -> (r: Result<(), String>)
        ensures
            r is Ok,
            *final(context) == *old(context),
    {
        Ok(())
    }

    /// Checks the target against the protocol; on success a zero timeout
    /// becomes the default timeout, and on failure the context is unchanged.
    pub fn before_execute(&self, context: &mut Context) -> (r: Result<(), String>)
        ensures
            target_error(old(context).protocol, old(context).target@) matches Some(m) ==> (r matches Err(e) && e@ == m),
            target_error(old(context).protocol, old(context).target@) is Some ==> *final(context) == *old(context),
            target_error(old(context).protocol, old(context).target@) is None ==> r is Ok && *final(context) == (Context {
                timeout: if old(context).timeout == 0 {
                    30
                } else {
                    old(context).timeout
                },
                ..*old(context)
            }),
            r is Ok ==> final(context).timeout > 0,
            (old(context).protocol is WebSocket || old(context).protocol is Ws
                || old(context).protocol is Wss) ==> (r is Ok <==> starts_ws(old(context).target@)),
            (old(context).protocol is Http || old(context).protocol is Https) ==> (r is Ok
                <==> starts_http(old(context).target@)),
    {
        proof {
            lemma_target_error_by_prefix(context.protocol, context.target@);
        }
        if context.target.as_str().unicode_len() == 0 {
            return Err(String::from_str("Target URL cannot be empty"));
        }
        match context.protocol {
            Protocol::Http | Protocol::Https => {
                if !starts_with(context.target.as_str(), "http") {
                    return Err(join("Invalid HTTP URL: ", context.target.as_str()));
                }
            },
            Protocol::WebSocket | Protocol::Ws | Protocol::Wss => {
                if !starts_with(context.target.as_str(), "ws") {
                    return Err(join("Invalid WebSocket URL: ", context.target.as_str()));
                }
            },
            _ => {},
        }
        if context.timeout == 0 {
            context.timeout = DEFAULT_TIMEOUT_SECS;
        }
        Ok(())
    }

    /// Whether the response is larger than the reported size (10 MiB); the
    /// result itself is not changed.
    pub fn after_execute(&self, result: &ExecutionResult) -> (oversized: bool)
        ensures
            oversized == (result.data@.len() > 10 * 1024 * 1024),
    {
        result.data.len() > RESPONSE_SIZE_LIMIT
    }

    /// The same check as `after_execute`.
    pub fn after(&self, result: &ExecutionResult) -> (oversized: bool)
        ensures
            oversized == (result.data@.len() > 10 * 1024 * 1024),
    {
        self.after_execute(result)
    }
}

} // verus!
