//! The metrics middleware: stamps the start of a request and records its
//! duration, response size and success.
use crate::clock::{has_signed_year, is_clock_stamp, millis_since_rfc3339, now_rfc3339, rfc3339_accepts};
use crate::executor::{Context, ExecutionResult};
use crate::ids::{default_id_text, nil_id};
use crate::middleware::builtin::settings_view;
use crate::strmap::StrMap;
use crate::text::{bool_text, decimal, i64_text, signed_decimal, u64_text};
use vstd::prelude::*;
use vstd::string::*;

verus! {

/// The text of a boolean as `to_string` writes it.
pub open spec fn bool_word(b: bool) -> Seq<char> {
    if b {
        "true"@
    } else {
        "false"@
    }
}

/// The metadata after a request: the elapsed time when it is known, then the
/// response size and the success flag.
pub open spec fn outcome_metadata(
    m: Map<Seq<char>, Seq<char>>,
    elapsed_ms: Option<i64>,
    size: nat,
    success: bool,
) -> Map<Seq<char>, Seq<char>> {
    let with_time = match elapsed_ms {
        Some(ms) => m.insert("total_duration_ms"@, signed_decimal(ms as int)),
        None => m,
    };
    with_time.insert("response_size_bytes"@, decimal(size)).insert("success"@, bool_word(success))
}

/// The metadata after the start of a request: the start time and the
/// request id (the nil UUID) set.
pub open spec fn start_stamped(m: Map<Seq<char>, Seq<char>>, start_time: Seq<char>) -> Map<
    Seq<char>,
    Seq<char>,
> {
    m.insert("start_time"@, start_time).insert("request_id"@, nil_id())
}

/// Whether the metadata holds a start time that parses as RFC 3339, so that
/// the elapsed time can be measured from it.
pub open spec fn measures_elapsed(m: Map<Seq<char>, Seq<char>>) -> bool {
    m.contains_key("start_time"@) && rfc3339_accepts(m["start_time"@])
}

/// A request stamped by `before` is timed by `after`: when the start time
/// read from the clock has a year up to 9999, the context holds a start time
/// that parses, and whatever elapsed time `after` obtains for it is recorded
/// under `total_duration_ms`.
pub proof fn lemma_start_is_timed(
    m: Map<Seq<char>, Seq<char>>,
    start_time: Seq<char>,
    outcome: Map<Seq<char>, Seq<char>>,
    elapsed_ms: Option<i64>,
    size: nat,
    success: bool,
)
    requires
        is_clock_stamp(start_time),
        !has_signed_year(start_time),
        elapsed_ms is Some <==> measures_elapsed(start_stamped(m, start_time)),
    ensures
        measures_elapsed(start_stamped(m, start_time)),
        start_stamped(m, start_time)["start_time"@] == start_time,
        outcome_metadata(outcome, elapsed_ms, size, success).contains_key("total_duration_ms"@),
        outcome_metadata(outcome, elapsed_ms, size, success)["total_duration_ms"@]
            == signed_decimal(elapsed_ms->0 as int),
{
    assert("start_time"@ != "request_id"@) by {
        reveal_strlit("start_time");
        reveal_strlit("request_id");
        assert("start_time"@[0] != "request_id"@[0]);
    }
    assert("total_duration_ms"@ != "response_size_bytes"@ && "total_duration_ms"@ != "success"@)
        by {
        reveal_strlit("total_duration_ms");
        reveal_strlit("response_size_bytes");
        reveal_strlit("success");
        assert("total_duration_ms"@[0] != "response_size_bytes"@[0]);
        assert("total_duration_ms"@[0] != "success"@[0]);
    }
}

/// Collects metrics about each execution.
pub struct MetricsMiddleware {
    config: Option<StrMap<String>>,
}

impl MetricsMiddleware {
    /// The settings the middleware was created with.
    pub closed spec fn settings(&self) -> Option<Map<Seq<char>, Seq<char>>> {
        settings_view(self.config)
    }

    /// A metrics collector without settings.
    pub fn new() -> (m: Self)
        ensures
            m.settings() is None,
    {
        MetricsMiddleware { config: None }
    }

    /// A metrics collector with the given settings.
    pub fn create(&self, config: Option<StrMap<String>>) -> (m: Self)
        ensures
            m.settings() == settings_view(config),
    {
        MetricsMiddleware { config }
    }

    /// The middleware's name.
    pub fn name(&self) -> (r: &'static str)
        ensures
            r@ == "metrics"@,
    {
        "metrics"
    }

    /// The middleware's settings.
    pub fn config(&self) -> (r: Option<&StrMap<String>>)
        ensures
            settings_view(match r {
                Some(m) => Some(*m),
                None => None,
            }) == self.settings(),
    {
        self.config.as_ref()
    }

    /// Stamps the context with the start time given and the request id (the
    /// nil UUID); nothing else changes.
    pub fn record_start(context: &mut Context, start_time: String)
        ensures
            final(context).metadata@ == start_stamped(old(context).metadata@, start_time@),
            *final(context) == (Context { metadata: final(context).metadata, ..*old(context) }),
    {
        context.metadata.insert(String::from_str("start_time"), start_time);
        let request_id = default_id_text();
        context.metadata.insert(String::from_str("request_id"), request_id);
    }

    /// Stamps the context with the current time and the request id.
    pub fn before(&self, context: &mut Context) -> (r: Result<(), String>)
        ensures
            r is Ok,
            final(context).metadata@ == start_stamped(
                old(context).metadata@,
                final(context).metadata@["start_time"@],
            ),
            is_clock_stamp(final(context).metadata@["start_time"@]),
            *final(context) == (Context { metadata: final(context).metadata, ..*old(context) }),
    {
        let start_time = now_rfc3339();
        Self::record_start(context, start_time);
        assert(final(context).metadata@["start_time"@] == start_time@) by {
            assert("start_time"@ != "request_id"@) by {
                reveal_strlit("start_time");
                reveal_strlit("request_id");
                assert("start_time"@[0] != "request_id"@[0]);
            }
        }
        Ok(())
    }

    /// The same hook as `before`.
    pub fn before_execute(&self, context: &mut Context) -> (r: Result<(), String>)
        ensures
            r is Ok,
            final(context).metadata@ == start_stamped(
                old(context).metadata@,
                final(context).metadata@["start_time"@],
            ),
            is_clock_stamp(final(context).metadata@["start_time"@]),
            *final(context) == (Context { metadata: final(context).metadata, ..*old(context) }),
    {
        self.before(context)
    }

    /// Records the elapsed time (when known), the response size and the
    /// success flag in the result's metadata; nothing else changes.
    pub fn record_outcome(result: &mut ExecutionResult, elapsed_ms: Option<i64>)
        ensures
            final(result).metadata@ == outcome_metadata(
                old(result).metadata@,
                elapsed_ms,
                old(result).data@.len(),
                old(result).success,
            ),
            *final(result) == (ExecutionResult { metadata: final(result).metadata, ..*old(result) }),
    {
        match elapsed_ms {
            Some(ms) => {
                result.metadata.insert(String::from_str("total_duration_ms"), i64_text(ms));
            },
            None => {},
        }
        let size = u64_text(result.data.len() as u64);
        result.metadata.insert(String::from_str("response_size_bytes"), size);
        let success = bool_text(result.success);
        result.metadata.insert(String::from_str("success"), success);
    }

    /// Records the metrics of a finished request. The elapsed time is
    /// recorded exactly when the context holds a start time that parses as
    /// RFC 3339; its value comes from the clock.
    pub fn after(&self, result: &mut ExecutionResult, context: &Context) -> (r: Result<(), String>)
        ensures
            r is Ok,
            exists|elapsed_ms: Option<i64>|
                {
                    &&& (elapsed_ms is Some <==> measures_elapsed(context.metadata@))
                    &&& final(result).metadata@ == outcome_metadata(
                        old(result).metadata@,
                        elapsed_ms,
                        old(result).data@.len(),
                        old(result).success,
                    )
                },
            *final(result) == (ExecutionResult { metadata: final(result).metadata, ..*old(result) }),
    {
        let elapsed = match context.metadata.get("start_time") {
            Some(start) => millis_since_rfc3339(start.as_str()),
            None => None,
        };
        Self::record_outcome(result, elapsed);
        Ok(())
    }

    /// The same hook as `after`.
    pub fn after_execute(&self, result: &mut ExecutionResult, context: &Context) -> (r: Result<
        (),
        String,
    >)
        ensures
            r is Ok,
            exists|elapsed_ms: Option<i64>|
                {
                    &&& (elapsed_ms is Some <==> measures_elapsed(context.metadata@))
                    &&& final(result).metadata@ == outcome_metadata(
                        old(result).metadata@,
                        elapsed_ms,
                        old(result).data@.len(),
                        old(result).success,
                    )
                },
            *final(result) == (ExecutionResult { metadata: final(result).metadata, ..*old(result) }),
    {
        self.after(result, context)
    }
}

} // verus!
