//! The single-step middleware: turns one request file into the context's
//! step list.
use crate::executor::protocol::BaseProtocol;
use crate::executor::{Context, ExecutionResult};
use crate::middleware::builtin::settings_view;
use crate::strmap::StrMap;
use crate::text::join;
use vstd::prelude::*;

verus! {

/// Reads one request file into a single step.
pub struct SingleTransferMiddleware {
    config: Option<StrMap<String>>,
}

impl SingleTransferMiddleware {
    /// The settings the middleware was created with.
    pub closed spec fn settings(&self) -> Option<Map<Seq<char>, Seq<char>>> {
        settings_view(self.config)
    }

    /// The middleware without settings.
    pub fn new() -> (m: Self)
        ensures
            m.settings() is None,
    {
        SingleTransferMiddleware { config: None }
    }

    /// The middleware with the given settings.
    pub fn create(&self, config: Option<StrMap<String>>) -> (m: Self)
        ensures
            m.settings() == settings_view(config),
    {
        SingleTransferMiddleware { config }
    }

    /// The middleware's name.
    pub fn name(&self) -> (r: &'static str)
        ensures
            r@ == "single transfer"@,
    {
        "single transfer"
    }

    /// The middleware's settings.
    pub fn config(&self) -> (r: Option<&StrMap<String>>)
        ensures
            settings_view(match r {
                Some(m) => Some(*m),
                None => None,
            }) == self.settings(),
    {
        self.config.as_ref()
    }

    /// Takes the request file's parsed step: appends it to the step list,
    /// or, when the file did not parse, fails with the parser's message and
    /// leaves the context as it is.
    pub fn accept_step(&self, context: &mut Context, parsed: Result<BaseProtocol, String>) -> (r:
        Result<(), String>)
        ensures
            parsed matches Ok(step) ==> r is Ok && final(context).step_list@ == old(
                context,
            ).step_list@.push(step) && *final(context) == (Context {
                step_list: final(context).step_list,
                ..*old(context)
            }),
            parsed matches Err(e) ==> (r matches Err(m) && m@ == "Failed to parse request: "@ + e@),
            parsed is Err ==> *final(context) == *old(context),
    {
        match parsed {
            Ok(step) => {
                context.step_list.push(step);
                Ok(())
            },
            Err(e) => Err(join("Failed to parse request: ", e.as_str())),
        }
    }

    /// Nothing is done after the request.
    pub fn after(&self, result: &mut ExecutionResult, context: &Context) -> (r: Result<(), String>)
        ensures
            r is Ok,
            *final(result) == *old(result),
    {
        Ok(())
    }
}

} // verus!
