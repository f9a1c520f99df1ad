//! The built-in middlewares.
pub mod logger;
pub mod metrics;
pub mod single_transfer;
pub mod validator;

use crate::strmap::StrMap;
use vstd::prelude::*;

verus! {

/// What an optional text map maps its keys to.
pub open spec fn settings_view(c: Option<StrMap<String>>) -> Option<Map<Seq<char>, Seq<char>>> {
    match c {
        Some(m) => Some(m@),
        None => None,
    }
}

} // verus!
