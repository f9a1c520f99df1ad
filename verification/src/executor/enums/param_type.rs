//! Types of request parameters.
use vstd::prelude::*;

verus! {

/// The type of a request parameter.
#[derive(Clone, Copy, Debug, PartialEq, Eq, Structural)]
pub enum ParamTypeEnum {
    String,
    Integer,
    Number,
    Boolean,
    Binary,
    Byte,
    Array,
    Object,
}

} // verus!
