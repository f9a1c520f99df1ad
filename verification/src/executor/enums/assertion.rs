//! How a response assertion locates and compares its value.
use vstd::prelude::*;

verus! {

/// The language in which an assertion locates its value.
#[derive(Clone, Copy, Debug, PartialEq, Eq, Structural)]
pub enum AssertTypeEnum {
    JsonPath,
    XmlPath,
}

/// How an assertion compares the located value.
#[derive(Clone, Copy, Debug, PartialEq, Eq, Structural)]
pub enum AssertOperatorEnum {
    Eq,
    NotEq,
}

} // verus!
