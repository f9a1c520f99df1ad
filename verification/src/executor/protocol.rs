//! The steps of a request file.
use crate::executor::enums::assertion::{AssertOperatorEnum, AssertTypeEnum};
use crate::executor::enums::param_type::ParamTypeEnum;
use crate::executor::enums::protocol::ProtocolEnum;
use crate::strmap::StrMap;
use crate::yaml::YamlValue;
use vstd::prelude::*;

verus! {

/// One step of a request file: its variables and meta data, its protocol,
/// and the protocol-specific request data.
pub struct BaseProtocol {
    pub variables: StrMap<YamlValue>,
    pub meta: StrMap<YamlValue>,
    pub protocol: ProtocolEnum,
    pub data: YamlValue,
}

impl BaseProtocol {
    /// Whether the step's data is read as an HTTP request model: for the
    /// `http` and `https` protocols; the data of any other protocol is kept
    /// as it is.
    pub fn carries_http_data(&self) -> (r: bool)
        ensures
            r == (self.protocol == ProtocolEnum::Http || self.protocol == ProtocolEnum::Https),
    {
        match self.protocol {
            ProtocolEnum::Http | ProtocolEnum::Https => true,
            _ => false,
        }
    }
}

/// A named, typed request parameter.
pub struct ParamDTO {
    pub name: String,
    pub value: YamlValue,
    /// The parameter's type (`type` in the request file).
    pub param_type: ParamTypeEnum,
}

/// An assertion on a response.
pub struct AssertDTO {
    /// The assertion's kind (`type` in the request file).
    pub assert_type: AssertTypeEnum,
    pub type_value: YamlValue,
    pub value: YamlValue,
    pub operator: AssertOperatorEnum,
}

} // verus!
