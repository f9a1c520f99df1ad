//! YAML values carried through the library without being read.
use vstd::prelude::*;

verus! {

#[verifier::external_type_specification]
#[verifier::external_body]
pub struct ExYamlValue(serde_yaml::Value);

/// Copies a value with `serde_yaml::Value`'s `Clone`, which that crate
/// derives: the copy is the same value as `v`.
#[verifier::external_body]
fn clone_value(v: &serde_yaml::Value) -> (r: serde_yaml::Value)
    ensures
        r == *v,
{
    v.clone()
}

/// A YAML value, as `serde_yaml` reads it from a document.
pub struct YamlValue(pub serde_yaml::Value);

impl View for YamlValue {
    type V = YamlValue;

    open spec fn view(&self) -> YamlValue {
        *self
    }
}

impl YamlValue {
    /// A copy of the value.
    pub fn duplicate(&self) -> (r: Self)
        ensures
            r == *self,
    {
        YamlValue(clone_value(&self.0))
    }
}

} // verus!
