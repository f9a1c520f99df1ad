//! Enumerations shared by the request models.
pub mod assertion;
pub mod param_type;
pub mod protocol;
