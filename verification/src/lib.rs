//! X.509 certificate support: key-usage names, validation error codes,
//! message digest sizes and the plan that builds a self-signed certificate.

pub mod certificate;
pub mod generator;
pub mod hash;
pub mod usage;
pub mod validation;
