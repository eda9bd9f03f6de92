//! The delivery boundary of an application: which OCI repository its artifacts come from.

pub use crate::domain::release::{DeliverySpecification, DeliveryType};
