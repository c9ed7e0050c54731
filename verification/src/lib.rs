//! Component-model values paired with their types, and the bookkeeping of an
//! API definition registry.
pub mod analysed_type;
pub mod value;
pub mod value_and_type;
pub mod into_value;
pub mod wit;
pub mod conversion_laws;
pub mod platform;
pub mod api_definition;
pub mod service;
