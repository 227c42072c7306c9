//! A fixed catalog of cars, looked up by name, with the JSON responses that
//! answer a lookup request.

pub mod catalog;
pub mod json;
pub mod response;
