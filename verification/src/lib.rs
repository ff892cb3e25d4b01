//! Request construction for the Internode command-line client: every
//! command's API request (method, path, query string and JSON body), the
//! checks that refuse bad arguments, and the error codes the client exits
//! with.

pub mod commands;
pub mod digest;
pub mod error;
pub mod json;
pub mod number;
pub mod request;
pub mod response;
pub mod text;
pub mod urlenc;
