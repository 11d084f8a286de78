//! Failure taxonomy of a small web service that shows information about git
//! repositories, and the policy that turns a failure into an HTTP response.

pub mod diagnostic;
pub mod error;
pub mod kind;
pub mod response;
pub mod state;
