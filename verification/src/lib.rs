//! An example MCP server: demo handlers with every result shape, the registry
//! they are put on, and the rules by which the server starts on a request.
//!
//! - [`tools`]: the handlers and their registration.
//! - [`router`]: what a server offers.
//! - [`protocol`]: definitions, outcomes and their views.
//! - [`json`]: JSON values, and all that is believed of `serde_json`.
//! - [`startup`]: when a request is served and when it is refused.
//! - [`laws`]: what holds of the handlers as a whole.

pub mod json;
pub mod laws;
pub mod protocol;
pub mod router;
pub mod startup;
mod text;
pub mod tools;
