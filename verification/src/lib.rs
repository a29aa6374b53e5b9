//! Credential issuance and session management: login by password and by
//! one-time password, short-lived sessions, and every account flow that
//! touches a credential.
//!
//! The service is written as decisions (`service`): an operation is handed
//! the answer of a collaborator, decides, and asks the next question or
//! ends. The questions and answers are in `protocol`. `world` holds the
//! collaborators in memory, a `repository` and a `cache`, and runs
//! operations against them; what holds of every such run is proved in
//! `laws`, `agreement` and `progress`.
//!
//! Around the service: how failures are shown (`error`, `validation`), the
//! session cookie (`http_cookie`), settings (`config`), and a scan of
//! route and handler sources (`analyze`).

pub mod agreement;
pub mod analyze;
pub mod cache;
pub mod config;
pub mod crypto;
pub mod error;
pub mod http_cookie;
pub mod laws;
pub mod model;
pub mod progress;
pub mod protocol;
pub mod repository;
pub mod service;
pub mod supply;
pub mod validation;
pub mod world;
