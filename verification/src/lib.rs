//! A minimal HTTP greeting service, stated and verified.
//!
//! The service answers `GET /` and `GET /index.html` with a fixed greeting,
//! listens on a fixed local address, and emits one log line at startup and
//! one for each request to the root path.  Everything the service decides —
//! which paths are served, what body and status they get, which requests are
//! logged, where to bind — lives here with a contract.  The web framework and
//! the logger that carry those decisions out are wired up outside the
//! library.

pub mod text;
pub mod routes;
pub mod config;
