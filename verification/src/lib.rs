//! Self-registering webhook client library.
//!
//! The library holds the decision logic of a small webhook endpoint: the
//! canonical event model with its text codec, the shared state cell that
//! deliveries commit to, the port-scan state machine used to find a free
//! local port, and the registration retry protocol spoken with the remote
//! controller. All network and file I/O stays outside the library; callers
//! drive the state machines and hand in the outcomes of their probes and
//! HTTP attempts.

pub mod models;
pub mod ports;
pub mod registration;
pub mod state;
pub mod text;
pub mod webhook;
