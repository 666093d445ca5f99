//! Request/response envelope protocol for a mutex-guarded editor service.
//!
//! A client sends a typed command; the service dispatches it against shared
//! editor state and answers with a uniform envelope that distinguishes
//! success from failure, backed by a stable error taxonomy and an exact
//! wire encoding.

pub mod errors;
pub mod wire;
pub mod envelope;
pub mod state;
pub mod requests;
pub mod dispatch;

pub use dispatch::{dispatch, RequestInput};
pub use envelope::{ConnRespStruct, Response, ResponseOk};
pub use errors::ResponseErr;
pub use requests::{ConnectRequest, Method, Request};
pub use state::{EditorState, SharedEditorState};
