//! The dispatcher boundary: route a decoded input to a concrete command,
//! or short-circuit to an error envelope before any command is built.
//!
//! Decode-time failures (missing or unknown method, malformed input,
//! fields that do not fit the command) never reach command execution;
//! every path through dispatch ends in exactly one envelope.

use vstd::prelude::*;
use crate::envelope::{Response, ResponseOk};
use crate::errors::ResponseErr;
use crate::requests::{connect_response, ConnectRequest, Method, Request};
use crate::state::SharedEditorState;

verus! {

/// A raw request after transport decoding: either not protocol-shaped at
/// all, or the protocol's two logical fields, each possibly absent.
pub enum RequestInput {
    /// Input that does not have the protocol's own shape.
    Malformed,
    /// A protocol-shaped input: a method name and a client identifier.
    Fields { method: Option<String>, client_id: Option<String> },
}

/// The envelope dispatch owes for each input: the error taxonomy's
/// decode-time kinds for rejected inputs, and the command's own result
/// for a recognized one. `connect` demands a non-empty client identifier;
/// anything less fails to fit the command's field types.
pub open spec fn dispatch_outcome(input: RequestInput) -> Result<ResponseOk, ResponseErr> {
    match input {
        RequestInput::Malformed => Err(ResponseErr::MalformedInput),
        RequestInput::Fields { method, client_id } => match method {
            None => Err(ResponseErr::MissingMethod),
            Some(m) => if m@ != "connect"@ {
                Err(ResponseErr::InvalidMethod)
            } else {
                match client_id {
                    None => Err(ResponseErr::DeserializationError),
                    Some(c) => if c@.len() == 0 {
                        Err(ResponseErr::DeserializationError)
                    } else {
                        Ok(connect_response())
                    },
                }
            },
        },
    }
}

/// Decode an input into a concrete command and execute it, or answer
/// directly with the matching decode-time error. Every input yields
/// exactly one envelope; only a recognized, well-typed command ever
/// touches the shared state.
pub fn dispatch(input: RequestInput, state: &SharedEditorState) -> (r: Response)
    requires
        state.wf(),
    ensures
        r.0 == dispatch_outcome(input),
{
    match input {
        RequestInput::Malformed => Response(Err(ResponseErr::MalformedInput)),
        RequestInput::Fields { method, client_id } => match method {
            None => Response(Err(ResponseErr::MissingMethod)),
            Some(m) => match Method::from_wire_name(&m) {
                None => Response(Err(ResponseErr::InvalidMethod)),
                Some(tag) => match client_id {
                    None => Response(Err(ResponseErr::DeserializationError)),
                    Some(c) => {
                        if c.as_str().is_empty() {
                            Response(Err(ResponseErr::DeserializationError))
                        } else {
                            let cmd = ConnectRequest { client_id: c, method: tag };
                            cmd.exec(state)
                        }
                    },
                },
            },
        },
    }
}

} // verus!
