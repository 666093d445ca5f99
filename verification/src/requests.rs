//! The request abstraction and its command variants.
//!
//! Every concrete command implements one capability: execute against the
//! shared editor state under its exclusive lock and return an envelope.
//! Adding a command means adding one variant, one execution rule and one
//! success-payload shape — nothing in the envelope layer changes.

use vstd::prelude::*;
use crate::envelope::{ConnRespStruct, Response, ResponseOk};
use crate::errors::ResponseErr;
use crate::state::{EditorState, SharedEditorState};

verus! {

/// The tag identifying which command a request represents. Every wire
/// method name maps to exactly one variant; unknown names are rejected
/// before a command is built.
#[derive(Copy, Clone, Debug, PartialEq, Eq, Structural)]
pub enum Method {
    Connect,
}

impl Method {
    /// The wire name of this method.
    pub open spec fn wire_name_spec(self) -> Seq<char> {
        match self {
            Method::Connect => "connect"@,
        }
    }

    /// The wire name of this method.
    pub fn wire_name(&self) -> (s: &'static str)
        ensures
            s@ == self.wire_name_spec(),
    {
        match self {
            Method::Connect => "connect",
        }
    }

    /// Resolve a wire method name; every name other than a known one is
    /// rejected with `None`.
    pub fn from_wire_name(name: &String) -> (r: Option<Method>)
        ensures
            r == (if name@ == "connect"@ {
                Some(Method::Connect)
            } else {
                None::<Method>
            }),
    {
        if *name == "connect".to_owned() {
            Some(Method::Connect)
        } else {
            None
        }
    }
}

/// The diagnostic payload every successful `connect` reports.
pub open spec fn connect_response() -> ResponseOk {
    ResponseOk::ConnectResponse(ConnRespStruct { test_field: 974 })
}

/// The capability every concrete command implements: execute against the
/// shared editor state, producing exactly the envelope the command's
/// specification names. The lock is held only for the duration of the
/// command's effect and is released on every path out of `exec`.
pub trait Request {
    /// The envelope this command is specified to produce.
    spec fn response_spec(&self) -> Response;

    /// Execute the command against the shared editor state.
    fn exec(&self, state: &SharedEditorState) -> (r: Response)
        requires
            state.wf(),
        ensures
            r == self.response_spec(),
    ;
}

/// A decoded `connect` command: the requesting client's identifier and
/// its method tag.
#[derive(Debug)]
pub struct ConnectRequest {
    pub client_id: String,
    pub method: Method,
}

impl ConnectRequest {
    /// A well-formed connect command names a client and carries its own
    /// method tag.
    pub open spec fn wf(self) -> bool {
        self.client_id@.len() > 0 && self.method == Method::Connect
    }

    /// The command's effect on the editor state, applied while the lock
    /// is held: `connect` validates the session request and builds its
    /// payload, leaving the editor state untouched.
    pub fn apply(&self, ed: &mut EditorState) -> (r: Result<ResponseOk, ResponseErr>)
        ensures
            *final(ed) == *old(ed),
            r == Ok::<ResponseOk, ResponseErr>(connect_response()),
    {
        Ok(ResponseOk::ConnectResponse(ConnRespStruct { test_field: 974 }))
    }
}

impl Request for ConnectRequest {
    open spec fn response_spec(&self) -> Response {
        Response(Ok(connect_response()))
    }

    fn exec(&self, state: &SharedEditorState) -> (r: Response) {
        let (mut ed, handle) = state.acquire();
        let outcome = self.apply(&mut ed);
        handle.release_write(ed);
        Response(outcome)
    }
}

/// Run a batch of commands one after the other against the same shared
/// state: each acquires and releases the lock in turn, which is exactly
/// the sequential order a lock-linearized concurrent run collapses to.
pub fn exec_all(cmds: &Vec<ConnectRequest>, state: &SharedEditorState) -> (rs: Vec<Response>)
    requires
        state.wf(),
    ensures
        rs@.len() == cmds@.len(),
        forall|i: int| 0 <= i < rs@.len() ==> (#[trigger] rs@[i]).0 == Ok::<
            ResponseOk,
            ResponseErr,
        >(connect_response()),
{
    let mut rs: Vec<Response> = Vec::new();
    let mut i: usize = 0;
    while i < cmds.len()
        invariant
            state.wf(),
            i <= cmds@.len(),
            rs@.len() == i,
            forall|j: int| 0 <= j < rs@.len() ==> (#[trigger] rs@[j]).0 == Ok::<
                ResponseOk,
                ResponseErr,
            >(connect_response()),
        decreases cmds@.len() - i,
    {
        let r = cmds[i].exec(state);
        rs.push(r);
        i = i + 1;
    }
    rs
}

/// The state transformer a `connect` denotes: the identity, per the
/// command's minimal contract.
pub open spec fn connect_step(c: ConnectRequest, s: EditorState) -> EditorState {
    s
}

/// The editor state after running a sequence of commands in order, each
/// one's effect applied while it alone holds the lock.
pub open spec fn run_spec(cmds: Seq<ConnectRequest>, s: EditorState) -> EditorState
    decreases cmds.len(),
{
    if cmds.len() == 0 {
        s
    } else {
        run_spec(cmds.drop_last(), connect_step(cmds.last(), s))
    }
}

/// Running any command sequence preserves the editor state: with the
/// present command set every command's effect is the identity.
pub proof fn lemma_run_preserves_state(cmds: Seq<ConnectRequest>, s: EditorState)
    ensures
        run_spec(cmds, s) == s,
    decreases cmds.len(),
{
    if cmds.len() > 0 {
        lemma_run_preserves_state(cmds.drop_last(), s);
    }
}

/// Linearization: two schedules that run the same commands — any two
/// interleavings a lock collapses to sequential orders — end in the same
/// final editor state. No command ever observes or leaves a partial
/// mutation, so the outcome is independent of arrival order.
pub proof fn lemma_schedules_agree(a: Seq<ConnectRequest>, b: Seq<ConnectRequest>, s: EditorState)
    requires
        a.to_multiset() == b.to_multiset(),
    ensures
        run_spec(a, s) == run_spec(b, s),
{
    lemma_run_preserves_state(a, s);
    lemma_run_preserves_state(b, s);
}

} // verus!
