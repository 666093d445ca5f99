//! The shared editor state and its exclusive-access lock.
//!
//! One editor instance lives behind a lock for the process lifetime;
//! every command's state effect happens while the lock is held, so all
//! effects are linearized. What the editor holds is no concern of this
//! layer: one abstract word stands for its whole document state, which is
//! enough for contracts to say whether a command changed it.

use vstd::prelude::*;
use vstd::rwlock::{RwLock, WriteHandle};

verus! {

/// The protocol's stand-in for the editor instance. The protocol never
/// interprets `doc`; it only hands the value to commands under the lock.
#[derive(Copy, Clone, Debug, PartialEq, Eq, Structural)]
pub struct EditorState {
    pub doc: u64,
}

/// An exclusive-access handle on the editor state, valid until released.
pub type EditorWriteHandle<'a> = WriteHandle<'a, EditorState, spec_fn(EditorState) -> bool>;

/// The single editor instance, shared across concurrently dispatched
/// requests and reachable only under mutual exclusion.
pub struct SharedEditorState {
    pub lock: RwLock<EditorState, spec_fn(EditorState) -> bool>,
}

impl SharedEditorState {
    /// The lock admits every editor value, so a holder may always release
    /// it, whatever the command left behind.
    pub open spec fn wf(self) -> bool {
        forall|v: EditorState| #[trigger] self.lock.inv(v)
    }

    /// Wrap an editor instance for shared use.
    pub fn new(ed: EditorState) -> (s: SharedEditorState)
        ensures
            s.wf(),
    {
        let s = SharedEditorState { lock: RwLock::new(ed, Ghost(|v: EditorState| true)) };
        proof {
            assert forall|v: EditorState| s.lock.inv(v) by {
                assert(s.lock.pred()(v));
            }
        }
        s
    }

    /// Acquire exclusive access: blocks until the previous holder has
    /// released, then returns the editor value and the handle that must
    /// be used to release it.
    pub fn acquire(&self) -> (ret: (EditorState, EditorWriteHandle<'_>))
        ensures
            ret.1.rwlock() == self.lock,
    {
        self.lock.acquire_write()
    }
}

} // verus!
