//! The connection handle: ownership of one bound native registry
//! connection, with scoped, idempotent release.
//!
//! The native create/bind/unbind/destroy calls themselves live with the
//! surrounding program; the handle records whether the connection is
//! bound and decides, on each release, whether the native teardown must
//! run, so that it runs exactly once however many times release is
//! invoked.

use vstd::prelude::*;
use crate::error::SMFError;
use crate::error::SMFErrorKind;

verus! {

/// One native registry connection. `is_bound()` holds exactly while
/// the native connection is bound; construction never yields an
/// allocated-but-unbound handle. A handle is for one thread making
/// sequential calls; concurrent callers each hold a private handle or
/// serialize access themselves.
pub struct SCFHandle {
    bound: bool,
}

/// What one `close` call does: afterwards the handle is unbound, and
/// the native teardown (unbind plus destroy) is owed exactly when the
/// handle was bound before the call.
pub open spec fn close_transition(pre: SCFHandle, post: SCFHandle, teardown: bool) -> bool {
    &&& !post.is_bound()
    &&& teardown == pre.is_bound()
}

impl SCFHandle {
    /// Whether the native connection is currently bound.
    pub closed spec fn is_bound(&self) -> bool {
        self.bound
    }

    /// Concludes the native create-and-bind sequence: the caller
    /// performs the native calls and reports whether bind succeeded,
    /// with the registry's failure message read at that moment. A
    /// successful open always yields a bound handle; a failed bind
    /// yields the translated registry error (the caller releases the
    /// failed allocation, so no bound-failed handle ever exists).
    pub fn open(bind_ok: bool, registry_failure: String) -> (r: Result<SCFHandle, SMFError>)
        ensures
            bind_ok ==> (r matches Ok(h) && h.is_bound()),
            !bind_ok ==> (r matches Err(e) && e.kind == SMFErrorKind::Registry
                && e.smf_error@ == registry_failure@),
    {
        if bind_ok {
            Ok(SCFHandle { bound: true })
        } else {
            Err(SMFError::new(registry_failure))
        }
    }

    /// Whether the native connection is currently bound, as a value a
    /// caller can test before lending the handle out.
    pub fn bound(&self) -> (b: bool)
        ensures
            b == self.is_bound(),
    {
        self.bound
    }

    /// Releases the connection: idempotent, and infallible. Returns
    /// whether the caller must now run the native unbind-and-destroy;
    /// that is owed exactly once, on the first call.
    pub fn close(&mut self) -> (teardown: bool)
        ensures
            close_transition(*old(self), *final(self), teardown),
    {
        let was_bound = self.bound;
        self.bound = false;
        was_bound
    }
}

/// Releasing a handle twice never runs the native teardown twice: the
/// second release performs no action, whatever the first did. Neither
/// call can fail, since `close` is infallible by its type.
pub proof fn lemma_release_idempotent(
    h0: SCFHandle,
    h1: SCFHandle,
    h2: SCFHandle,
    t1: bool,
    t2: bool,
)
    requires
        close_transition(h0, h1, t1),
        close_transition(h1, h2, t2),
    ensures
        !t2,
        !(t1 && t2),
{
}

} // verus!
