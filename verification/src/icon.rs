//! The icon resource owner: the handle-ownership discipline for the
//! live icon.
//!
//! Realizing a canvas as a platform icon yields an opaque handle; the
//! embedding program passes that handle in and carries the superseded
//! one back to the platform for destruction. The owner itself decides
//! which handle is live and counts installs and releases, so the
//! lifecycle discipline — at most one live handle, every installed
//! handle released exactly once, never a double release — is its
//! invariant rather than a convention at the call sites.

use vstd::prelude::*;

verus! {

/// Owns the single live icon resource of the session.
#[derive(Clone, Copy, Debug, PartialEq, Eq)]
pub struct IconOwner {
    /// The handle currently live (published to the shell), if any.
    pub live: Option<u64>,
    /// Successful installs over the session so far.
    pub installed: u64,
    /// Release operations handed back to the platform so far.
    pub released: u64,
}

impl IconOwner {
    /// Releases never outnumber installs, and exactly the live handle,
    /// when there is one, is installed but not yet released.
    pub open spec fn wf(self) -> bool {
        &&& self.released <= self.installed
        &&& self.installed - self.released == (if self.live is Some {
            1int
        } else {
            0int
        })
    }

    /// An owner with no live handle and an empty history.
    pub fn new() -> (owner: IconOwner)
        ensures
            owner.wf(),
            owner.live is None,
            owner.installed == 0,
            owner.released == 0,
    {
        IconOwner { live: None, installed: 0, released: 0 }
    }

    /// The owner after `handle` is installed: `handle` becomes live,
    /// the install is counted, and the previously live handle, if any,
    /// counts as released.
    pub open spec fn spec_install(self, handle: u64) -> IconOwner {
        IconOwner {
            live: Option::Some(handle),
            installed: (self.installed + 1) as u64,
            released: if self.live is Some {
                (self.released + 1) as u64
            } else {
                self.released
            },
        }
    }

    /// Swaps `handle` in as the live icon, atomically from the
    /// caller's point of view: the returned superseded handle is
    /// already unlinked when the call returns, and handing it back to
    /// the platform for destruction is what the release count records.
    pub fn install(&mut self, handle: u64) -> (superseded: Option<u64>)
        requires
            old(self).wf(),
            old(self).installed < u64::MAX,
        ensures
            final(self).wf(),
            *final(self) == old(self).spec_install(handle),
            superseded == old(self).live,
    {
        let superseded: Option<u64> = self.live;
        self.live = Some(handle);
        self.installed = self.installed + 1;
        if superseded.is_some() {
            self.released = self.released + 1;
        }
        superseded
    }

    /// The currently live handle, if any.
    pub fn current(&self) -> (handle: Option<u64>)
        ensures
            handle == self.live,
    {
        self.live
    }

    /// The owner after shutdown: nothing is live and every install has
    /// been matched by a release.
    pub open spec fn spec_release_all(self) -> IconOwner {
        IconOwner { live: Option::None, installed: self.installed, released: self.installed }
    }

    /// Releases the last live handle at shutdown: afterwards nothing is
    /// live and every install has been matched by exactly one release.
    /// Returns the handle the platform must destroy; a no-op when
    /// nothing is live.
    pub fn release_all(&mut self) -> (released_handle: Option<u64>)
        requires
            old(self).wf(),
        ensures
            final(self).wf(),
            *final(self) == old(self).spec_release_all(),
            final(self).released == final(self).installed,
            released_handle == old(self).live,
    {
        let released_handle: Option<u64> = self.live;
        self.live = None;
        if released_handle.is_some() {
            self.released = self.released + 1;
        }
        released_handle
    }
}

/// The lifecycle discipline in one statement: under the owner's
/// invariant, releases never exceed installs (no double free) and trail
/// them by at most the one live handle (no leak beyond the handle still
/// published).
pub proof fn lemma_release_discipline(owner: IconOwner)
    requires
        owner.wf(),
    ensures
        owner.released <= owner.installed,
        owner.installed - owner.released <= 1,
{
}

} // verus!
