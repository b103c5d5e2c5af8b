use vstd::prelude::*;

use crate::error::NfscrsJniError;
use crate::handles::HandleRegistry;

verus! {

/// The handles of one process: sessions, and the files opened through them.
/// Each file records the session handle it was opened with.
pub struct Bridge<S, F> {
    pub sessions: HandleRegistry<S>,
    pub files: HandleRegistry<F>,
}

impl<S, F> Bridge<S, F> {
    /// A bridge with no handles.
    pub fn new() -> (r: Bridge<S, F>)
        ensures
            r.sessions@ == Map::<u64, S>::empty(),
            r.files@ == Map::<u64, F>::empty(),
            forall|h: u64| !r.sessions.is_busy(h) && !r.files.is_busy(h),
    {
        Bridge { sessions: HandleRegistry::new(), files: HandleRegistry::new() }
    }

    /// Registers an established session and returns its handle.
    pub fn add_session(&mut self, session: S) -> (r: Result<u64, NfscrsJniError>)
        ensures
            old(self).sessions.slots().len() < crate::handles::MAX_SLOTS ==> r is Ok,
            r matches Ok(h) ==> {
                &&& h != 0
                &&& old(self).sessions.slot_of(h) is None
                &&& final(self).sessions@ == old(self).sessions@.insert(h, session)
            },
            r is Err ==> final(self).sessions@ == old(self).sessions@,
            forall|k: u64| #[trigger] final(self).sessions.is_busy(k) == old(self).sessions.is_busy(k),
            final(self).files == old(self).files,
    {
        self.sessions.create(session, 0)
    }

    /// Registers a file opened through `session` and returns its handle.
    /// Fails with `InvalidHandle` when `session` names no session.
    pub fn add_file(&mut self, session: u64, file: F) -> (r: Result<u64, NfscrsJniError>)
        ensures
            !(old(self).sessions.is_live(session) || old(self).sessions.is_busy(session)) ==> r
                == Err::<u64, NfscrsJniError>(NfscrsJniError::InvalidHandle),
            (old(self).sessions.is_live(session) || old(self).sessions.is_busy(session))
                && old(self).files.slots().len() < crate::handles::MAX_SLOTS ==> r is Ok,
            r matches Ok(h) ==> {
                &&& h != 0
                &&& old(self).files.slot_of(h) is None
                &&& final(self).files@ == old(self).files@.insert(h, file)
                &&& final(self).files.owner_of(h) == session
            },
            r is Err ==> final(self).files@ == old(self).files@,
            forall|k: u64| #[trigger] final(self).files.is_busy(k) == old(self).files.is_busy(k),
            final(self).sessions == old(self).sessions,
    {
        if !self.sessions.contains(session) {
            return Err(NfscrsJniError::InvalidHandle);
        }
        self.files.create(file, session)
    }

    /// Closes `file`: releases its handle and hands the file back for the
    /// engine to release. The file must belong to `session`.
    pub fn close_file(&mut self, session: u64, file: u64) -> (r: Result<F, NfscrsJniError>)
        ensures
            r is Ok <==> old(self).files.is_live(file) && old(self).files.owner_of(file)
                == session,
            r matches Ok(v) ==> {
                &&& v == old(self).files@[file]
                &&& final(self).files@ == old(self).files@.remove(file)
                &&& final(self).files.slot_of(file) is Some
                &&& !final(self).files.is_live(file)
                &&& !final(self).files.is_busy(file)
                &&& forall|k: u64|
                    k != file ==> #[trigger] final(self).files.is_busy(k) == old(self).files.is_busy(
                        k,
                    )
            },
            r matches Err(e) ==> {
                &&& final(self).files@ == old(self).files@
                &&& forall|k: u64| #[trigger] final(self).files.is_busy(k) == old(self).files.is_busy(k)
                &&& e == (if !(old(self).files.is_live(file) || old(self).files.is_busy(file)) {
                    NfscrsJniError::InvalidHandle
                } else if old(self).files.owner_of(file) != session {
                    NfscrsJniError::CrossSessionHandle
                } else {
                    NfscrsJniError::HandleBusy
                })
            },
            final(self).sessions == old(self).sessions,
    {
        match self.files.check_owner(file, session) {
            Ok(()) => {},
            Err(e) => return Err(e),
        }
        self.files.destroy(file)
    }

    /// Takes `file` out for one call made through `session`; it must belong
    /// to that session. `files.checkin` returns it afterwards.
    pub fn checkout_file(&mut self, session: u64, file: u64) -> (r: Result<F, NfscrsJniError>)
        ensures
            r is Ok <==> old(self).files.is_live(file) && old(self).files.owner_of(file)
                == session,
            r matches Ok(v) ==> {
                &&& v == old(self).files@[file]
                &&& final(self).files@ == old(self).files@.remove(file)
                &&& final(self).files.is_busy(file)
                &&& forall|k: u64|
                    k != file ==> #[trigger] final(self).files.is_busy(k) == old(self).files.is_busy(
                        k,
                    )
            },
            r matches Err(e) ==> {
                &&& final(self).files@ == old(self).files@
                &&& forall|k: u64| #[trigger] final(self).files.is_busy(k) == old(self).files.is_busy(k)
                &&& e == (if !(old(self).files.is_live(file) || old(self).files.is_busy(file)) {
                    NfscrsJniError::InvalidHandle
                } else if old(self).files.owner_of(file) != session {
                    NfscrsJniError::CrossSessionHandle
                } else {
                    NfscrsJniError::HandleBusy
                })
            },
            final(self).sessions == old(self).sessions,
    {
        match self.files.check_owner(file, session) {
            Ok(()) => {},
            Err(e) => return Err(e),
        }
        self.files.checkout(file)
    }
}

} // verus!
