use vstd::prelude::*;
use vstd::rwlock::{RwLock, RwLockPredicate};

use crate::auth::Credential;

verus! {

/// The predicate under which the shared cell stores credentials: any
/// validated credential may be stored.
pub struct AnyCredential;

impl RwLockPredicate<Credential> for AnyCredential {
    open spec fn inv(self, v: Credential) -> bool {
        true
    }
}

/// The single mutable cell holding the current access credential, shared
/// between the per-call injector (which reads a snapshot on every
/// outbound call) and the maintenance routine (which replaces the
/// contents wholesale on rotation). The lock makes every replacement
/// atomic with respect to reads: no reader ever observes a torn
/// credential, and no reader holds the lock across I/O — it takes a
/// short-lived snapshot instead.
pub struct SharedAccessCredential {
    cell: RwLock<Credential, AnyCredential>,
}

impl SharedAccessCredential {
    /// Stores the first credential of a connection.
    pub fn new(credential: Credential) -> Self {
        SharedAccessCredential { cell: RwLock::new(credential, Ghost(AnyCredential)) }
    }

    /// A whole-credential snapshot of the current contents. Concurrent
    /// rotation may replace the contents right after the read, so
    /// nothing relates the snapshot to later reads.
    pub fn snapshot(&self) -> Credential {
        let handle = self.cell.acquire_read();
        let credential = handle.borrow().clone();
        handle.release_read();
        credential
    }

    /// Replaces the contents wholesale; the previous credential is
    /// discarded.
    pub fn replace(&self, new_credential: Credential) {
        let (_old_credential, write_handle) = self.cell.acquire_write();
        write_handle.release_write(new_credential);
    }

    /// The authorization header for one outbound call, built from a
    /// snapshot taken under the lock: the returned header is `Bearer `
    /// followed by exactly the returned snapshot's token value.
    pub fn bearer_header(&self) -> (r: (Credential, String))
        ensures
            r.1@ == "Bearer "@ + r.0.value@,
    {
        let snapshot = self.snapshot();
        let mut header = String::from_str("Bearer ");
        header.append(snapshot.value.as_str());
        (snapshot, header)
    }
}

} // verus!
