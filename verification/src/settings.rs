//! The shared settings store: read by the classifier on every reading,
//! written occasionally by an administrative action. The discipline — many
//! concurrent readers or one exclusive writer, never both — is carried by
//! vstd's verified reader/writer lock, so a read always yields a whole
//! settings pair as some single write stored it: a torn value, half one
//! write and half another, cannot be observed. The lock is never held
//! across anything but the copy in and out.

use vstd::prelude::*;
use vstd::rwlock::{RwLock, RwLockPredicate};
use crate::alert::MonitorSettings;

verus! {

/// The lock predicate: any settings pair may be stored.
pub struct AnySettings;

impl RwLockPredicate<MonitorSettings> for AnySettings {
    open spec fn inv(self, v: MonitorSettings) -> bool {
        true
    }
}

/// The shared threshold configuration handle.
pub struct SettingsStore {
    lock: RwLock<MonitorSettings, AnySettings>,
}

impl SettingsStore {
    /// A store holding the given initial settings.
    pub fn new(initial: MonitorSettings) -> SettingsStore {
        SettingsStore { lock: RwLock::new(initial, Ghost(AnySettings)) }
    }

    /// Takes an atomic snapshot of the settings. The shared read access
    /// excludes writers, so the returned pair is exactly one stored whole
    /// by a single write.
    pub fn get(&self) -> MonitorSettings {
        let handle = self.lock.acquire_read();
        let s = *handle.borrow();
        handle.release_read();
        s
    }

    /// Replaces the settings wholesale under exclusive access: no reader
    /// runs while the pair is being exchanged.
    pub fn set(&self, v: MonitorSettings) {
        let (_, handle) = self.lock.acquire_write();
        handle.release_write(v);
    }
}

} // verus!
