//! The single shared configuration value: snapshot reads and wholesale
//! replacement.

use crate::config::{Config, ConfigView};
use vstd::prelude::*;

verus! {

/// Owns the configuration value. `read` hands out a deep snapshot and
/// `replace` installs a new value wholesale; no field is ever patched in
/// place. The lock that lets many readers and one writer share the store,
/// and the disk persistence that follows a replace, live with the process
/// wiring: the store pins what each operation does to the value itself.
pub struct ConfigStore {
    current: Config,
}

impl View for ConfigStore {
    type V = ConfigView;

    closed spec fn view(&self) -> ConfigView {
        self.current@
    }
}

impl ConfigStore {
    /// Starts the store with `initial` (the loaded or default configuration).
    pub fn new(initial: Config) -> (s: Self)
        ensures
            s@ == initial@,
    {
        ConfigStore { current: initial }
    }

    /// A snapshot of the current configuration, deep-equal to the stored
    /// value; the caller owns it and never aliases the store.
    pub fn read(&self) -> (c: Config)
        ensures
            c@ == self@,
    {
        self.current.duplicate()
    }

    /// Replaces the stored configuration wholesale with `new_config`.
    pub fn replace(&mut self, new_config: Config)
        ensures
            final(self)@ == new_config@,
    {
        self.current = new_config;
    }
}

/// Round trip: a configuration installed by `replace` and then observed by
/// `read` is deep-equal to what was written. `after_replace` is the store's
/// model after the write and `got` the model of the snapshot read from it,
/// as the two contracts give them.
pub proof fn lemma_store_round_trip(written: ConfigView, after_replace: ConfigView, got: ConfigView)
    requires
        after_replace == written,
        got == after_replace,
    ensures
        got == written,
{
}

} // verus!
