//! The service handle: a holder of a validated configuration.

use crate::config::{missing_message, Config, ConfigError, ConfigView};
use vstd::prelude::*;

verus! {

/// A service bound to a configuration that has passed validation.
#[derive(Debug)]
pub struct Service<'a> {
    config: &'a Config,
}

impl<'a> View for Service<'a> {
    type V = ConfigView;

    /// The configuration that the service holds.
    closed spec fn view(&self) -> ConfigView {
        self.config@
    }
}

impl<'a> Service<'a> {
    /// Every service holds a configuration that has passed validation.
    #[verifier::type_invariant]
    spec fn holds_validated(self) -> bool {
        self.config@.is_validated()
    }

    /// The configuration that the service was built on. It is a validated
    /// one.
    pub fn config(&self) -> (c: &'a Config)
        ensures
            c@ == self@,
            c@.is_validated(),
    {
        proof {
            use_type_invariant(self);
        }
        self.config
    }

    /// Validates `c` and, if it passes, returns a service that borrows it.
    /// The outcome is that of `Config::check` on `c`: the same error on the
    /// same configurations, and the same validated configuration otherwise,
    /// which is the one the service holds.
    pub fn init(c: &'a mut Config) -> (r: Result<Service<'a>, ConfigError>)
        ensures
            match r {
                Ok(s) => old(c)@.missing_field() is None
                    && final(c)@ == old(c)@.validated()
                    && s@ == old(c)@.validated(),
                Err(e) => old(c)@.missing_field() is Some
                    && e@ == missing_message(old(c)@.missing_field().unwrap())
                    && final(c)@ == old(c)@,
            },
    {
        match c.check() {
            Ok(()) => Ok(Service { config: c }),
            Err(e) => Err(e),
        }
    }
}

} // verus!
