//! The settings that are made once, at start, and read everywhere after.

use vstd::prelude::*;
use crate::config::{Config, ContextConfiguration, LevelFilter};

verus! {

/// Settings that can each be set once.
pub struct Globals {
    config: Option<Config>,
    contexts: Option<ContextConfiguration>,
    verbosity: Option<LevelFilter>,
}

impl Globals {
    /// The settings, if they were made.
    pub closed spec fn held_config(&self) -> Option<Config> {
        self.config
    }

    /// The clusters, if they were made known.
    pub closed spec fn held_contexts(&self) -> Option<ContextConfiguration> {
        self.contexts
    }

    /// The verbosity, if it was set.
    pub closed spec fn held_verbosity(&self) -> Option<LevelFilter> {
        self.verbosity
    }

    /// Nothing is set.
    pub fn new() -> (globals: Globals)
        ensures
            globals.held_config() is None,
            globals.held_contexts() is None,
            globals.held_verbosity() is None,
    {
        Globals { config: None, contexts: None, verbosity: None }
    }

    /// Whether the settings were made.
    pub fn has_config(&self) -> (set: bool)
        ensures
            set == self.held_config() is Some,
    {
        self.config.is_some()
    }

    /// Whether the clusters were made known.
    pub fn has_contexts(&self) -> (set: bool)
        ensures
            set == self.held_contexts() is Some,
    {
        self.contexts.is_some()
    }

    /// Whether the verbosity was set.
    pub fn has_verbosity(&self) -> (set: bool)
        ensures
            set == self.held_verbosity() is Some,
    {
        self.verbosity.is_some()
    }
}

/// The settings. They must have been made.
pub fn config(globals: &Globals) -> (config: &Config)
    requires
        globals.held_config() is Some,
    ensures
        Some(*config) == globals.held_config(),
{
    globals.config.as_ref().unwrap()
}

/// Makes the settings. They must not have been made before.
pub fn set_global_config(globals: &mut Globals, config: Config)
    requires
        old(globals).held_config() is None,
    ensures
        final(globals).held_config() == Some(config),
        final(globals).held_contexts() == old(globals).held_contexts(),
        final(globals).held_verbosity() == old(globals).held_verbosity(),
{
    globals.config = Some(config);
}

/// The clusters. They must have been made known.
pub fn contexts(globals: &Globals) -> (contexts: &ContextConfiguration)
    requires
        globals.held_contexts() is Some,
    ensures
        Some(*contexts) == globals.held_contexts(),
{
    globals.contexts.as_ref().unwrap()
}

/// Makes the clusters known. They must not have been made known before.
pub fn set_global_contexts(globals: &mut Globals, config: ContextConfiguration)
    requires
        old(globals).held_contexts() is None,
    ensures
        final(globals).held_contexts() == Some(config),
        final(globals).held_config() == old(globals).held_config(),
        final(globals).held_verbosity() == old(globals).held_verbosity(),
{
    globals.contexts = Some(config);
}

/// The verbosity. It must have been set.
pub fn verbosity(globals: &Globals) -> (verbosity: &LevelFilter)
    requires
        globals.held_verbosity() is Some,
    ensures
        Some(*verbosity) == globals.held_verbosity(),
{
    globals.verbosity.as_ref().unwrap()
}

/// Sets the verbosity. It must not have been set before.
pub fn set_global_verbosity(globals: &mut Globals, verbosity: LevelFilter)
    requires
        old(globals).held_verbosity() is None,
    ensures
        final(globals).held_verbosity() == Some(verbosity),
        final(globals).held_config() == old(globals).held_config(),
        final(globals).held_contexts() == old(globals).held_contexts(),
{
    globals.verbosity = Some(verbosity);
}

} // verus!
