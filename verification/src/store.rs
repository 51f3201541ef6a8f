//! The configuration store and the load/reload decisions. The store owns
//! the current configuration and replaces it wholesale, never field by
//! field; callers that share it across threads put it behind their own
//! mutual-exclusion lock and observe it only through these accessors.

use vstd::prelude::*;

use crate::config::{default_config, Config, ConfigV};

verus! {

/// What reading and parsing the configuration file yielded. The caller
/// performs the file access and the parse and reports the outcome here.
#[derive(Debug, PartialEq)]
pub enum ReadOutcome {
    /// The file was read and parsed successfully.
    Parsed(Config),
    /// The file does not exist.
    Missing,
    /// The file was read but its content did not parse.
    ParseFailed,
    /// The file exists but could not be read.
    IoFailed,
}

/// What a load must do with a read outcome. Loading is shared by startup
/// and reload: a failed plan is fatal at startup, while a reload that
/// fails keeps the last good configuration instead.
#[derive(Debug, PartialEq)]
pub enum LoadPlan {
    /// Adopt the parsed configuration.
    UseParsed(Config),
    /// Write this built-in default to the missing file, exclusively
    /// (never overwriting a concurrently created file), then adopt it;
    /// if the write fails, the load fails.
    WriteDefault(Config),
    /// The load failed: the file was unreadable or did not parse.
    Fail,
}

/// Decides what a load does with a read outcome: a parsed configuration
/// is adopted, a missing file is populated with the built-in default,
/// and a parse or read failure fails the load.
pub fn load_plan(outcome: ReadOutcome) -> (plan: LoadPlan)
    ensures
        outcome is Parsed ==> plan is UseParsed && plan->UseParsed_0@ == outcome->Parsed_0@,
        outcome is Missing ==> plan is WriteDefault && plan->WriteDefault_0@ == default_config(),
        outcome is ParseFailed ==> plan is Fail,
        outcome is IoFailed ==> plan is Fail,
{
    match outcome {
        ReadOutcome::Parsed(config) => LoadPlan::UseParsed(config),
        ReadOutcome::Missing => LoadPlan::WriteDefault(Config::default()),
        ReadOutcome::ParseFailed => LoadPlan::Fail,
        ReadOutcome::IoFailed => LoadPlan::Fail,
    }
}

/// Owns the current, validated configuration and exposes snapshots and
/// atomic whole-value replacement.
pub struct ConfigStore {
    current: Config,
}

impl View for ConfigStore {
    type V = ConfigV;

    closed spec fn view(&self) -> ConfigV {
        self.current@
    }
}

impl ConfigStore {
    /// Creates a store holding the given configuration.
    pub fn new(initial: Config) -> (r: Self)
        ensures
            r@ == initial@,
    {
        ConfigStore { current: initial }
    }

    /// Returns a consistent full copy of the current configuration for
    /// one render tick.
    pub fn get_snapshot(&self) -> (r: Config)
        ensures
            r@ == self@,
    {
        self.current.clone()
    }

    /// Replaces the current configuration wholesale.
    pub fn replace(&mut self, new_config: Config)
        ensures
            final(self)@ == new_config@,
    {
        self.current = new_config;
    }

    /// Applies one reload attempt, given the result of a load: a
    /// successful load replaces the current value wholesale; a failed
    /// load leaves the store's observable value identical to its
    /// pre-attempt value. Returns whether a replacement happened.
    pub fn apply_reload(&mut self, loaded: Option<Config>) -> (replaced: bool)
        ensures
            loaded is Some ==> replaced && final(self)@ == loaded->0@,
            loaded is None ==> !replaced && final(self)@ == old(self)@,
    {
        match loaded {
            Some(config) => {
                self.replace(config);
                true
            },
            None => false,
        }
    }
}

} // verus!
