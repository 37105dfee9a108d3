//! The settings of a run, read once at startup and handed to the run.

use vstd::prelude::*;

verus! {

/// Which schedule a run belongs to.
#[derive(Clone, Copy, Debug, PartialEq, Eq, Structural)]
pub enum Mode {
    Weekly,
    Monthly,
}

/// Where the source database is and how to sign in.
#[derive(Clone, Debug, PartialEq, Eq)]
pub struct SettingsDatabase {
    pub url: String,
    pub login: String,
    pub password: String,
}

/// The weekly schedule.
#[derive(Clone, Debug, PartialEq, Eq)]
pub struct SettingsTaskWeekly {
    pub cron: String,
    /// The patterns that choose the collections.
    pub databases: Vec<String>,
    pub delay: u64,
    /// The page size; `None` leaves it to the source.
    pub chunk: Option<u64>,
}

/// The monthly schedule.
#[derive(Clone, Debug, PartialEq, Eq)]
pub struct SettingsTaskMonthly {
    pub cron: String,
    /// The patterns that choose the collections.
    pub databases: Vec<String>,
    pub delay: u64,
    /// The page size; `None` leaves it to the source.
    pub chunk: Option<u64>,
    pub backup_only_previus: bool,
}

/// The schedules, one for each mode.
#[derive(Clone, Debug, PartialEq, Eq)]
pub struct SettingsTask {
    pub weekly: SettingsTaskWeekly,
    pub monthly: SettingsTaskMonthly,
}

/// Everything a run is configured with.
#[derive(Clone, Debug, PartialEq, Eq)]
pub struct Settings {
    pub database: SettingsDatabase,
    pub task: SettingsTask,
    /// The bucket that receives the objects.
    pub bucket: String,
    /// The access key of the store.
    pub token: String,
    /// The secret key of the store.
    pub secret: String,
    /// What every key starts with.
    pub prefix: String,
    /// What follows the date in every key.
    pub suffix: String,
    pub loki: String,
}

/// The page size that stands for "the source's own default".
pub const SOURCE_DEFAULT_PAGE_SIZE: u64 = 0;

impl Settings {
    /// The patterns of `mode`.
    pub open spec fn spec_patterns(self, mode: Mode) -> Vec<String> {
        match mode {
            Mode::Weekly => self.task.weekly.databases,
            Mode::Monthly => self.task.monthly.databases,
        }
    }

    /// The page size of `mode`: the one configured, else the source's own.
    pub open spec fn spec_page_size(self, mode: Mode) -> u64 {
        let chunk = match mode {
            Mode::Weekly => self.task.weekly.chunk,
            Mode::Monthly => self.task.monthly.chunk,
        };
        match chunk {
            Some(size) => size,
            None => SOURCE_DEFAULT_PAGE_SIZE,
        }
    }

    /// The patterns that choose the collections of a run in `mode`.
    pub fn patterns(&self, mode: Mode) -> (patterns: &Vec<String>)
        ensures
            *patterns == self.spec_patterns(mode),
    {
        match mode {
            Mode::Weekly => &self.task.weekly.databases,
            Mode::Monthly => &self.task.monthly.databases,
        }
    }

    /// The page size to ask of the source in `mode`; zero leaves the choice
    /// to the source.
    pub fn page_size(&self, mode: Mode) -> (size: u64)
        ensures
            size == self.spec_page_size(mode),
    {
        let chunk = match mode {
            Mode::Weekly => self.task.weekly.chunk,
            Mode::Monthly => self.task.monthly.chunk,
        };
        match chunk {
            Some(size) => size,
            None => SOURCE_DEFAULT_PAGE_SIZE,
        }
    }
}

} // verus!
