//! The persisted settings and the rules that keep them in range.

use vstd::prelude::*;
use crate::percent::{below_twenty, raise_to_twenty, F32_TWENTY_BITS};

verus! {

/// Lowest accepted check interval, in minutes.
pub const MIN_INTERVAL_MINUTES: u64 = 7;
/// Lowest accepted cooldown between purges, in seconds.
pub const MIN_COOLDOWN_SECONDS: u64 = 30;

/// Settings of the purger.
///
/// The usage threshold, a percentage, is held as the bits of the
/// single-precision number that the settings file and the command line give
/// (see `crate::percent`).
pub struct AppConfig {
    pub auto_purge_enabled: bool,
    pub threshold_bits: u32,
    pub interval_minutes: u64,
    pub cooldown_seconds: u64,
    pub purge_working_sets: bool,
    pub purge_standby_list: bool,
    pub purge_modified_list: bool,
    pub purge_system_cache: bool,
    pub start_minimized: bool,
    pub notify_on_purge: bool,
    pub check_updates_enabled: bool,
    pub skipped_version: Option<String>,
}

/// Whether update checks are on when a stored configuration does not say.
pub fn default_check_updates() -> (enabled: bool)
    ensures
        enabled,
{
    true
}

impl AppConfig {
    /// The settings used when none are stored.
    pub open spec fn spec_default() -> AppConfig {
        AppConfig {
            auto_purge_enabled: true,
            threshold_bits: F32_TWENTY_BITS,
            interval_minutes: 30,
            cooldown_seconds: 60,
            purge_working_sets: true,
            purge_standby_list: true,
            purge_modified_list: true,
            purge_system_cache: true,
            start_minimized: false,
            notify_on_purge: true,
            check_updates_enabled: true,
            skipped_version: None,
        }
    }

    /// The threshold, interval and cooldown are at least their minimums.
    pub open spec fn within_minimums(self) -> bool {
        &&& !below_twenty(self.threshold_bits)
        &&& self.interval_minutes >= MIN_INTERVAL_MINUTES
        &&& self.cooldown_seconds >= MIN_COOLDOWN_SECONDS
    }

    /// `self` with the threshold, interval and cooldown raised to their minimums.
    pub open spec fn spec_with_minimums(self) -> AppConfig {
        AppConfig {
            threshold_bits: if below_twenty(self.threshold_bits) {
                F32_TWENTY_BITS
            } else {
                self.threshold_bits
            },
            interval_minutes: if self.interval_minutes < MIN_INTERVAL_MINUTES {
                MIN_INTERVAL_MINUTES
            } else {
                self.interval_minutes
            },
            cooldown_seconds: if self.cooldown_seconds < MIN_COOLDOWN_SECONDS {
                MIN_COOLDOWN_SECONDS
            } else {
                self.cooldown_seconds
            },
            ..self
        }
    }

    /// Raises the threshold, interval and cooldown of a stored configuration to their minimums.
    pub fn with_minimums(self) -> (c: AppConfig)
        ensures
            c == self.spec_with_minimums(),
            c.within_minimums(),
    {
        let mut c = self;
        c.threshold_bits = raise_to_twenty(c.threshold_bits);
        proof {
            crate::percent::lemma_twenty_not_below();
        }
        if c.interval_minutes < MIN_INTERVAL_MINUTES {
            c.interval_minutes = MIN_INTERVAL_MINUTES;
        }
        if c.cooldown_seconds < MIN_COOLDOWN_SECONDS {
            c.cooldown_seconds = MIN_COOLDOWN_SECONDS;
        }
        c
    }

    /// The configuration to run with, given what could be read and parsed from
    /// storage (`None` when there was nothing usable), and whether the defaults
    /// must be written back.
    pub fn from_stored(stored: Option<AppConfig>) -> (res: (AppConfig, bool))
        ensures
            match stored {
                Some(c) => res.0 == c.spec_with_minimums() && !res.1,
                None => res.0 == AppConfig::spec_default() && res.1,
            },
    {
        match stored {
            Some(c) => (c.with_minimums(), false),
            None => (AppConfig::default(), true),
        }
    }

    /// Applies the command-line overrides of the threshold (as single-precision
    /// bits) and of the interval; they are taken as given, without minimums.
    pub fn apply_overrides(&mut self, threshold_bits: Option<u32>, interval_minutes: Option<u64>)
        ensures
            final(self).threshold_bits == match threshold_bits {
                Some(t) => t,
                None => old(self).threshold_bits,
            },
            final(self).interval_minutes == match interval_minutes {
                Some(i) => i,
                None => old(self).interval_minutes,
            },
            *final(self) == (AppConfig {
                threshold_bits: final(self).threshold_bits,
                interval_minutes: final(self).interval_minutes,
                ..*old(self)
            }),
    {
        if let Some(t) = threshold_bits {
            self.threshold_bits = t;
        }
        if let Some(i) = interval_minutes {
            self.interval_minutes = i;
        }
    }
}

impl Default for AppConfig {
    fn default() -> (c: AppConfig)
        ensures
            c == AppConfig::spec_default(),
    {
        AppConfig {
            auto_purge_enabled: true,
            threshold_bits: F32_TWENTY_BITS,
            interval_minutes: 30,
            cooldown_seconds: 60,
            purge_working_sets: true,
            purge_standby_list: true,
            purge_modified_list: true,
            purge_system_cache: true,
            start_minimized: false,
            notify_on_purge: true,
            check_updates_enabled: true,
            skipped_version: None,
        }
    }
}

/// Raising to the minimums changes nothing the second time.
pub proof fn lemma_with_minimums_idempotent(c: AppConfig)
    ensures
        c.spec_with_minimums().spec_with_minimums() == c.spec_with_minimums(),
{
    crate::percent::lemma_twenty_not_below();
}

/// A configuration already within the minimums is left as it is, and the
/// defaults are within them.
pub proof fn lemma_minimums_keep_valid(c: AppConfig)
    ensures
        c.within_minimums() ==> c.spec_with_minimums() == c,
        AppConfig::spec_default().within_minimums(),
        AppConfig::spec_default().spec_with_minimums() == AppConfig::spec_default(),
{
    crate::percent::lemma_twenty_not_below();
}

} // verus!
