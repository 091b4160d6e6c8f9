//! The agent's configuration and its validation rules.
//!
//! Parsing the configuration file is the work of the surrounding code;
//! the structures here are the parsed values, and the validation that
//! decides whether a configuration is usable is verified: the scanner
//! must name at least one extension, a positive size limit, and one
//! directory group per risk level.

use vstd::prelude::*;
use vstd::string::StringExecFns;

use crate::errors::ConfigError;

verus! {

/// Modes of the store's durability pragma.
#[derive(Clone, Copy, PartialEq, Eq, Structural, Debug)]
pub enum SynchronousMode {
    /// No synchronization.
    Off,
    /// Synchronize at critical moments.
    Normal,
    /// Synchronize on every write.
    Full,
    /// Synchronize and flush directories too.
    Extra,
}

impl SynchronousMode {
    /// The keyword the store expects for this mode.
    pub fn as_str(&self) -> (r: &str)
        ensures
            *self == SynchronousMode::Off ==> r@ == "OFF"@,
            *self == SynchronousMode::Normal ==> r@ == "NORMAL"@,
            *self == SynchronousMode::Full ==> r@ == "FULL"@,
            *self == SynchronousMode::Extra ==> r@ == "EXTRA"@,
    {
        match self {
            SynchronousMode::Off => "OFF",
            SynchronousMode::Normal => "NORMAL",
            SynchronousMode::Full => "FULL",
            SynchronousMode::Extra => "EXTRA",
        }
    }
}

/// Database settings.
pub struct DatabaseConfig {
    /// Path of the database file.
    pub path: String,
    /// Whether to purge existing data on restart.
    pub purge_on_restart: bool,
    /// Durability mode.
    pub synchronous: SynchronousMode,
    /// Maximum journal size before truncation.
    pub journal_size_limit: u64,
    /// Seconds between checkpoints.
    pub checkpoint_seconds: u64,
    /// Time-to-live for old events, in seconds.
    pub ttl_seconds: u64,
    /// Batch size for in-memory buffering.
    pub batch_size: u64,
}

/// Risk levels for scanned directories.
#[derive(Clone, Copy, PartialEq, Eq, Structural, Debug)]
pub enum DirectoryRisk {
    /// Scanned most frequently.
    High,
    /// Scanned at a medium cadence.
    Medium,
    /// Scanned rarely.
    Low,
    /// Scanned on their own schedule.
    Special,
}

/// Settings of one directory risk group.
pub struct RiskGroupConfig {
    /// Scan interval in seconds, when scheduled.
    pub scheduled_interval: Option<u64>,
    /// Directories belonging to this group.
    pub directories: Vec<String>,
}

/// Scanner settings, including the per-risk directory groups.
pub struct ScannerConfig {
    /// Maximum file size to scan, in mebibytes.
    pub max_file_size_mb: u64,
    /// File extensions to include.
    pub extensions: Vec<String>,
    /// Path of the signature rules file.
    pub rule_path: String,
    /// Directory groups, keyed by risk level.
    pub risk_groups: Vec<(DirectoryRisk, RiskGroupConfig)>,
}

/// The full application configuration.
pub struct Config {
    /// Database settings.
    pub database: DatabaseConfig,
    /// Scanner settings.
    pub scanner: ScannerConfig,
}

/// Whether the risk groups name the given level.
pub open spec fn spec_has_risk(
    groups: Seq<(DirectoryRisk, RiskGroupConfig)>,
    risk: DirectoryRisk,
) -> bool {
    exists|i: int| 0 <= i < groups.len() && (#[trigger] groups[i]).0 == risk
}

/// Whether every risk level has a directory group.
pub open spec fn spec_all_risks_present(groups: Seq<(DirectoryRisk, RiskGroupConfig)>) -> bool {
    &&& spec_has_risk(groups, DirectoryRisk::High)
    &&& spec_has_risk(groups, DirectoryRisk::Medium)
    &&& spec_has_risk(groups, DirectoryRisk::Low)
    &&& spec_has_risk(groups, DirectoryRisk::Special)
}

/// Whether the risk groups name the given level.
fn has_risk(groups: &Vec<(DirectoryRisk, RiskGroupConfig)>, risk: DirectoryRisk) -> (r: bool)
    ensures
        r == spec_has_risk(groups@, risk),
{
    let mut i: usize = 0;
    while i < groups.len()
        invariant
            i <= groups@.len(),
            forall|k: int| 0 <= k < i ==> (#[trigger] groups@[k]).0 != risk,
        decreases groups@.len() - i,
    {
        if groups[i].0 == risk {
            return true;
        }
        i = i + 1;
    }
    false
}

impl Config {
    /// Check that every risk level appears under the scanner's directory
    /// groups; reports a validation error naming the rule otherwise.
    pub fn validate_risk_groups(&self) -> (r: Result<(), ConfigError>)
        ensures
            r is Ok == spec_all_risks_present(self.scanner.risk_groups@),
            r matches Err(e) ==> e is Validation,
    {
        let ok = has_risk(&self.scanner.risk_groups, DirectoryRisk::High) && has_risk(
            &self.scanner.risk_groups,
            DirectoryRisk::Medium,
        ) && has_risk(&self.scanner.risk_groups, DirectoryRisk::Low) && has_risk(
            &self.scanner.risk_groups,
            DirectoryRisk::Special,
        );
        if ok {
            Ok(())
        } else {
            Err(
                ConfigError::Validation(
                    String::from_str("missing scanner.risk_groups for some risk level"),
                ),
            )
        }
    }

    /// The validation applied after parsing: at least one extension, a
    /// positive file-size limit, and a directory group for every risk
    /// level, checked in that order.  (That the rules file exists is
    /// checked by the code that reads files.)
    pub fn validate(&self) -> (r: Result<(), ConfigError>)
        ensures
            r is Ok == (self.scanner.extensions@.len() > 0 && self.scanner.max_file_size_mb > 0
                && spec_all_risks_present(self.scanner.risk_groups@)),
            r matches Err(e) ==> e is Validation,
    {
        if self.scanner.extensions.len() == 0 {
            return Err(
                ConfigError::Validation(
                    String::from_str("scanner.extensions must have at least one entry"),
                ),
            );
        }
        if self.scanner.max_file_size_mb == 0 {
            return Err(
                ConfigError::Validation(String::from_str("scanner.max_file_size_mb must be > 0")),
            );
        }
        self.validate_risk_groups()
    }
}

} // verus!
