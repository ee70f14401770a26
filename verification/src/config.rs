//! Validated run configuration: the year range and items-per-day count
//! given on the command line, and the activity pool with its optional
//! daily-remark settings loaded from the JSON configuration.

use vstd::prelude::*;

verus! {

/// Scale of the remark generation chance: a chance is a numerator over
/// this denominator, so `CHANCE_DENOM` means "always" and `0` "never".
pub const CHANCE_DENOM: u32 = 1000000;

/// The chance used when the configured one lies outside [0, 1].
pub const DEFAULT_CHANCE: u32 = 500000;

/// The year range and items-per-day count of one run.
pub struct Config {
    pub start_year: i32,
    pub end_year: i32,
    pub items_per_day: u32,
}

/// Why a configuration was rejected.
#[derive(Debug)]
pub enum ConfigError {
    /// A year or the items-per-day count was zero or negative.
    NonPositive,
    /// The end year lies before the start year.
    EndBeforeStart,
    /// The activity pool of the JSON configuration is empty.
    EmptyActivities,
}

impl ConfigError {
    /// The user-facing description of the error.
    pub fn message(&self) -> (r: String)
        ensures
            self is NonPositive ==> r@ == "Years and <items_per_day> must be positive integers."@,
            self is EndBeforeStart ==> r@ == "<end_year> cannot be earlier than <start_year>."@,
            self is EmptyActivities ==> r@ == "'common_activities' array must not be empty."@,
    {
        match self {
            ConfigError::NonPositive => String::from_str(
                "Years and <items_per_day> must be positive integers.",
            ),
            ConfigError::EndBeforeStart => String::from_str(
                "<end_year> cannot be earlier than <start_year>.",
            ),
            ConfigError::EmptyActivities => String::from_str(
                "'common_activities' array must not be empty.",
            ),
        }
    }
}

impl Config {
    /// Validates the three command-line values: all must be positive and
    /// the end year must not lie before the start year.
    pub fn from_args(start_year: i32, end_year: i32, items_per_day: u32) -> (r: Result<
        Config,
        ConfigError,
    >)
        ensures
            (start_year <= 0 || end_year <= 0 || items_per_day == 0) <==> (r matches Err(e)
                && e is NonPositive),
            (start_year > 0 && end_year > 0 && items_per_day > 0 && end_year < start_year) <==> (
            r matches Err(e) && e is EndBeforeStart),
            r matches Ok(c) ==> c.start_year == start_year && c.end_year == end_year
                && c.items_per_day == items_per_day && 0 < c.start_year <= c.end_year
                && c.items_per_day > 0,
            (start_year > 0 && 0 < start_year <= end_year && items_per_day > 0) <==> r is Ok,
    {
        if start_year <= 0 || end_year <= 0 || items_per_day == 0 {
            return Err(ConfigError::NonPositive);
        }
        if end_year < start_year {
            return Err(ConfigError::EndBeforeStart);
        }
        Ok(Config { start_year, end_year, items_per_day })
    }
}

/// The optional daily-remark settings: a fixed prefix, the remark texts,
/// and the chance of emitting a remark on a given day, as a numerator
/// over `CHANCE_DENOM`.
pub struct DailyRemarkConfig {
    pub prefix: String,
    pub contents: Vec<String>,
    pub chance_num: u32,
}

impl DailyRemarkConfig {
    /// A usable remark configuration: at least one remark text, and a
    /// chance that is a valid numerator.
    pub open spec fn wf(&self) -> bool {
        self.contents@.len() > 0 && self.chance_num <= CHANCE_DENOM
    }
}

/// What the JSON-configuration validation found worth warning about.
pub struct ConfigNotes {
    /// The remark settings had an empty contents list and were dropped.
    pub remarks_disabled: bool,
    /// The configured chance lay outside [0, 1] and was replaced by the
    /// default.
    pub chance_reset: bool,
}

/// The validated content of the JSON configuration file.
pub struct JsonConfigData {
    pub activities: Vec<String>,
    pub remarks: Option<DailyRemarkConfig>,
}

impl JsonConfigData {
    pub open spec fn wf(&self) -> bool {
        &&& self.activities@.len() > 0
        &&& match self.remarks {
            Some(r) => r.wf(),
            None => true,
        }
    }

    /// Validates raw JSON-configuration values: an empty activity pool is
    /// an error; remark settings with an empty contents list are dropped
    /// with a warning; a chance outside [0, 1] (given as millionths, so
    /// possibly negative or above `CHANCE_DENOM`) falls back to the
    /// default with a warning.
    pub fn validate(
        activities: Vec<String>,
        remark_prefix: Option<String>,
        remark_contents: Vec<String>,
        remark_chance_millionths: i64,
    ) -> (r: Result<(JsonConfigData, ConfigNotes), ConfigError>)
        ensures
            r is Ok <==> activities@.len() > 0,
            activities@.len() == 0 <==> (r matches Err(e) && e is EmptyActivities),
            r matches Ok(p) ==> {
                &&& p.0.wf()
                &&& p.0.activities == activities
                &&& match remark_prefix {
                    None => p.0.remarks is None && !p.1.remarks_disabled && !p.1.chance_reset,
                    Some(prefix) => {
                        if remark_contents@.len() == 0 {
                            p.0.remarks is None && p.1.remarks_disabled && !p.1.chance_reset
                        } else {
                            &&& p.0.remarks matches Some(rc)
                            &&& rc.prefix == prefix
                            &&& rc.contents == remark_contents
                            &&& !p.1.remarks_disabled
                            &&& if 0 <= remark_chance_millionths <= CHANCE_DENOM {
                                rc.chance_num == remark_chance_millionths && !p.1.chance_reset
                            } else {
                                rc.chance_num == DEFAULT_CHANCE && p.1.chance_reset
                            }
                        }
                    },
                }
            },
    {
        if activities.len() == 0 {
            return Err(ConfigError::EmptyActivities);
        }
        let mut notes = ConfigNotes { remarks_disabled: false, chance_reset: false };
        let remarks: Option<DailyRemarkConfig> = match remark_prefix {
            None => None,
            Some(prefix) => {
                if remark_contents.len() == 0 {
                    notes.remarks_disabled = true;
                    None
                } else {
                    let chance_num: u32 = if 0 <= remark_chance_millionths
                        && remark_chance_millionths <= CHANCE_DENOM as i64 {
                        remark_chance_millionths as u32
                    } else {
                        notes.chance_reset = true;
                        DEFAULT_CHANCE
                    };
                    Some(DailyRemarkConfig { prefix, contents: remark_contents, chance_num })
                }
            },
        };
        Ok((JsonConfigData { activities, remarks }, notes))
    }
}

} // verus!
