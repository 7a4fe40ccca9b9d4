//! Normalisation of sizes into tuning keys: a size is anchored to a power
//! of a base, more or less coarsely according to the tuning level.

use vstd::prelude::*;

verus! {

/// The level that applies when none is configured.
pub const DEFAULT_LEVEL: u32 = 1;

/// How much tuning is wanted.
#[derive(Debug, Clone, Copy, PartialEq, Eq, Structural)]
pub enum AutotuneLevel {
    /// Level 0: coarse anchors, the base scaled by 5/4.
    Minimal,
    /// Level 1: the base as given.
    Medium,
    /// Level 2: fine anchors, the base scaled by 3/4.
    More,
    /// Level 3: no anchoring, every size is its own key.
    Full,
}

/// Why a configured level was refused.
#[derive(Debug, Clone, Copy, PartialEq, Eq, Structural)]
pub enum LevelError {
    /// The configured text is not an unsigned integer.
    NotAnInteger,
}

/// What `str::parse::<u32>` makes of a text: the number, or `None` where
/// it refuses the text.
pub uninterp spec fn parsed_u32(text: Seq<char>) -> Option<u32>;

/// `str::parse::<u32>`. The result is the one that std's parser gives for
/// this text; nothing more is claimed of it here.
#[verifier::external_body]
fn parse_u32(text: &str) -> (number: Option<u32>)
    ensures
        number == parsed_u32(text@),
{
    match text.parse::<u32>() {
        Ok(n) => Some(n),
        Err(_) => None,
    }
}

/// The level that a configuration value stands for.
pub open spec fn level_of(value: Option<Seq<char>>) -> Result<u32, LevelError> {
    match value {
        None => Ok(DEFAULT_LEVEL),
        Some(text) => match parsed_u32(text) {
            Some(n) => Ok(n),
            None => Err(LevelError::NotAnInteger),
        },
    }
}

/// The number that a parsed configuration value stands for.
pub open spec fn level_from_parsed(parsed: Option<Option<u32>>) -> Result<u32, LevelError> {
    match parsed {
        None => Ok(DEFAULT_LEVEL),
        Some(Some(n)) => Ok(n),
        Some(None) => Err(LevelError::NotAnInteger),
    }
}

/// Chooses the level once the configured text, if any, has been parsed:
/// the default where nothing is configured, the number where the text was
/// one, an error where it was not.
pub fn select_level(parsed: Option<Option<u32>>) -> (level: Result<u32, LevelError>)
    ensures
        level == level_from_parsed(parsed),
{
    match parsed {
        None => Ok(DEFAULT_LEVEL),
        Some(Some(n)) => Ok(n),
        Some(None) => Err(LevelError::NotAnInteger),
    }
}

/// A configured value as plain text, if there is one.
pub open spec fn configured(value: Option<&str>) -> Option<Seq<char>> {
    match value {
        Some(text) => Some(text@),
        None => None,
    }
}

/// Reads the tuning level out of the configured value: the default where
/// none is set, else the number that the text is. A text that is no
/// unsigned integer is not a configuration: callers rule it out, or go
/// through [`try_load_autotune_level`].
pub fn load_autotune_level(value: Option<&str>) -> (level: u32)
    requires
        level_of(configured(value)) is Ok,
    ensures
        level_of(configured(value)) == Ok::<u32, LevelError>(level),
{
    let chosen = match value {
        None => select_level(None),
        Some(text) => select_level(Some(parse_u32(text))),
    };
    match chosen {
        Ok(level) => level,
        Err(_) => vstd::pervasive::unreached(),
    }
}

/// Reads the tuning level where the configured value allows it: `None`
/// exactly where a text is configured that is no unsigned integer.
pub fn try_load_autotune_level(value: Option<&str>) -> (level: Option<u32>)
    ensures
        level == (match level_of(configured(value)) {
            Ok(number) => Some(number),
            Err(_) => None,
        }),
{
    let readable = match value {
        None => true,
        Some(text) => parse_u32(text).is_some(),
    };
    if readable {
        Some(load_autotune_level(value))
    } else {
        None
    }
}

impl AutotuneLevel {
    /// The level that a number stands for, if it is one of 0 to 3.
    pub open spec fn of(level: u32) -> Option<AutotuneLevel> {
        if level == 0 {
            Some(AutotuneLevel::Minimal)
        } else if level == 1 {
            Some(AutotuneLevel::Medium)
        } else if level == 2 {
            Some(AutotuneLevel::More)
        } else if level == 3 {
            Some(AutotuneLevel::Full)
        } else {
            None
        }
    }

    /// The level that a number stands for; `None` for a number above 3.
    pub fn from_level(level: u32) -> (found: Option<AutotuneLevel>)
        ensures
            found == Self::of(level),
    {
        if level == 0 {
            Some(AutotuneLevel::Minimal)
        } else if level == 1 {
            Some(AutotuneLevel::Medium)
        } else if level == 2 {
            Some(AutotuneLevel::More)
        } else if level == 3 {
            Some(AutotuneLevel::Full)
        } else {
            None
        }
    }

    /// The fraction by which the base is scaled, numerator first; `None`
    /// where sizes are not anchored at all.
    pub open spec fn factor(self) -> Option<(u32, u32)> {
        match self {
            AutotuneLevel::Minimal => Some((5u32, 4u32)),
            AutotuneLevel::Medium => Some((1u32, 1u32)),
            AutotuneLevel::More => Some((3u32, 4u32)),
            AutotuneLevel::Full => None,
        }
    }

    /// The fraction by which the base is scaled at this level.
    pub fn scale(self) -> (fraction: Option<(u32, u32)>)
        ensures
            fraction == self.factor(),
    {
        match self {
            AutotuneLevel::Minimal => Some((5u32, 4u32)),
            AutotuneLevel::Medium => Some((1u32, 1u32)),
            AutotuneLevel::More => Some((3u32, 4u32)),
            AutotuneLevel::Full => None,
        }
    }
}

/// The base that applies where the caller names none.
pub const DEFAULT_BASE: usize = 2;

/// The base to scale: the one given, or two.
pub fn anchor_base(base: Option<usize>) -> (chosen: usize)
    ensures
        chosen == (match base {
            Some(b) => b,
            None => DEFAULT_BASE,
        }),
{
    match base {
        Some(b) => b,
        None => DEFAULT_BASE,
    }
}

/// The key for size `x`, where `power` is the power of the scaled base that
/// lies next above `x`: `x` itself at the full level; else `power`, capped
/// by `max` and then raised to `min`.
pub open spec fn anchored(
    level: AutotuneLevel,
    x: usize,
    max: Option<usize>,
    min: Option<usize>,
    power: usize,
) -> usize {
    if level == AutotuneLevel::Full {
        x
    } else {
        let capped = match max {
            Some(m) => if power < m { power } else { m },
            None => power,
        };
        match min {
            Some(m) => if capped > m { capped } else { m },
            None => capped,
        }
    }
}

/// Anchors `x` to `power`, the power of the scaled base next above it,
/// within the bounds given. The lower bound wins where the two cross.
pub fn anchor(
    level: AutotuneLevel,
    x: usize,
    max: Option<usize>,
    min: Option<usize>,
    power: usize,
) -> (key: usize)
    ensures
        key == anchored(level, x, max, min, power),
        level == AutotuneLevel::Full ==> key == x,
        level != AutotuneLevel::Full && min is Some ==> key >= min->0,
        level != AutotuneLevel::Full && max is Some && (min is None || min->0 <= max->0) ==> key
            <= max->0,
{
    match level {
        AutotuneLevel::Full => x,
        _ => {
            let capped: usize = match max {
                Some(m) => if power < m { power } else { m },
                None => power,
            };
            match min {
                Some(m) => if capped > m { capped } else { m },
                None => capped,
            }
        },
    }
}

} // verus!
