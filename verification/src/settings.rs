//! The options of a run, with the defaults that stand in for those not given,
//! and the names derived from them.

use vstd::prelude::*;
use vstd::string::*;

verus! {

/// The banner's focus rate, in percent, when none is given.
pub const DEFAULT_ORIGINAL_RATE: u32 = 8;

/// The number of characters on the banner when none is given.
pub const DEFAULT_BANNER_CHARACTER_TOTAL: u32 = 12;

/// The number of desired characters when none is given.
pub const DEFAULT_ACTUAL_FOCUS_CHARACTERS: u32 = 1;

/// The summoning options of a run, every one of them settled.
#[derive(Debug)]
pub struct SummonSettings {
    pub original_rate: u32,
    pub banner_character_total: u32,
    pub actual_focus_characters: u32,
    pub projection: String,
}

/// `value`, or `default` where it is absent.
pub open spec fn or_default(value: Option<u32>, default: u32) -> u32 {
    match value {
        Some(v) => v,
        None => default,
    }
}

/// A given option is kept exactly as given; only an absent one takes the default.
pub proof fn lemma_given_options_are_kept(v: u32, default: u32)
    ensures
        or_default(Some(v), default) == v,
        or_default(None, default) == default,
{
}

impl SummonSettings {
    /// Settles the options: each absent one takes its default, and an absent
    /// projection is the optimal one.
    pub fn resolve(
        original_rate: Option<u32>,
        banner_character_total: Option<u32>,
        actual_focus_characters: Option<u32>,
        projection: Option<String>,
    ) -> (s: SummonSettings)
        ensures
            s.original_rate == or_default(original_rate, DEFAULT_ORIGINAL_RATE),
            s.banner_character_total == or_default(banner_character_total, DEFAULT_BANNER_CHARACTER_TOTAL),
            s.actual_focus_characters == or_default(actual_focus_characters, DEFAULT_ACTUAL_FOCUS_CHARACTERS),
            s.projection@ == (match projection {
                Some(p) => p@,
                None => "Optimal"@,
            }),
    {
        let original_rate = match original_rate {
            Some(v) => v,
            None => DEFAULT_ORIGINAL_RATE,
        };
        let banner_character_total = match banner_character_total {
            Some(v) => v,
            None => DEFAULT_BANNER_CHARACTER_TOTAL,
        };
        let actual_focus_characters = match actual_focus_characters {
            Some(v) => v,
            None => DEFAULT_ACTUAL_FOCUS_CHARACTERS,
        };
        let projection = match projection {
            Some(p) => p,
            None => String::from_str("Optimal"),
        };
        SummonSettings { original_rate, banner_character_total, actual_focus_characters, projection }
    }
}

/// The two ways a treasury can be projected.
#[derive(Clone, Copy, Debug, PartialEq, Eq)]
pub enum Projection {
    /// Every pull sniped alone, 5 orbs each.
    Optimal,
    /// Full circles of five pulls, 20 orbs each.
    Maximal,
}

/// The projection that `name` asks for: exactly `Optimal` or `Maximal`;
/// any other name asks for none.
pub fn projection_named(name: &String) -> (p: Option<Projection>)
    ensures
        p == (if name@ == "Optimal"@ {
            Some(Projection::Optimal)
        } else if name@ == "Maximal"@ {
            Some(Projection::Maximal)
        } else {
            None
        }),
{
    let optimal = String::from_str("Optimal");
    let maximal = String::from_str("Maximal");
    if *name == optimal {
        Some(Projection::Optimal)
    } else if *name == maximal {
        Some(Projection::Maximal)
    } else {
        None
    }
}

/// The treasury that a command works on: the one named, or `Treasury`.
pub fn treasury_key(key: Option<String>) -> (k: String)
    ensures
        k@ == (match key {
            Some(name) => name@,
            None => "Treasury"@,
        }),
{
    match key {
        Some(name) => name,
        None => String::from_str("Treasury"),
    }
}

/// What goes after the working directory to name a database file with the
/// given extension: a backslash, then the database's name (`Orb_Treasury`
/// when none is given), then the extension.
pub fn database_file_suffix(database: &Option<String>, extension: &str) -> (s: String)
    ensures
        s@ == (match database {
            Some(name) => "\\"@ + name@ + extension@,
            None => "\\Orb_Treasury"@ + extension@,
        }),
{
    match database {
        Some(name) => {
            let mut s = String::from_str("\\");
            s.append(name.as_str());
            s.append(extension);
            s
        },
        None => {
            let mut s = String::from_str("\\Orb_Treasury");
            s.append(extension);
            s
        },
    }
}

} // verus!
