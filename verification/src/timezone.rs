//! Timezone identifiers and their resolution: a validated [`Timezone`]
//! value, the `"LOCAL"` sentinel that delegates to host detection, and
//! the precedence rule CLI > file > built-in UTC with its explicit flag.

use vstd::prelude::*;
use vstd::string::StringExecFns;
use crate::errors::ConfigError;
use crate::external::iana_valid;
use crate::external::system_timezone_name;
use crate::external::tz_name_is_valid;
use crate::text::str_eq;

verus! {

broadcast use vstd::string::group_string_axioms;

/// A validated timezone: its name is an IANA identifier (the built-in
/// default `UTC` among them). Values exist only through resolution, so
/// every consumer may rely on validity.
#[derive(Debug)]
pub struct Timezone {
    name: String,
}

impl Timezone {
    #[verifier::type_invariant]
    spec fn wf(self) -> bool {
        iana_valid(self.name@) || self.name@ == "UTC"@
    }

    /// The identifier this value was validated from.
    pub closed spec fn name_spec(self) -> Seq<char> {
        self.name@
    }

    /// The IANA name of this timezone. Validity travels with the
    /// result: the name is in the timezone database, or is the literal
    /// `UTC`.
    pub fn name(&self) -> (r: &str)
        ensures
            r@ == self.name_spec(),
            iana_valid(r@) || r@ == "UTC"@,
    {
        proof {
            use_type_invariant(self);
        }
        self.name.as_str()
    }

    /// The built-in UTC timezone.
    pub fn utc() -> (r: Timezone)
        ensures
            r.name_spec() == "UTC"@,
    {
        Timezone { name: String::from_str("UTC") }
    }
}

/// A resolved timezone choice: the timezone itself, and whether it was
/// set explicitly by the user rather than falling back to the default.
/// The flag drives a one-time advisory warning, never an error.
#[derive(Debug)]
pub struct TimezoneConfig {
    /// Target timezone for output timestamps.
    pub timezone: Timezone,
    /// Whether the timezone came from the user (CLI or file) rather
    /// than the built-in default.
    pub explicit: bool,
}

impl TimezoneConfig {
    /// Wrap an explicit user choice.
    pub fn explicit(tz: Timezone) -> (r: Self)
        ensures
            r.timezone == tz,
            r.explicit,
    {
        TimezoneConfig { timezone: tz, explicit: true }
    }

    /// The built-in default: UTC, flagged as not explicit.
    fn default_utc() -> (r: Self)
        ensures
            r.timezone.name_spec() == "UTC"@,
            !r.explicit,
    {
        TimezoneConfig { timezone: Timezone::utc(), explicit: false }
    }

    /// Resolve one identifier: the literal `LOCAL` (exact case)
    /// delegates to host detection; anything else must be a valid IANA
    /// name and is marked explicit.
    fn from_string(s: &str) -> (r: Result<Self, ConfigError>)
        ensures
            s@ != "LOCAL"@ && iana_valid(s@) ==> (r matches Ok(c) && c.timezone.name_spec() == s@
                && c.explicit),
            s@ != "LOCAL"@ && !iana_valid(s@) ==> (r matches Err(
                ConfigError::InvalidTimezone { input },
            ) && input@ == s@),
            s@ == "LOCAL"@ ==> (r matches Ok(c) ==> c.explicit),
            s@ == "LOCAL"@ ==> (r matches Err(e) ==> (e is SystemTimezoneDetectFailed
                || e is SystemTimezoneInvalid)),
    {
        if str_eq(s, "LOCAL") {
            match detect_system_timezone() {
                Ok(tz) => Ok(TimezoneConfig::explicit(tz)),
                Err(e) => Err(e),
            }
        } else if tz_name_is_valid(s) {
            Ok(TimezoneConfig::explicit(Timezone { name: String::from_str(s) }))
        } else {
            Err(ConfigError::InvalidTimezone { input: String::from_str(s) })
        }
    }

    /// Resolve the timezone under the precedence CLI > file > built-in
    /// UTC. A file value of exactly `UTC` counts as not provided, so an
    /// explicit persisted UTC cannot be told apart from the fallback —
    /// a known ambiguity, kept rather than silently changed. The flag
    /// is false exactly when the built-in default supplied the value.
    pub fn load_with_precedence(cli_tz: Option<&str>, config_tz: Option<&str>) -> (r: Result<
        Self,
        ConfigError,
    >)
        ensures
            cli_tz matches Some(s) ==> ({
                &&& s@ != "LOCAL"@ && iana_valid(s@) ==> (r matches Ok(c)
                    && c.timezone.name_spec() == s@ && c.explicit)
                &&& s@ != "LOCAL"@ && !iana_valid(s@) ==> (r matches Err(
                    ConfigError::InvalidTimezone { input },
                ) && input@ == s@)
                &&& s@ == "LOCAL"@ ==> (r matches Ok(c) ==> c.explicit)
                &&& s@ == "LOCAL"@ ==> (r matches Err(e) ==> (e is SystemTimezoneDetectFailed
                    || e is SystemTimezoneInvalid))
            }),
            cli_tz is None ==> (config_tz matches Some(s) ==> ({
                &&& s@ != "UTC"@ && s@ != "LOCAL"@ && iana_valid(s@) ==> (r matches Ok(c)
                    && c.timezone.name_spec() == s@ && c.explicit)
                &&& s@ != "UTC"@ && s@ != "LOCAL"@ && !iana_valid(s@) ==> (r matches Err(
                    ConfigError::InvalidTimezone { input },
                ) && input@ == s@)
                &&& s@ == "LOCAL"@ ==> (r matches Ok(c) ==> c.explicit)
                &&& s@ == "LOCAL"@ ==> (r matches Err(e) ==> (e is SystemTimezoneDetectFailed
                    || e is SystemTimezoneInvalid))
                &&& s@ == "UTC"@ ==> (r matches Ok(c) && c.timezone.name_spec() == "UTC"@
                    && !c.explicit)
            })),
            cli_tz is None && config_tz is None ==> (r matches Ok(c) && c.timezone.name_spec()
                == "UTC"@ && !c.explicit),
    {
        proof {
            reveal_strlit("UTC");
            reveal_strlit("LOCAL");
            assert("UTC"@.len() == 3);
            assert("LOCAL"@.len() == 5);
        }
        match cli_tz {
            Some(tz_str) => TimezoneConfig::from_string(tz_str),
            None => match config_tz {
                Some(tz_str) => {
                    if !str_eq(tz_str, "UTC") {
                        TimezoneConfig::from_string(tz_str)
                    } else {
                        Ok(TimezoneConfig::default_utc())
                    }
                },
                None => Ok(TimezoneConfig::default_utc()),
            },
        }
    }
}

/// Resolve one timezone identifier to a validated timezone: the
/// literal `LOCAL` (exact case) delegates to host detection, whose
/// reported name is itself validated; any other string must be an
/// IANA identifier, or the error names it beside example identifiers.
pub fn resolve_timezone_identifier(text: &str) -> (r: Result<Timezone, ConfigError>)
    ensures
        text@ != "LOCAL"@ && iana_valid(text@) ==> (r matches Ok(tz) && tz.name_spec() == text@),
        text@ != "LOCAL"@ && !iana_valid(text@) ==> (r matches Err(
            ConfigError::InvalidTimezone { input },
        ) && input@ == text@),
        text@ == "LOCAL"@ ==> (r matches Err(e) ==> (e is SystemTimezoneDetectFailed
            || e is SystemTimezoneInvalid)),
{
    if str_eq(text, "LOCAL") {
        detect_system_timezone()
    } else if tz_name_is_valid(text) {
        Ok(Timezone { name: String::from_str(text) })
    } else {
        Err(ConfigError::InvalidTimezone { input: String::from_str(text) })
    }
}

/// Validate a name the host OS reported as its timezone: exactly the
/// IANA identifiers pass, and a rejected name is carried back in the
/// error. This is the whole decision taken on a detected name, stated
/// for every possible value of it.
pub fn timezone_from_detected(name: String) -> (r: Result<Timezone, ConfigError>)
    ensures
        iana_valid(name@) ==> (r matches Ok(tz) && tz.name_spec() == name@),
        !iana_valid(name@) ==> (r matches Err(ConfigError::SystemTimezoneInvalid { name: n })
            && n@ == name@),
{
    if tz_name_is_valid(name.as_str()) {
        Ok(Timezone { name })
    } else {
        Err(ConfigError::SystemTimezoneInvalid { name })
    }
}

/// Detect the host's configured timezone and validate its name. The
/// detection result depends on the machine, so this only composes the
/// detector with [`timezone_from_detected`]: a missing report is the
/// detection failure, and whatever name comes back is judged by that
/// function's contract.
pub fn detect_system_timezone() -> (r: Result<Timezone, ConfigError>)
    ensures
        r matches Err(e) ==> (e is SystemTimezoneDetectFailed || (e matches
            ConfigError::SystemTimezoneInvalid { name } && !iana_valid(name@))),
{
    match system_timezone_name() {
        None => Err(ConfigError::SystemTimezoneDetectFailed),
        Some(name) => timezone_from_detected(name),
    }
}

/// Compare the resolved timezone's name with the name the geographic
/// index reports for the configured coordinates: true exactly on a
/// match. A mismatch is advisory only; the caller writes the warning.
pub fn check_timezone_match(tz: &Timezone, detected_name: &str) -> (r: bool)
    ensures
        r == (tz.name_spec() == detected_name@),
{
    str_eq(tz.name(), detected_name)
}

} // verus!
