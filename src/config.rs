use vstd::prelude::*;

verus! {

/// Settings read once at process start; every field may be absent.
#[derive(Debug, Clone)]
pub struct Config {
    pub enable_log: Option<String>,
    pub host: Option<String>,
    pub port: Option<i32>,
    pub postgres_host: Option<String>,
    pub postgres_port: Option<i32>,
    pub postgres_user: Option<String>,
    pub postgres_password: Option<String>,
    pub postgres_db: Option<String>,
    pub postgres_schema: Option<String>,
    pub postgres_max_connection: Option<i32>,
    pub jwt_secret_key: Option<String>,
    pub access_token_expiry: Option<i32>,
    pub access_token_expiry_unit: Option<String>,
}

/// The unit in which the access-token lifetime is configured.
#[derive(Debug, Clone, Copy, PartialEq, Eq, Structural)]
pub enum LifetimeUnit {
    Minutes,
    Hours,
    Days,
}

pub const SECONDS_PER_MINUTE: u64 = 60;

pub const SECONDS_PER_HOUR: u64 = 3600;

pub const SECONDS_PER_DAY: u64 = 86400;

/// Magnitude of the lifetime used when none is configured (in hours).
pub const DEFAULT_LIFETIME_HOURS: u64 = 10;

pub open spec fn unit_seconds(u: LifetimeUnit) -> nat {
    match u {
        LifetimeUnit::Minutes => 60,
        LifetimeUnit::Hours => 3600,
        LifetimeUnit::Days => 86400,
    }
}

/// The unit named by a configuration string; names are case-sensitive.
pub open spec fn unit_named(s: Seq<char>) -> Option<LifetimeUnit> {
    if s == "minutes"@ {
        Some(LifetimeUnit::Minutes)
    } else if s == "hours"@ {
        Some(LifetimeUnit::Hours)
    } else if s == "days"@ {
        Some(LifetimeUnit::Days)
    } else {
        None
    }
}

/// The access-token lifetime in seconds that a configuration asks for, or `None`
/// when the configured unit is unknown. Without both a unit and a magnitude that is
/// not negative, the lifetime is ten hours.
pub open spec fn configured_lifetime(magnitude: Option<i32>, unit: Option<Seq<char>>) -> Option<nat> {
    if unit is Some && unit_named(unit->0) is None {
        None
    } else if magnitude is Some && magnitude->0 >= 0 && unit is Some {
        Some(((magnitude->0 as nat) * unit_seconds(unit_named(unit->0)->0)) as nat)
    } else {
        Some((DEFAULT_LIFETIME_HOURS * 3600) as nat)
    }
}

/// Reads a unit name as the configuration spells it.
pub fn parse_unit(s: &str) -> (r: Option<LifetimeUnit>)
    ensures
        r == unit_named(s@),
{
    let owned = s.to_owned();
    let minutes = "minutes".to_owned();
    let hours = "hours".to_owned();
    let days = "days".to_owned();
    if owned == minutes {
        Some(LifetimeUnit::Minutes)
    } else if owned == hours {
        Some(LifetimeUnit::Hours)
    } else if owned == days {
        Some(LifetimeUnit::Days)
    } else {
        None
    }
}

/// Computes the access-token lifetime in seconds from the two configuration values.
pub fn lifetime_seconds(magnitude: Option<i32>, unit: &Option<String>) -> (r: Option<u64>)
    ensures
        r matches Some(v) ==> configured_lifetime(magnitude, unit_view(unit)) == Some(v as nat),
        r is None <==> configured_lifetime(magnitude, unit_view(unit)) is None,
{
    let parsed: Option<LifetimeUnit> = match unit {
        Some(u) => {
            let p = parse_unit(u.as_str());
            if p.is_none() {
                return None;
            }
            p
        },
        None => None,
    };
    match magnitude {
        Some(m) => {
            if m < 0 {
                return Some(DEFAULT_LIFETIME_HOURS * SECONDS_PER_HOUR);
            }
            match parsed {
                Some(p) => {
                    let per: u64 = match p {
                        LifetimeUnit::Minutes => SECONDS_PER_MINUTE,
                        LifetimeUnit::Hours => SECONDS_PER_HOUR,
                        LifetimeUnit::Days => SECONDS_PER_DAY,
                    };
                    assert((m as u64) * per <= 0x7fff_ffffu64 * 86400) by (nonlinear_arith)
                        requires
                            0 <= m <= 0x7fff_ffff,
                            per <= 86400,
                    ;
                    Some((m as u64) * per)
                },
                None => Some(DEFAULT_LIFETIME_HOURS * SECONDS_PER_HOUR),
            }
        },
        None => Some(DEFAULT_LIFETIME_HOURS * SECONDS_PER_HOUR),
    }
}

pub open spec fn unit_view(unit: &Option<String>) -> Option<Seq<char>> {
    match unit {
        Some(u) => Some(u@),
        None => None,
    }
}

} // verus!
