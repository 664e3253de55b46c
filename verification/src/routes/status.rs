//! The operator status page: the panels it shows and the overall verdict.
//! Database latency is carried in hundredths of a millisecond, the
//! precision the page shows.

use vstd::prelude::*;

use crate::text::{decimal, decimal_text, digit_char};

verus! {

/// A latency above 250.00 ms marks the database as degraded.
pub const SLOW_DATABASE_CENTIS: u64 = 25_000;

#[derive(Debug, Clone, Copy, PartialEq, Eq, Structural)]
pub enum Health {
    Okay,
    Degraded,
    Down,
}

pub open spec fn health_severity(health: Health) -> u8 {
    match health {
        Health::Okay => 0,
        Health::Degraded => 1,
        Health::Down => 2,
    }
}

impl Health {
    /// How bad a health is, for picking the worst of several.
    pub fn severity(self) -> (rank: u8)
        ensures
            rank == health_severity(self),
    {
        match self {
            Health::Okay => 0,
            Health::Degraded => 1,
            Health::Down => 2,
        }
    }
}

/// One panel on the status page.
pub struct Check {
    pub name: &'static str,
    pub health: Health,
    pub detail: String,
}

/// The worst health among the first `n` checks, `Ok` when there are none.
pub open spec fn worst(healths: Seq<Health>, n: int) -> Health
    decreases n,
{
    if n <= 0 {
        Health::Okay
    } else {
        let rest = worst(healths, n - 1);
        if health_severity(healths[n - 1]) >= health_severity(rest) {
            healths[n - 1]
        } else {
            rest
        }
    }
}

/// The overall health shown on the page: the most severe of its checks, `Ok` when
/// there are none.
pub fn overall(checks: &[Check]) -> (verdict: Health)
    ensures
        verdict == worst(checks@.map_values(|check: Check| check.health), checks@.len() as int),
        forall|i: int|
            0 <= i < checks@.len() ==> health_severity(#[trigger] checks@[i].health) <= health_severity(
                verdict,
            ),
{
    let ghost healths = checks@.map_values(|check: Check| check.health);
    let mut verdict = Health::Okay;
    let mut i: usize = 0;
    while i < checks.len()
        invariant
            i <= checks@.len(),
            healths == checks@.map_values(|check: Check| check.health),
            verdict == worst(healths, i as int),
            forall|k: int| 0 <= k < i ==> health_severity(#[trigger] checks@[k].health) <= health_severity(verdict),
        decreases checks@.len() - i,
    {
        if checks[i].health.severity() >= verdict.severity() {
            verdict = checks[i].health;
        }
        i += 1;
    }
    verdict
}

/// An uptime as people read it: the two largest units that matter, down
/// to seconds under a minute. A negative count shows only its remainder of
/// seconds, as Rust's truncating `%` leaves it.
pub open spec fn duration_text(seconds: int) -> Seq<char> {
    if seconds < 0 {
        decimal_text(-((-seconds) % 60)) + "s"@
    } else {
        let days = seconds / 86_400;
        let hours = (seconds % 86_400) / 3_600;
        let minutes = (seconds % 3_600) / 60;
        let secs = seconds % 60;
        if days > 0 {
            decimal_text(days) + "d "@ + decimal_text(hours) + "h "@ + decimal_text(minutes) + "m"@
        } else if hours > 0 {
            decimal_text(hours) + "h "@ + decimal_text(minutes) + "m"@
        } else if minutes > 0 {
            decimal_text(minutes) + "m "@ + decimal_text(secs) + "s"@
        } else {
            decimal_text(secs) + "s"@
        }
    }
}

pub fn format_duration(seconds: i64) -> (text: String)
    ensures
        text@ == duration_text(seconds as int),
{
    if seconds < 0 {
        let magnitude: u64 = (-(seconds + 1)) as u64 + 1;
        let secs: i64 = (magnitude % 60) as i64;
        let mut text = decimal(-secs);
        text.append("s");
        return text;
    }
    let total = seconds as u64;
    let days = (total / 86_400) as i64;
    let hours = ((total % 86_400) / 3_600) as i64;
    let minutes = ((total % 3_600) / 60) as i64;
    let secs = (total % 60) as i64;
    let mut text = String::new();
    if days > 0 {
        text.append(decimal(days).as_str());
        text.append("d ");
        text.append(decimal(hours).as_str());
        text.append("h ");
        text.append(decimal(minutes).as_str());
        text.append("m");
    } else if hours > 0 {
        text.append(decimal(hours).as_str());
        text.append("h ");
        text.append(decimal(minutes).as_str());
        text.append("m");
    } else if minutes > 0 {
        text.append(decimal(minutes).as_str());
        text.append("m ");
        text.append(decimal(secs).as_str());
        text.append("s");
    } else {
        text.append(decimal(secs).as_str());
        text.append("s");
    }
    text
}

/// A latency in hundredths of a millisecond, written with two decimals.
pub open spec fn centis_text(centis: nat) -> Seq<char> {
    decimal_text((centis / 100) as int) + "."@ + seq![
        digit_char(((centis % 100) / 10) as int),
        digit_char((centis % 10) as int),
    ]
}

fn format_centis(centis: u64) -> (text: String)
    ensures
        text@ == centis_text(centis as nat),
{
    let whole = (centis / 100) as i64;
    let mut text = decimal(whole);
    text.append(".");
    let tens = decimal(((centis % 100) / 10) as i64);
    let ones = decimal((centis % 10) as i64);
    proof {
        assert(decimal_text(((centis % 100) / 10) as int) =~= seq![digit_char(((centis % 100) / 10) as int)]);
        assert(decimal_text((centis % 10) as int) =~= seq![digit_char((centis % 10) as int)]);
    }
    text.append(tens.as_str());
    text.append(ones.as_str());
    text
}

/// The panel for the service itself, which is up whenever it can answer.
pub fn api_check(uptime_seconds: i64) -> (check: Check)
    ensures
        check.name@ == "api"@,
        check.health == Health::Okay,
        check.detail@ == "serving for "@ + duration_text(uptime_seconds as int),
{
    let mut detail = String::from_str("serving for ");
    detail.append(format_duration(uptime_seconds).as_str());
    Check { name: "api", health: Health::Okay, detail }
}

/// The database panel's health: down when unreachable, degraded above
/// 250.00 ms, otherwise fine.
pub open spec fn database_health(reachable: bool, latency_centis: Option<u64>) -> Health {
    if !reachable {
        Health::Down
    } else if latency_centis matches Some(centis) && centis > SLOW_DATABASE_CENTIS {
        Health::Degraded
    } else {
        Health::Okay
    }
}

/// The database panel's text: the error (or "unreachable") when down, the
/// latency when slow, the backend and its latency otherwise.
pub open spec fn database_detail(
    reachable: bool,
    latency_centis: Option<u64>,
    backend: Seq<char>,
    error: Option<String>,
) -> Seq<char> {
    if !reachable {
        match error {
            Some(message) => message@,
            None => "unreachable"@,
        }
    } else {
        match latency_centis {
            Some(centis) => if centis > SLOW_DATABASE_CENTIS {
                "slow response ("@ + centis_text(centis as nat) + " ms)"@
            } else {
                backend + " responding in "@ + centis_text(centis as nat) + " ms"@
            },
            None => backend + " responding"@,
        }
    }
}

/// The panel for the database.
pub fn database_check(
    reachable: bool,
    latency_centis: Option<u64>,
    backend: &str,
    error: Option<String>,
) -> (check: Check)
    ensures
        check.name@ == "database"@,
        check.health == database_health(reachable, latency_centis),
        check.detail@ == database_detail(reachable, latency_centis, backend@, error),
{
    if !reachable {
        let detail = match error {
            Some(message) => message,
            None => String::from_str("unreachable"),
        };
        return Check { name: "database", health: Health::Down, detail };
    }
    match latency_centis {
        Some(centis) => {
            if centis > SLOW_DATABASE_CENTIS {
                let mut detail = String::from_str("slow response (");
                detail.append(format_centis(centis).as_str());
                detail.append(" ms)");
                Check { name: "database", health: Health::Degraded, detail }
            } else {
                let mut detail = String::from_str(backend);
                detail.append(" responding in ");
                detail.append(format_centis(centis).as_str());
                detail.append(" ms");
                Check { name: "database", health: Health::Okay, detail }
            }
        },
        None => {
            let mut detail = String::from_str(backend);
            detail.append(" responding");
            Check { name: "database", health: Health::Okay, detail }
        },
    }
}

/// The panels rendered on the status page, in order: the service, then the
/// database.
pub fn collect_checks(
    uptime_seconds: i64,
    reachable: bool,
    latency_centis: Option<u64>,
    backend: &str,
    error: Option<String>,
) -> (checks: Vec<Check>)
    ensures
        checks@.len() == 2,
        checks@[0].name@ == "api"@,
        checks@[0].health == Health::Okay,
        checks@[0].detail@ == "serving for "@ + duration_text(uptime_seconds as int),
        checks@[1].name@ == "database"@,
        checks@[1].health == database_health(reachable, latency_centis),
        checks@[1].detail@ == database_detail(reachable, latency_centis, backend@, error),
{
    let mut checks: Vec<Check> = Vec::new();
    checks.push(api_check(uptime_seconds));
    checks.push(database_check(reachable, latency_centis, backend, error));
    checks
}

} // verus!
