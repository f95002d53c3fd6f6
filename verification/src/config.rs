//! Application configuration: paths derived from the data directory, the
//! sidecar's fixed port, and the health-check bounds.

use vstd::prelude::*;
use vstd::string::*;

verus! {

/// Application-level configuration, immutable for a run. Paths are kept as
/// plain strings; the driver that resolves and creates the directories hands
/// the data directory in and converts back at the filesystem boundary.
#[derive(Debug, Clone)]
pub struct AppConfig {
    /// Root data directory of the application.
    pub app_data_dir: String,
    /// Directory holding the user's books.
    pub books_dir: String,
    /// Path of the persisted settings file.
    pub ai_settings_path: String,
    /// Directory receiving log files.
    pub log_dir: String,
    /// Fixed port for the sidecar's HTTP server.
    pub sidecar_port: u16,
    /// Time between health-check poll attempts.
    pub health_check_interval_ms: u64,
    /// Total health-check budget.
    pub health_check_timeout_s: u64,
}

impl AppConfig {
    /// Derive the configuration from the resolved application data directory:
    /// the books, config and log locations live directly under it.
    pub fn new(app_data_dir: String) -> (r: AppConfig)
        ensures
            r.app_data_dir@ == app_data_dir@,
            r.books_dir@ == app_data_dir@ + "/books"@,
            r.ai_settings_path@ == app_data_dir@ + "/config/ai_settings.json"@,
            r.log_dir@ == app_data_dir@ + "/logs"@,
            r.sidecar_port == 8123u16,
            r.health_check_interval_ms == 500u64,
            r.health_check_timeout_s == 30u64,
    {
        let books_dir = app_data_dir.clone().concat("/books");
        let ai_settings_path = app_data_dir.clone().concat("/config/ai_settings.json");
        let log_dir = app_data_dir.clone().concat("/logs");
        AppConfig {
            app_data_dir,
            books_dir,
            ai_settings_path,
            log_dir,
            sidecar_port: 8123,
            health_check_interval_ms: 500,
            health_check_timeout_s: 30,
        }
    }

    /// The sidecar's base URL on loopback:
    /// `http://127.0.0.1:<port>/`.
    pub fn sidecar_url(&self) -> (r: String)
        ensures
            r@ == "http://127.0.0.1:"@ + spec_decimal(self.sidecar_port as nat) + "/"@,
    {
        let mut s = "http://127.0.0.1:".to_owned();
        let port = u16_to_decimal(self.sidecar_port);
        s.append(port.as_str());
        s.append("/");
        s
    }
}

impl Default for AppConfig {
    /// Empty paths with the fixed port and default health-check bounds.
    fn default() -> (r: Self)
        ensures
            r.app_data_dir@ == Seq::<char>::empty(),
            r.books_dir@ == Seq::<char>::empty(),
            r.ai_settings_path@ == Seq::<char>::empty(),
            r.log_dir@ == Seq::<char>::empty(),
            r.sidecar_port == 8123u16,
            r.health_check_interval_ms == 500u64,
            r.health_check_timeout_s == 30u64,
    {
        AppConfig {
            app_data_dir: String::new(),
            books_dir: String::new(),
            ai_settings_path: String::new(),
            log_dir: String::new(),
            sidecar_port: 8123,
            health_check_interval_ms: 500,
            health_check_timeout_s: 30,
        }
    }
}

/// The character for one decimal digit.
pub open spec fn spec_digit(d: nat) -> char {
    if d == 0 {
        '0'
    } else if d == 1 {
        '1'
    } else if d == 2 {
        '2'
    } else if d == 3 {
        '3'
    } else if d == 4 {
        '4'
    } else if d == 5 {
        '5'
    } else if d == 6 {
        '6'
    } else if d == 7 {
        '7'
    } else if d == 8 {
        '8'
    } else {
        '9'
    }
}

/// The decimal rendering of a number: most significant digit first, no
/// leading zeros except for zero itself.
pub open spec fn spec_decimal(n: nat) -> Seq<char>
    decreases n,
{
    if n < 10 {
        seq![spec_digit(n)]
    } else {
        spec_decimal(n / 10).push(spec_digit(n % 10))
    }
}

/// The one-character string for a decimal digit.
fn digit_str(d: u16) -> (r: &'static str)
    requires
        d < 10,
    ensures
        r@ == seq![spec_digit(d as nat)],
{
    let r: &'static str = match d {
        0u16 => "0",
        1u16 => "1",
        2u16 => "2",
        3u16 => "3",
        4u16 => "4",
        5u16 => "5",
        6u16 => "6",
        7u16 => "7",
        8u16 => "8",
        _ => "9",
    };
    proof {
        reveal_strlit("0");
        reveal_strlit("1");
        reveal_strlit("2");
        reveal_strlit("3");
        reveal_strlit("4");
        reveal_strlit("5");
        reveal_strlit("6");
        reveal_strlit("7");
        reveal_strlit("8");
        reveal_strlit("9");
        assert(r@ =~= seq![spec_digit(d as nat)]);
    }
    r
}

/// Render a number in decimal.
pub fn u16_to_decimal(n: u16) -> (r: String)
    ensures
        r@ == spec_decimal(n as nat),
    decreases n,
{
    if n < 10 {
        digit_str(n).to_owned()
    } else {
        let mut s = u16_to_decimal(n / 10);
        s.append(digit_str(n % 10));
        proof {
            assert(s@ =~= spec_decimal(n as nat));
        }
        s
    }
}

} // verus!
