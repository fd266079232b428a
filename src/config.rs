//! The application's configuration, resolved once at startup from values
//! that the host hands in (the data directory, the sync setting, the local
//! address).
use vstd::prelude::*;

verus! {

/// The port of the relay server.
pub const RELAY_PORT: u16 = 14200;

/// Minutes between syncs when the setting is absent or unreadable.
pub const DEFAULT_SYNC_MINUTES: u32 = 60;

/// The address reported when the local address cannot be found.
pub const LOOPBACK_ADDRESS: &'static str = "127.0.0.1";

/// What a database path is prefixed with to give its connection string.
pub const SQLITE_SCHEME: &'static str = "sqlite:";

pub open spec fn is_digit(c: char) -> bool {
    '0' <= c && c <= '9'
}

pub open spec fn digit_value(c: char) -> nat {
    (c as u32 - '0' as u32) as nat
}

/// The number that a string of decimal digits writes.
pub open spec fn digits_value(s: Seq<char>) -> nat
    decreases s.len(),
{
    if s.len() == 0 {
        0
    } else {
        digits_value(s.drop_last()) * 10 + digit_value(s.last())
    }
}

/// The digits of a setting, after an optional leading `+`.
pub open spec fn unsigned_digits(s: Seq<char>) -> Seq<char> {
    if s.len() > 0 && s[0] == '+' {
        s.subrange(1, s.len() as int)
    } else {
        s
    }
}

/// The number a setting writes: an optional `+` and at least one digit,
/// nothing else.
pub open spec fn decimal_value(s: Seq<char>) -> Option<nat> {
    let d = unsigned_digits(s);
    if d.len() > 0 && forall|i: int| 0 <= i < d.len() ==> is_digit(#[trigger] d[i]) {
        Some(digits_value(d))
    } else {
        None
    }
}

/// The number a setting writes, where it is at most `max`.
pub open spec fn bounded_value(s: Seq<char>, max: u64) -> Option<u64> {
    match decimal_value(s) {
        Some(v) => if v <= max {
            Some(v as u64)
        } else {
            None
        },
        None => None,
    }
}

proof fn lemma_digits_prefix_le(d: Seq<char>, k: int)
    requires
        0 <= k <= d.len(),
    ensures
        digits_value(d.subrange(0, k)) <= digits_value(d),
    decreases d.len(),
{
    if k < d.len() {
        assert(d.drop_last().subrange(0, k) =~= d.subrange(0, k));
        lemma_digits_prefix_le(d.drop_last(), k);
    } else {
        assert(d.subrange(0, k) =~= d);
    }
}

/// Reads an unsigned decimal setting no greater than `max`.
pub fn parse_bounded(s: &str, max: u64) -> (r: Option<u64>)
    ensures
        r == bounded_value(s@, max),
{
    let n = s.unicode_len();
    if n == 0 {
        return None;
    }
    let start: usize = if s.get_char(0) == '+' {
        1
    } else {
        0
    };
    let ghost d = unsigned_digits(s@);
    assert(d =~= s@.subrange(start as int, n as int));
    if start >= n {
        return None;
    }
    let mut acc: u64 = 0;
    let mut i: usize = start;
    while i < n
        invariant
            n == s@.len(),
            start <= i <= n,
            d == s@.subrange(start as int, n as int),
            d == unsigned_digits(s@),
            d.len() > 0,
            acc <= max,
            acc == digits_value(d.subrange(0, i - start)),
            forall|j: int| 0 <= j < i - start ==> is_digit(#[trigger] d[j]),
        decreases n - i,
    {
        let c = s.get_char(i);
        let ghost k = i - start;
        assert(d[k] == c);
        if !('0' <= c && c <= '9') {
            assert(!is_digit(d[k]));
            return None;
        }
        let dgt = (c as u32 - '0' as u32) as u64;
        assert(d.subrange(0, k + 1).drop_last() =~= d.subrange(0, k));
        assert(digits_value(d.subrange(0, k + 1)) == acc * 10 + dgt);
        if dgt > max || acc > (max - dgt) / 10 {
            proof {
                assert(acc * 10 + dgt > max) by (nonlinear_arith)
                    requires
                        dgt > max || acc > (max - dgt) / 10,
                        dgt <= 9,
                ;
                lemma_digits_prefix_le(d, k + 1);
            }
            return None;
        }
        assert(acc * 10 + dgt <= max) by (nonlinear_arith)
            requires
                dgt <= max,
                acc <= (max - dgt) / 10,
        ;
        acc = acc * 10 + dgt;
        i = i + 1;
    }
    assert(d.subrange(0, n - start) =~= d);
    Some(acc)
}

/// The sync interval that a setting gives: its value, else the default.
pub open spec fn sync_minutes_of(setting: Option<Seq<char>>) -> nat {
    match setting {
        Some(s) => match bounded_value(s, u32::MAX as u64) {
            Some(v) => v as nat,
            None => DEFAULT_SYNC_MINUTES as nat,
        },
        None => DEFAULT_SYNC_MINUTES as nat,
    }
}

/// Minutes between syncs, as the host's setting gives them, or the default.
pub fn get_sync_interval_minutes(setting: Option<&str>) -> (r: u64)
    ensures
        r as nat == match setting {
            Some(s) => match bounded_value(s@, u64::MAX) {
                Some(v) => v as nat,
                None => DEFAULT_SYNC_MINUTES as nat,
            },
            None => DEFAULT_SYNC_MINUTES as nat,
        },
{
    match setting {
        Some(s) => match parse_bounded(s, u64::MAX) {
            Some(v) => v,
            None => DEFAULT_SYNC_MINUTES as u64,
        },
        None => DEFAULT_SYNC_MINUTES as u64,
    }
}

/// The application's configuration.
#[derive(Clone, Debug)]
pub struct AppConfig {
    pub db_path: String,
    pub db_url: String,
    pub data_dir: String,
    pub sync_interval_minutes: u32,
    pub ip_address: String,
    pub port: u16,
}

/// The address to report: the one found, else the loopback address.
pub open spec fn address_of(found: Option<String>) -> Seq<char> {
    match found {
        Some(a) => a@,
        None => LOOPBACK_ADDRESS@,
    }
}

impl AppConfig {
    /// A configuration is well formed when its connection string names its
    /// database file.
    pub open spec fn wf(&self) -> bool {
        self.db_url@ == SQLITE_SCHEME@ + self.db_path@
    }

    /// Resolves the configuration from the data directory, the database
    /// file inside it, the sync setting and the local address, if found.
    pub fn resolve(
        data_dir: String,
        db_path: String,
        sync_setting: Option<&str>,
        ip_address: Option<String>,
    ) -> (r: AppConfig)
        ensures
            r.data_dir@ == data_dir@,
            r.db_path@ == db_path@,
            r.db_url@ == SQLITE_SCHEME@ + db_path@,
            r.sync_interval_minutes as nat == sync_minutes_of(
                match sync_setting {
                    Some(s) => Some(s@),
                    None => None,
                },
            ),
            r.ip_address@ == address_of(ip_address),
            r.port == RELAY_PORT,
            r.wf(),
    {
        let db_url = String::from_str(SQLITE_SCHEME).concat(db_path.as_str());
        let sync_interval_minutes: u32 = match sync_setting {
            Some(s) => match parse_bounded(s, u32::MAX as u64) {
                Some(v) => v as u32,
                None => DEFAULT_SYNC_MINUTES,
            },
            None => DEFAULT_SYNC_MINUTES,
        };
        let ip_address = match ip_address {
            Some(a) => a,
            None => String::from_str(LOOPBACK_ADDRESS),
        };
        AppConfig { db_path, db_url, data_dir, sync_interval_minutes, ip_address, port: RELAY_PORT }
    }

    /// The configuration as reported to the interface: the address is the
    /// one found now, where one is found; nothing else changes.
    pub fn with_current_address(self, found: Option<String>) -> (r: AppConfig)
        ensures
            r.ip_address@ == match found {
                Some(a) => a@,
                None => self.ip_address@,
            },
            r.db_path == self.db_path,
            r.db_url == self.db_url,
            r.data_dir == self.data_dir,
            r.sync_interval_minutes == self.sync_interval_minutes,
            r.port == self.port,
            self.wf() ==> r.wf(),
    {
        let mut config = self;
        if let Some(a) = found {
            config.ip_address = a;
        }
        config
    }
}

/// What the application keeps for its whole run.
#[derive(Clone, Debug)]
pub struct AppState {
    pub config: AppConfig,
}

impl AppState {
    pub fn new(config: AppConfig) -> (r: AppState)
        ensures
            r.config == config,
    {
        AppState { config }
    }
}

/// A copy of a string, character for character.
fn copy_text(s: &String) -> (r: String)
    ensures
        r@ == s@,
{
    String::from_str(s.as_str())
}

impl AppConfig {
    /// A copy of the configuration, field for field.
    pub fn duplicate(&self) -> (r: AppConfig)
        ensures
            r.db_path@ == self.db_path@,
            r.db_url@ == self.db_url@,
            r.data_dir@ == self.data_dir@,
            r.ip_address@ == self.ip_address@,
            r.sync_interval_minutes == self.sync_interval_minutes,
            r.port == self.port,
            self.wf() ==> r.wf(),
    {
        AppConfig {
            db_path: copy_text(&self.db_path),
            db_url: copy_text(&self.db_url),
            data_dir: copy_text(&self.data_dir),
            sync_interval_minutes: self.sync_interval_minutes,
            ip_address: copy_text(&self.ip_address),
            port: self.port,
        }
    }
}

/// The configuration for the interface, with the address found now, if any.
pub fn get_app_config(state: &AppState, found: Option<String>) -> (r: AppConfig)
    ensures
        r.ip_address@ == match found {
            Some(a) => a@,
            None => state.config.ip_address@,
        },
        r.db_path@ == state.config.db_path@,
        r.db_url@ == state.config.db_url@,
        r.data_dir@ == state.config.data_dir@,
        r.sync_interval_minutes == state.config.sync_interval_minutes,
        r.port == state.config.port,
        state.config.wf() ==> r.wf(),
{
    state.config.duplicate().with_current_address(found)
}

/// The database's connection string.
pub fn get_db_url(state: &AppState) -> (r: String)
    ensures
        r@ == state.config.db_url@,
        state.config.wf() ==> r@ == SQLITE_SCHEME@ + state.config.db_path@,
{
    copy_text(&state.config.db_url)
}

/// The database file's path.
pub fn get_db_path(state: &AppState) -> (r: String)
    ensures
        r@ == state.config.db_path@,
{
    copy_text(&state.config.db_path)
}

} // verus!
