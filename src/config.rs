//! Node configuration: defaults, the settings of a TOML configuration file
//! and of the command line laid over them, and what the node logs of it.

use vstd::prelude::*;
use vstd::string::StringExecFns;
use vstd::string::StringSliceAdditionalSpecFns;
use vstd::utf8::encode_utf8;
use crate::text::{contains, contains_text, decimal, decimal_text, parse_u16, same_text, u16_of};

verus! {

/// Name of the system account.
pub const SERVICE_ACCOUNT_ID: &'static str = "TRINCI";

/// Default configuration file.
pub const DEFAULT_CONFIG_FILE: &'static str = "config.toml";

/// Default logger verbosity level.
pub const DEFAULT_LOG_LEVEL: &'static str = "info";

/// Default bootstrap file path.
pub const DEFAULT_BOOTSTRAP_PATH: &'static str = "bootstrap.bin";

/// Default network identifier.
pub const DEFAULT_NETWORK_ID: &'static str = "bootstrap";

/// Default max transactions per block.
pub const DEFAULT_BLOCK_THRESHOLD: usize = 42;

/// Default block generation max time.
pub const DEFAULT_BLOCK_TIMEOUT: u16 = 3;

/// Default http service binding address.
pub const DEFAULT_HTTP_ADDR: &'static str = "127.0.0.1";

/// Default http service port.
pub const DEFAULT_HTTP_PORT: u16 = 8000;

/// Default bridge service binding address.
pub const DEFAULT_BRIDGE_ADDR: &'static str = "127.0.0.1";

/// Default bridge service port.
pub const DEFAULT_BRIDGE_PORT: u16 = 8001;

/// Default p2p service binding address.
pub const DEFAULT_P2P_ADDR: &'static str = "127.0.0.1";

/// Default p2p service binding port.
pub const DEFAULT_P2P_PORT: u16 = 0;

/// Default database path.
pub const DEFAULT_DB_PATH: &'static str = "db";

/// Default smart contracts cache size.
pub const DEFAULT_WM_CACHE_MAX: usize = 10;

/// Default monitor file.
pub const DEFAULT_MONITOR_FILE: &'static str = "blackbox.info";

/// Default monitor addr.
pub const DEFAULT_MONITOR_ADDR: &'static str = "https://dev.exchange.affidaty.net/api/v1/nodesMonitor/update";

/// Core configuration structure.
#[derive(Clone, Debug, PartialEq)]
pub struct Config {
    /// Log level.
    pub log_level: String,
    /// Optional node keypair file.
    pub keypair_path: Option<String>,
    /// Network identifier.
    pub network: String,
    /// Max number of transactions within a block.
    pub block_threshold: usize,
    /// Max number of seconds to trigger block creation if the threshold has
    /// not been reached.
    pub block_timeout: u16,
    /// Http service address.
    pub rest_addr: String,
    /// Http service tcp port.
    pub rest_port: u16,
    /// Bridge service address.
    pub bridge_addr: String,
    /// Bridge service tcp port.
    pub bridge_port: u16,
    /// P2P service ip address.
    pub p2p_addr: String,
    /// P2p service tcp port.
    pub p2p_port: u16,
    /// P2P service bootstrap address.
    pub p2p_bootstrap_addr: Option<String>,
    /// Blockchain database folder path.
    pub db_path: String,
    /// Bootstrap file path.
    pub bootstrap_path: String,
    /// WASM machine max cache size.
    pub wm_cache_max: usize,
    /// Monitor file.
    pub monitor_file: String,
    /// Monitor addr.
    pub monitor_addr: String,
    /// Test mode.
    pub test_mode: bool,
    /// Local IP.
    pub local_ip: Option<String>,
    /// IP seen from outside.
    pub public_ip: Option<String>,
}

/// Whether `c` holds the default configuration.
pub open spec fn is_default(c: Config) -> bool {
    &&& c.log_level@ == DEFAULT_LOG_LEVEL@
    &&& c.keypair_path is None
    &&& c.network@ == DEFAULT_NETWORK_ID@
    &&& c.block_threshold == DEFAULT_BLOCK_THRESHOLD
    &&& c.block_timeout == DEFAULT_BLOCK_TIMEOUT
    &&& c.rest_addr@ == DEFAULT_HTTP_ADDR@
    &&& c.rest_port == DEFAULT_HTTP_PORT
    &&& c.bridge_addr@ == DEFAULT_BRIDGE_ADDR@
    &&& c.bridge_port == DEFAULT_BRIDGE_PORT
    &&& c.p2p_addr@ == DEFAULT_P2P_ADDR@
    &&& c.p2p_port == DEFAULT_P2P_PORT
    &&& c.p2p_bootstrap_addr is None
    &&& c.db_path@ == DEFAULT_DB_PATH@
    &&& c.bootstrap_path@ == DEFAULT_BOOTSTRAP_PATH@
    &&& c.wm_cache_max == DEFAULT_WM_CACHE_MAX
    &&& c.monitor_file@ == DEFAULT_MONITOR_FILE@
    &&& c.monitor_addr@ == DEFAULT_MONITOR_ADDR@
    &&& c.test_mode == false
    &&& c.local_ip is None
    &&& c.public_ip is None
}

impl Default for Config {
    fn default() -> (r: Self)
        ensures
            is_default(r),
    {
        Config {
            log_level: String::from_str(DEFAULT_LOG_LEVEL),
            keypair_path: None,
            network: String::from_str(DEFAULT_NETWORK_ID),
            block_threshold: DEFAULT_BLOCK_THRESHOLD,
            block_timeout: DEFAULT_BLOCK_TIMEOUT,
            rest_addr: String::from_str(DEFAULT_HTTP_ADDR),
            rest_port: DEFAULT_HTTP_PORT,
            bridge_addr: String::from_str(DEFAULT_BRIDGE_ADDR),
            bridge_port: DEFAULT_BRIDGE_PORT,
            p2p_addr: String::from_str(DEFAULT_P2P_ADDR),
            p2p_port: DEFAULT_P2P_PORT,
            p2p_bootstrap_addr: None,
            db_path: String::from_str(DEFAULT_DB_PATH),
            bootstrap_path: String::from_str(DEFAULT_BOOTSTRAP_PATH),
            wm_cache_max: DEFAULT_WM_CACHE_MAX,
            monitor_file: String::from_str(DEFAULT_MONITOR_FILE),
            monitor_addr: String::from_str(DEFAULT_MONITOR_ADDR),
            test_mode: false,
            local_ip: None,
            public_ip: None,
        }
    }
}

/// The settings that a configuration file gives, each where it is present
/// with the right type. Integers are as written in the file.
#[derive(Debug)]
pub struct FileSettings {
    pub log_level: Option<String>,
    pub keypair_path: Option<String>,
    pub rest_addr: Option<String>,
    pub rest_port: Option<i64>,
    pub bridge_addr: Option<String>,
    pub bridge_port: Option<i64>,
    pub p2p_addr: Option<String>,
    pub p2p_port: Option<i64>,
    pub p2p_bootstrap_addr: Option<String>,
    pub block_threshold: Option<i64>,
    pub block_timeout: Option<i64>,
    pub db_path: Option<String>,
    pub bootstrap_path: Option<String>,
    pub wm_cache_max: Option<i64>,
    pub test_mode: Option<bool>,
    pub local_ip: Option<String>,
    pub public_ip: Option<String>,
}

/// `v` where present, else `d`.
pub open spec fn or_keep<T>(v: Option<T>, d: T) -> T {
    match v {
        Some(x) => x,
        None => d,
    }
}

/// `Some(v)` where present, else `d`.
pub open spec fn or_keep_opt<T>(v: Option<T>, d: Option<T>) -> Option<T> {
    match v {
        Some(x) => Some(x),
        None => d,
    }
}

/// A port from a file integer: its low 16 bits.
pub open spec fn port_from_file(v: Option<i64>, d: u16) -> u16 {
    match v {
        Some(x) => x as u16,
        None => d,
    }
}

/// A size from a file integer: its bits as an unsigned size.
pub open spec fn size_from_file(v: Option<i64>, d: usize) -> usize {
    match v {
        Some(x) => x as usize,
        None => d,
    }
}

/// The configuration `c` with the file's settings laid over it. Integers
/// are converted as Rust's `as` does.
pub open spec fn with_file(c: Config, s: FileSettings) -> Config {
    Config {
        log_level: or_keep(s.log_level, c.log_level),
        keypair_path: or_keep_opt(s.keypair_path, c.keypair_path),
        network: c.network,
        block_threshold: size_from_file(s.block_threshold, c.block_threshold),
        block_timeout: port_from_file(s.block_timeout, c.block_timeout),
        rest_addr: or_keep(s.rest_addr, c.rest_addr),
        rest_port: port_from_file(s.rest_port, c.rest_port),
        bridge_addr: or_keep(s.bridge_addr, c.bridge_addr),
        bridge_port: port_from_file(s.bridge_port, c.bridge_port),
        p2p_addr: or_keep(s.p2p_addr, c.p2p_addr),
        p2p_port: port_from_file(s.p2p_port, c.p2p_port),
        p2p_bootstrap_addr: or_keep_opt(s.p2p_bootstrap_addr, c.p2p_bootstrap_addr),
        db_path: or_keep(s.db_path, c.db_path),
        bootstrap_path: or_keep(s.bootstrap_path, c.bootstrap_path),
        wm_cache_max: size_from_file(s.wm_cache_max, c.wm_cache_max),
        monitor_file: c.monitor_file,
        monitor_addr: c.monitor_addr,
        test_mode: or_keep(s.test_mode, c.test_mode),
        local_ip: or_keep_opt(s.local_ip, c.local_ip),
        public_ip: or_keep_opt(s.public_ip, c.public_ip),
    }
}

fn keep(v: Option<String>, d: String) -> (r: String)
    ensures
        r == or_keep(v, d),
{
    match v {
        Some(x) => x,
        None => d,
    }
}

fn keep_opt(v: Option<String>, d: Option<String>) -> (r: Option<String>)
    ensures
        r == or_keep_opt(v, d),
{
    match v {
        Some(x) => Some(x),
        None => d,
    }
}

fn file_port(v: Option<i64>, d: u16) -> (r: u16)
    ensures
        r == port_from_file(v, d),
{
    match v {
        Some(x) => x as u16,
        None => d,
    }
}

fn file_size(v: Option<i64>, d: usize) -> (r: usize)
    ensures
        r == size_from_file(v, d),
{
    match v {
        Some(x) => x as usize,
        None => d,
    }
}

impl Config {
    /// This configuration with the file's settings laid over it.
    pub fn with_file_settings(self, s: FileSettings) -> (r: Config)
        ensures
            r == with_file(self, s),
    {
        Config {
            log_level: keep(s.log_level, self.log_level),
            keypair_path: keep_opt(s.keypair_path, self.keypair_path),
            network: self.network,
            block_threshold: file_size(s.block_threshold, self.block_threshold),
            block_timeout: file_port(s.block_timeout, self.block_timeout),
            rest_addr: keep(s.rest_addr, self.rest_addr),
            rest_port: file_port(s.rest_port, self.rest_port),
            bridge_addr: keep(s.bridge_addr, self.bridge_addr),
            bridge_port: file_port(s.bridge_port, self.bridge_port),
            p2p_addr: keep(s.p2p_addr, self.p2p_addr),
            p2p_port: file_port(s.p2p_port, self.p2p_port),
            p2p_bootstrap_addr: keep_opt(s.p2p_bootstrap_addr, self.p2p_bootstrap_addr),
            db_path: keep(s.db_path, self.db_path),
            bootstrap_path: keep(s.bootstrap_path, self.bootstrap_path),
            wm_cache_max: file_size(s.wm_cache_max, self.wm_cache_max),
            monitor_file: self.monitor_file,
            monitor_addr: self.monitor_addr,
            test_mode: match s.test_mode {
                Some(b) => b,
                None => self.test_mode,
            },
            local_ip: keep_opt(s.local_ip, self.local_ip),
            public_ip: keep_opt(s.public_ip, self.public_ip),
        }
    }
}

#[verifier::external_type_specification]
#[verifier::external_body]
pub struct ExTomlValue(toml::Value);

/// Whether a text is a valid TOML document.
pub uninterp spec fn toml_accepts(text: Seq<char>) -> bool;

/// The string under `key` at the top of the TOML document `doc`.
pub uninterp spec fn toml_text_of(doc: Seq<char>, key: Seq<char>) -> Option<Seq<char>>;

/// The integer under `key` at the top of the TOML document `doc`.
pub uninterp spec fn toml_integer_of(doc: Seq<char>, key: Seq<char>) -> Option<i64>;

/// The boolean under `key` at the top of the TOML document `doc`.
pub uninterp spec fn toml_bool_of(doc: Seq<char>, key: Seq<char>) -> Option<bool>;

/// Where a scan of a TOML text stands: in plain syntax, a comment, or one
/// of the string forms (after a backslash for the escaping ones).
#[derive(Clone, Copy, Debug, PartialEq, Eq, Structural)]
pub enum LexState {
    Plain,
    Comment,
    Basic,
    BasicEscape,
    Literal,
    MultiBasic,
    MultiBasicEscape,
    MultiLiteral,
}

/// Deepest nesting of arrays and inline tables a configuration text may
/// hold.
pub const MAX_TOML_NESTING: usize = 12;

/// Most dots a configuration text may hold in one key or table header.
pub const MAX_KEY_DOTS: usize = 7;

/// Whether three quotes `q` start at `i`.
pub open spec fn triple_at(s: Seq<u8>, i: int, q: u8) -> bool {
    i + 2 < s.len() && s[i] == q && s[i + 1] == q && s[i + 2] == q
}

/// The quotes `q` (at most two) that follow a closing triple quote at `j`
/// and still belong to the string.
pub open spec fn extra_quotes(s: Seq<u8>, j: int, q: u8) -> nat {
    if j < s.len() && s[j] == q {
        if j + 1 < s.len() && s[j + 1] == q {
            2
        } else {
            1
        }
    } else {
        0
    }
}

/// Whether the bytes of a TOML text from `i` on keep within the bounds,
/// scanning as TOML's lexer reads strings and comments: outside strings and
/// comments, `[` and `{` open a level of nesting (at most
/// `MAX_TOML_NESTING`), `]` and `}` close one, and the dots between two of
/// `=`, `,`, `[`, `{` and a line end (the parts of a key or header) number
/// at most `MAX_KEY_DOTS`.
pub open spec fn scan_within(s: Seq<u8>, i: nat, st: LexState, depth: nat, dots: nat) -> bool
    decreases s.len() - i,
{
    if i >= s.len() {
        true
    } else {
        let c = s[i as int];
        match st {
            LexState::Plain => if c == 35u8 {
                scan_within(s, i + 1, LexState::Comment, depth, dots)
            } else if c == 34u8 || c == 39u8 {
                if i + 1 < s.len() && s[(i + 1) as int] == c {
                    if i + 2 < s.len() && s[(i + 2) as int] == c {
                        scan_within(s, i + 3, if c == 34u8 { LexState::MultiBasic } else { LexState::MultiLiteral }, depth, dots)
                    } else {
                        scan_within(s, i + 2, LexState::Plain, depth, dots)
                    }
                } else {
                    scan_within(s, i + 1, if c == 34u8 { LexState::Basic } else { LexState::Literal }, depth, dots)
                }
            } else if c == 91u8 || c == 123u8 {
                depth + 1 <= MAX_TOML_NESTING && scan_within(s, i + 1, LexState::Plain, depth + 1, 0)
            } else if c == 93u8 || c == 125u8 {
                scan_within(s, i + 1, LexState::Plain, if depth > 0 { (depth - 1) as nat } else { 0 }, dots)
            } else if c == 46u8 {
                dots + 1 <= MAX_KEY_DOTS && scan_within(s, i + 1, LexState::Plain, depth, dots + 1)
            } else if c == 61u8 || c == 44u8 || c == 10u8 {
                scan_within(s, i + 1, LexState::Plain, depth, 0)
            } else {
                scan_within(s, i + 1, LexState::Plain, depth, dots)
            },
            LexState::Comment => if c == 10u8 {
                scan_within(s, i + 1, LexState::Plain, depth, 0)
            } else {
                scan_within(s, i + 1, LexState::Comment, depth, dots)
            },
            LexState::Basic => if c == 92u8 {
                scan_within(s, i + 1, LexState::BasicEscape, depth, dots)
            } else if c == 34u8 {
                scan_within(s, i + 1, LexState::Plain, depth, dots)
            } else if c == 10u8 {
                scan_within(s, i + 1, LexState::Plain, depth, 0)
            } else {
                scan_within(s, i + 1, LexState::Basic, depth, dots)
            },
            LexState::BasicEscape => scan_within(s, i + 1, LexState::Basic, depth, dots),
            LexState::Literal => if c == 39u8 {
                scan_within(s, i + 1, LexState::Plain, depth, dots)
            } else if c == 10u8 {
                scan_within(s, i + 1, LexState::Plain, depth, 0)
            } else {
                scan_within(s, i + 1, LexState::Literal, depth, dots)
            },
            LexState::MultiBasic => if c == 92u8 {
                scan_within(s, i + 1, LexState::MultiBasicEscape, depth, dots)
            } else if triple_at(s, i as int, 34u8) {
                scan_within(s, i + 3 + extra_quotes(s, (i + 3) as int, 34u8), LexState::Plain, depth, dots)
            } else {
                scan_within(s, i + 1, LexState::MultiBasic, depth, dots)
            },
            LexState::MultiBasicEscape => scan_within(s, i + 1, LexState::MultiBasic, depth, dots),
            LexState::MultiLiteral => if triple_at(s, i as int, 39u8) {
                scan_within(s, i + 3 + extra_quotes(s, (i + 3) as int, 39u8), LexState::Plain, depth, dots)
            } else {
                scan_within(s, i + 1, LexState::MultiLiteral, depth, dots)
            },
        }
    }
}

/// Whether a text is shallow enough to hand to the TOML parser, which
/// descends once per nested array or inline table and once per part of a
/// dotted key or header, with no limit of its own.
pub open spec fn toml_shallow(t: Seq<char>) -> bool {
    scan_within(encode_utf8(t), 0, LexState::Plain, 0, 0)
}

/// Whether a text is shallow enough to hand to the TOML parser. It reads
/// bytes: every delimiter is ASCII, and no byte of a multi-byte character
/// is.
pub fn is_toml_shallow(text: &str) -> (r: bool)
    ensures
        r == toml_shallow(text@),
{
    let b = text.as_bytes();
    let ghost s = b@;
    assert(s == encode_utf8(text@));
    let n = b.len();
    let mut i: usize = 0;
    let mut st = LexState::Plain;
    let mut depth: usize = 0;
    let mut dots: usize = 0;
    while i < n
        invariant
            n == s.len(),
            s == b@,
            s == encode_utf8(text@),
            i <= n + 2,
            depth <= MAX_TOML_NESTING,
            dots <= MAX_KEY_DOTS,
            scan_within(s, 0, LexState::Plain, 0, 0) == scan_within(s, i as nat, st, depth as nat, dots as nat),
        decreases n + 2 - i,
    {
        let c = b[i];
        let ghost before = scan_within(s, i as nat, st, depth as nat, dots as nat);
        match st {
            LexState::Plain => {
                if c == 35u8 {
                    st = LexState::Comment;
                    i = i + 1;
                } else if c == 34u8 || c == 39u8 {
                    if i + 1 < n && b[i + 1] == c {
                        if i + 2 < n && b[i + 2] == c {
                            st = if c == 34u8 { LexState::MultiBasic } else { LexState::MultiLiteral };
                            i = i + 3;
                        } else {
                            i = i + 2;
                        }
                    } else {
                        st = if c == 34u8 { LexState::Basic } else { LexState::Literal };
                        i = i + 1;
                    }
                } else if c == 91u8 || c == 123u8 {
                    if depth + 1 > MAX_TOML_NESTING {
                        assert(s[i as int] == c);
                        assert(!scan_within(s, i as nat, LexState::Plain, depth as nat, dots as nat));
                        return false;
                    }
                    depth = depth + 1;
                    dots = 0;
                    i = i + 1;
                } else if c == 93u8 || c == 125u8 {
                    if depth > 0 {
                        depth = depth - 1;
                    }
                    i = i + 1;
                } else if c == 46u8 {
                    if dots + 1 > MAX_KEY_DOTS {
                        assert(s[i as int] == c);
                        assert(!scan_within(s, i as nat, LexState::Plain, depth as nat, dots as nat));
                        return false;
                    }
                    dots = dots + 1;
                    i = i + 1;
                } else if c == 61u8 || c == 44u8 || c == 10u8 {
                    dots = 0;
                    i = i + 1;
                } else {
                    i = i + 1;
                }
            },
            LexState::Comment => {
                if c == 10u8 {
                    st = LexState::Plain;
                    dots = 0;
                }
                i = i + 1;
            },
            LexState::Basic => {
                if c == 92u8 {
                    st = LexState::BasicEscape;
                } else if c == 34u8 {
                    st = LexState::Plain;
                } else if c == 10u8 {
                    st = LexState::Plain;
                    dots = 0;
                }
                i = i + 1;
            },
            LexState::BasicEscape => {
                st = LexState::Basic;
                i = i + 1;
            },
            LexState::Literal => {
                if c == 39u8 {
                    st = LexState::Plain;
                } else if c == 10u8 {
                    st = LexState::Plain;
                    dots = 0;
                }
                i = i + 1;
            },
            LexState::MultiBasic | LexState::MultiLiteral => {
                let q: u8 = if st == LexState::MultiBasic { 34u8 } else { 39u8 };
                if st == LexState::MultiBasic && c == 92u8 {
                    st = LexState::MultiBasicEscape;
                    i = i + 1;
                } else if n - i > 2 && c == q && b[i + 1] == q && b[i + 2] == q {
                    let mut j = i + 3;
                    if j < n && b[j] == q {
                        j = j + 1;
                        if j < n && b[j] == q {
                            j = j + 1;
                        }
                    }
                    st = LexState::Plain;
                    i = j;
                } else {
                    i = i + 1;
                }
            },
            LexState::MultiBasicEscape => {
                st = LexState::MultiBasic;
                i = i + 1;
            },
        }
        assert(before == scan_within(s, i as nat, st, depth as nat, dots as nat));
    }
    true
}

/// A parsed TOML document together with its text.
struct TomlDoc {
    source: String,
    value: toml::Value,
}

/// Relies on toml's `FromStr` for `Value`: it parses a document, and fails
/// exactly where the text is not valid TOML. Its recursive descent goes one
/// level down per nested array or inline table and per part of a dotted key
/// or header; `toml_shallow` bounds both, which keeps it off the end of the
/// stack.
#[verifier::external_body]
fn parse_toml(text: &str) -> (r: Option<TomlDoc>)
    requires
        toml_shallow(text@),
    ensures
        r is Some <==> toml_accepts(text@),
        r matches Some(d) ==> d.source@ == text@,
{
    text.parse::<toml::Value>().ok().map(|value| TomlDoc { source: text.to_owned(), value })
}

/// A string as plain text.
pub open spec fn text_opt(o: Option<String>) -> Option<Seq<char>> {
    match o {
        Some(t) => Some(t@),
        None => None,
    }
}

/// Relies on toml's `Value::get`: the string entry under `key` of the
/// document's top table.
#[verifier::external_body]
fn toml_text(doc: &TomlDoc, key: &str) -> (r: Option<String>)
    ensures
        text_opt(r) == toml_text_of(doc.source@, key@),
{
    match doc.value.get(key) {
        Some(toml::Value::String(t)) => Some(t.clone()),
        _ => None,
    }
}

/// Relies on toml's `Value::get`: the integer entry under `key` of the
/// document's top table.
#[verifier::external_body]
fn toml_integer(doc: &TomlDoc, key: &str) -> (r: Option<i64>)
    ensures
        r == toml_integer_of(doc.source@, key@),
{
    match doc.value.get(key) {
        Some(toml::Value::Integer(i)) => Some(*i),
        _ => None,
    }
}

/// Relies on toml's `Value::get`: the boolean entry under `key` of the
/// document's top table.
#[verifier::external_body]
fn toml_flag(doc: &TomlDoc, key: &str) -> (r: Option<bool>)
    ensures
        r == toml_bool_of(doc.source@, key@),
{
    match doc.value.get(key) {
        Some(toml::Value::Boolean(b)) => Some(*b),
        _ => None,
    }
}

/// The file settings `s` are what the TOML text `t` gives.
pub open spec fn settings_of_text(s: FileSettings, t: Seq<char>) -> bool {
    &&& text_opt(s.log_level) == toml_text_of(t, "log-level"@)
    &&& text_opt(s.keypair_path) == toml_text_of(t, "keypair-path"@)
    &&& text_opt(s.rest_addr) == toml_text_of(t, "rest-addr"@)
    &&& s.rest_port == toml_integer_of(t, "rest-port"@)
    &&& text_opt(s.bridge_addr) == toml_text_of(t, "bridge-addr"@)
    &&& s.bridge_port == toml_integer_of(t, "bridge-port"@)
    &&& text_opt(s.p2p_addr) == toml_text_of(t, "p2p-addr"@)
    &&& s.p2p_port == toml_integer_of(t, "p2p-port"@)
    &&& text_opt(s.p2p_bootstrap_addr) == toml_text_of(t, "p2p-bootstrap-addr"@)
    &&& s.block_threshold == toml_integer_of(t, "block-threshold"@)
    &&& s.block_timeout == toml_integer_of(t, "block-timeout"@)
    &&& text_opt(s.db_path) == toml_text_of(t, "db-path"@)
    &&& text_opt(s.bootstrap_path) == toml_text_of(t, "bootstrap-path"@)
    &&& s.wm_cache_max == toml_integer_of(t, "wm-cache-max"@)
    &&& s.test_mode == toml_bool_of(t, "test-mode"@)
    &&& text_opt(s.local_ip) == toml_text_of(t, "local-ip"@)
    &&& text_opt(s.public_ip) == toml_text_of(t, "public-ip"@)
}

/// The settings of a parsed configuration file: each key read where it
/// holds a value of the expected type.
fn settings_from_toml(doc: &TomlDoc) -> (r: FileSettings)
    ensures
        settings_of_text(r, doc.source@),
{
    FileSettings {
        log_level: toml_text(doc, "log-level"),
        keypair_path: toml_text(doc, "keypair-path"),
        rest_addr: toml_text(doc, "rest-addr"),
        rest_port: toml_integer(doc, "rest-port"),
        bridge_addr: toml_text(doc, "bridge-addr"),
        bridge_port: toml_integer(doc, "bridge-port"),
        p2p_addr: toml_text(doc, "p2p-addr"),
        p2p_port: toml_integer(doc, "p2p-port"),
        p2p_bootstrap_addr: toml_text(doc, "p2p-bootstrap-addr"),
        block_threshold: toml_integer(doc, "block-threshold"),
        block_timeout: toml_integer(doc, "block-timeout"),
        db_path: toml_text(doc, "db-path"),
        bootstrap_path: toml_text(doc, "bootstrap-path"),
        wm_cache_max: toml_integer(doc, "wm-cache-max"),
        test_mode: toml_flag(doc, "test-mode"),
        local_ip: toml_text(doc, "local-ip"),
        public_ip: toml_text(doc, "public-ip"),
    }
}

/// A text entry where present, else the default `d`.
pub open spec fn text_or_default(v: Option<Seq<char>>, d: Seq<char>) -> Seq<char> {
    match v {
        Some(t) => t,
        None => d,
    }
}

/// `c` is the configuration that the TOML text `t` gives: each known key
/// of the right type sets its field (integers converted as Rust's `as`
/// does), every other field keeps its default.
pub open spec fn loaded_from(c: Config, t: Seq<char>) -> bool {
    &&& c.log_level@ == text_or_default(toml_text_of(t, "log-level"@), DEFAULT_LOG_LEVEL@)
    &&& text_opt(c.keypair_path) == toml_text_of(t, "keypair-path"@)
    &&& c.network@ == DEFAULT_NETWORK_ID@
    &&& c.block_threshold == size_from_file(toml_integer_of(t, "block-threshold"@), DEFAULT_BLOCK_THRESHOLD)
    &&& c.block_timeout == port_from_file(toml_integer_of(t, "block-timeout"@), DEFAULT_BLOCK_TIMEOUT)
    &&& c.rest_addr@ == text_or_default(toml_text_of(t, "rest-addr"@), DEFAULT_HTTP_ADDR@)
    &&& c.rest_port == port_from_file(toml_integer_of(t, "rest-port"@), DEFAULT_HTTP_PORT)
    &&& c.bridge_addr@ == text_or_default(toml_text_of(t, "bridge-addr"@), DEFAULT_BRIDGE_ADDR@)
    &&& c.bridge_port == port_from_file(toml_integer_of(t, "bridge-port"@), DEFAULT_BRIDGE_PORT)
    &&& c.p2p_addr@ == text_or_default(toml_text_of(t, "p2p-addr"@), DEFAULT_P2P_ADDR@)
    &&& c.p2p_port == port_from_file(toml_integer_of(t, "p2p-port"@), DEFAULT_P2P_PORT)
    &&& text_opt(c.p2p_bootstrap_addr) == toml_text_of(t, "p2p-bootstrap-addr"@)
    &&& c.db_path@ == text_or_default(toml_text_of(t, "db-path"@), DEFAULT_DB_PATH@)
    &&& c.bootstrap_path@ == text_or_default(toml_text_of(t, "bootstrap-path"@), DEFAULT_BOOTSTRAP_PATH@)
    &&& c.wm_cache_max == size_from_file(toml_integer_of(t, "wm-cache-max"@), DEFAULT_WM_CACHE_MAX)
    &&& c.monitor_file@ == DEFAULT_MONITOR_FILE@
    &&& c.monitor_addr@ == DEFAULT_MONITOR_ADDR@
    &&& c.test_mode == or_keep(toml_bool_of(t, "test-mode"@), false)
    &&& text_opt(c.local_ip) == toml_text_of(t, "local-ip"@)
    &&& text_opt(c.public_ip) == toml_text_of(t, "public-ip"@)
}

/// Whether a configuration text is accepted: shallow enough for the parser
/// and valid TOML.
pub open spec fn config_text_ok(t: Seq<char>) -> bool {
    toml_shallow(t) && toml_accepts(t)
}

impl Config {
    /// The configuration from the content of a configuration file: the
    /// defaults where the file could not be read (`None`), nothing where it
    /// is nested too deep or is not valid TOML, else the defaults with the
    /// file's settings laid over them.
    pub fn from_file_content(content: Option<&str>) -> (r: Option<Config>)
        ensures
            content is None ==> (r matches Some(c) && is_default(c)),
            content matches Some(t) ==> (r is None <==> !config_text_ok(t@)),
            match (content, r) {
                (Some(t), Some(c)) => loaded_from(c, t@),
                _ => true,
            },
    {
        let defaults = Config::default();
        match content {
            None => Some(defaults),
            Some(text) => {
                if !is_toml_shallow(text) {
                    return None;
                }
                match parse_toml(text) {
                    None => None,
                    Some(doc) => {
                        let s = settings_from_toml(&doc);
                        let c = defaults.with_file_settings(s);
                        Some(c)
                    },
                }
            },
        }
    }
}

/// The settings given on the command line. Ports are as typed.
#[derive(Debug)]
pub struct CliSettings {
    pub log_level: Option<String>,
    pub db_path: Option<String>,
    pub bootstrap_path: Option<String>,
    pub http_addr: Option<String>,
    pub http_port: Option<String>,
    pub bridge_addr: Option<String>,
    pub bridge_port: Option<String>,
    pub p2p_addr: Option<String>,
    pub p2p_port: Option<String>,
    pub p2p_bootstrap_addr: Option<String>,
    pub monitor_file: Option<String>,
    pub monitor_addr: Option<String>,
    pub public_ip: Option<String>,
    pub local_ip: Option<String>,
    pub test_mode: bool,
}

/// A port typed on the command line where it reads as one, else `d`.
pub open spec fn port_from_cli(v: Option<String>, d: u16) -> u16 {
    match v {
        Some(t) => match u16_of(t@) {
            Some(p) => p,
            None => d,
        },
        None => d,
    }
}

/// The configuration `c` with the command line's settings laid over it.
pub open spec fn with_cli(c: Config, s: CliSettings) -> Config {
    Config {
        log_level: or_keep(s.log_level, c.log_level),
        keypair_path: c.keypair_path,
        network: c.network,
        block_threshold: c.block_threshold,
        block_timeout: c.block_timeout,
        rest_addr: or_keep(s.http_addr, c.rest_addr),
        rest_port: port_from_cli(s.http_port, c.rest_port),
        bridge_addr: or_keep(s.bridge_addr, c.bridge_addr),
        bridge_port: port_from_cli(s.bridge_port, c.bridge_port),
        p2p_addr: or_keep(s.p2p_addr, c.p2p_addr),
        p2p_port: port_from_cli(s.p2p_port, c.p2p_port),
        p2p_bootstrap_addr: or_keep_opt(s.p2p_bootstrap_addr, c.p2p_bootstrap_addr),
        db_path: or_keep(s.db_path, c.db_path),
        bootstrap_path: or_keep(s.bootstrap_path, c.bootstrap_path),
        wm_cache_max: c.wm_cache_max,
        monitor_file: or_keep(s.monitor_file, c.monitor_file),
        monitor_addr: or_keep(s.monitor_addr, c.monitor_addr),
        test_mode: c.test_mode || s.test_mode,
        local_ip: or_keep_opt(s.local_ip, c.local_ip),
        public_ip: or_keep_opt(s.public_ip, c.public_ip),
    }
}

fn cli_port(v: Option<String>, d: u16) -> (r: u16)
    ensures
        r == port_from_cli(v, d),
{
    match v {
        Some(t) => match parse_u16(t.as_str()) {
            Some(p) => p,
            None => d,
        },
        None => d,
    }
}

impl Config {
    /// This configuration with the command line's settings laid over it.
    pub fn with_cli_settings(self, s: CliSettings) -> (r: Config)
        ensures
            r == with_cli(self, s),
    {
        Config {
            log_level: keep(s.log_level, self.log_level),
            keypair_path: self.keypair_path,
            network: self.network,
            block_threshold: self.block_threshold,
            block_timeout: self.block_timeout,
            rest_addr: keep(s.http_addr, self.rest_addr),
            rest_port: cli_port(s.http_port, self.rest_port),
            bridge_addr: keep(s.bridge_addr, self.bridge_addr),
            bridge_port: cli_port(s.bridge_port, self.bridge_port),
            p2p_addr: keep(s.p2p_addr, self.p2p_addr),
            p2p_port: cli_port(s.p2p_port, self.p2p_port),
            p2p_bootstrap_addr: keep_opt(s.p2p_bootstrap_addr, self.p2p_bootstrap_addr),
            db_path: keep(s.db_path, self.db_path),
            bootstrap_path: keep(s.bootstrap_path, self.bootstrap_path),
            wm_cache_max: self.wm_cache_max,
            monitor_file: keep(s.monitor_file, self.monitor_file),
            monitor_addr: keep(s.monitor_addr, self.monitor_addr),
            test_mode: self.test_mode || s.test_mode,
            local_ip: keep_opt(s.local_ip, self.local_ip),
            public_ip: keep_opt(s.public_ip, self.public_ip),
        }
    }
}

/// The node's configuration: the file's content (`None` where it could
/// not be read) over the defaults, then the command line over that.
/// `None` where the file is nested too deep or is not valid TOML.
pub fn create_app_config(file_content: Option<&str>, cli: CliSettings) -> (r: Option<Config>)
    ensures
        file_content is None ==> (r matches Some(c) && exists|d: Config| is_default(d) && c == #[trigger] with_cli(d, cli)),
        file_content matches Some(t) ==> (r is None <==> !config_text_ok(t@)),
        match (file_content, r) {
            (Some(t), Some(c)) => exists|d: Config| loaded_from(d, t@) && c == #[trigger] with_cli(d, cli),
            _ => true,
        },
{
    match Config::from_file_content(file_content) {
        None => None,
        Some(c) => {
            let ghost c0 = c;
            let r = c.with_cli_settings(cli);
            assert(r == with_cli(c0, cli));
            Some(r)
        },
    }
}

/// The verbosity of the logger.
#[derive(Clone, Copy, Debug, PartialEq, Eq, Structural)]
pub enum LogLevel {
    Off,
    Error,
    Warn,
    Info,
    Debug,
    Trace,
}

/// The verbosity a level name selects: `debug` for any name it does not
/// know.
pub open spec fn level_of(name: Seq<char>) -> LogLevel {
    if name == "off"@ {
        LogLevel::Off
    } else if name == "error"@ {
        LogLevel::Error
    } else if name == "warn"@ {
        LogLevel::Warn
    } else if name == "info"@ {
        LogLevel::Info
    } else if name == "trace"@ {
        LogLevel::Trace
    } else {
        LogLevel::Debug
    }
}

/// The logger verbosity for a level name.
pub fn logger_level(level: &str) -> (r: LogLevel)
    ensures
        r == level_of(level@),
{
    if same_text(level, "off") {
        LogLevel::Off
    } else if same_text(level, "error") {
        LogLevel::Error
    } else if same_text(level, "warn") {
        LogLevel::Warn
    } else if same_text(level, "info") {
        LogLevel::Info
    } else if same_text(level, "trace") {
        LogLevel::Trace
    } else {
        LogLevel::Debug
    }
}

/// An optional text, or `d`.
pub open spec fn text_or(o: Option<String>, d: Seq<char>) -> Seq<char> {
    match o {
        Some(t) => t@,
        None => d,
    }
}

/// The lines the node logs of its configuration.
pub open spec fn config_lines(c: Config) -> Seq<Seq<char>> {
    seq![
        "Configuration:"@,
        "  Keypair path:           "@ + text_or(c.keypair_path, "null"@),
        "  Network Id:             "@ + c.network@,
        "  Block threshold:        "@ + decimal(c.block_threshold as nat),
        "  Block timeout:          "@ + decimal(c.block_timeout as nat),
        "  Database path:          "@ + c.db_path@,
        "  Boot files path:        "@ + c.bootstrap_path@,
        "  WM cache max size:      "@ + decimal(c.wm_cache_max as nat),
        "  REST service address:   "@ + c.rest_addr@ + ":"@ + decimal(c.rest_port as nat),
        "  Bridge service address: "@ + c.bridge_addr@ + ":"@ + decimal(c.bridge_port as nat),
        "  P2P service address:    "@ + c.p2p_addr@,
        "  P2P bootstrap address:  "@ + text_or(c.p2p_bootstrap_addr, Seq::empty()),
    ]
}

/// The lines as plain text.
pub open spec fn lines_view(v: Seq<String>) -> Seq<Seq<char>> {
    v.map_values(|l: String| l@)
}

fn line(lines: &mut Vec<String>, l: String)
    ensures
        lines_view(final(lines)@) == lines_view(old(lines)@).push(l@),
{
    lines.push(l);
    assert(lines_view(lines@) =~= lines_view(old(lines)@).push(l@));
}

fn optional_text(o: &Option<String>, d: &str) -> (r: String)
    ensures
        r@ == text_or(*o, d@),
{
    match o {
        Some(t) => t.clone(),
        None => String::from_str(d),
    }
}

fn labelled(label: &str, value: &str) -> (r: String)
    ensures
        r@ == label@ + value@,
{
    String::from_str(label).concat(value)
}

fn address_line(label: &str, addr: &String, port: u16) -> (r: String)
    ensures
        r@ == label@ + addr@ + ":"@ + decimal(port as nat),
{
    let p = decimal_text(port as u64);
    String::from_str(label).concat(addr.as_str()).concat(":").concat(p.as_str())
}

/// The lines that describe the configuration, for the log.
pub fn show_config(config: &Config) -> (r: Vec<String>)
    ensures
        lines_view(r@) == config_lines(*config),
{
    let mut lines: Vec<String> = Vec::new();
    assert(lines_view(lines@) =~= Seq::<Seq<char>>::empty());
    line(&mut lines, String::from_str("Configuration:"));
    line(&mut lines, labelled("  Keypair path:           ", optional_text(&config.keypair_path, "null").as_str()));
    line(&mut lines, labelled("  Network Id:             ", config.network.as_str()));
    line(&mut lines, labelled("  Block threshold:        ", decimal_text(config.block_threshold as u64).as_str()));
    line(&mut lines, labelled("  Block timeout:          ", decimal_text(config.block_timeout as u64).as_str()));
    line(&mut lines, labelled("  Database path:          ", config.db_path.as_str()));
    line(&mut lines, labelled("  Boot files path:        ", config.bootstrap_path.as_str()));
    line(&mut lines, labelled("  WM cache max size:      ", decimal_text(config.wm_cache_max as u64).as_str()));
    line(&mut lines, address_line("  REST service address:   ", &config.rest_addr, config.rest_port));
    line(&mut lines, address_line("  Bridge service address: ", &config.bridge_addr, config.bridge_port));
    line(&mut lines, labelled("  P2P service address:    ", config.p2p_addr.as_str()));
    line(&mut lines, labelled("  P2P bootstrap address:  ", optional_text(&config.p2p_bootstrap_addr, "").as_str()));
    proof {
        reveal_strlit("");
    }
    assert(lines_view(lines@) =~= config_lines(*config));
    lines
}

/// Where the node's keypair comes from.
#[derive(Clone, Copy, Debug, PartialEq, Eq, Structural)]
pub enum KeypairSource {
    /// No file: a fresh Ed25519 keypair.
    Random,
    /// A TPM device path.
    Tpm,
    /// A PKCS#8 ECDSA key file.
    EcdsaFile,
    /// An Ed25519 key file.
    Ed25519File,
}

/// The keypair source that a keypair path names: a path with `/tpm` names
/// a TPM device, one with `ecdsa` an ECDSA key file, any other an Ed25519
/// key file.
pub open spec fn source_of(path: Option<String>) -> KeypairSource {
    match path {
        None => KeypairSource::Random,
        Some(p) => if contains_text(p@, "/tpm"@) {
            KeypairSource::Tpm
        } else if contains_text(p@, "ecdsa"@) {
            KeypairSource::EcdsaFile
        } else {
            KeypairSource::Ed25519File
        },
    }
}

/// The keypair source for an optional keypair path.
pub fn keypair_source(path: &Option<String>) -> (r: KeypairSource)
    ensures
        r == source_of(*path),
{
    match path {
        None => KeypairSource::Random,
        Some(p) => if contains(p.as_str(), "/tpm") {
            KeypairSource::Tpm
        } else if contains(p.as_str(), "ecdsa") {
            KeypairSource::EcdsaFile
        } else {
            KeypairSource::Ed25519File
        },
    }
}

} // verus!
