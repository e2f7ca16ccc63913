//! Service settings: each is taken from the environment where it is set
//! there, and from its default otherwise.

use vstd::prelude::*;
use vstd::string::StrSliceExecFns;

verus! {

/// Default address of the ClickHouse server.
pub const DEFAULT_CLICKHOUSE_URL: &'static str = "http://localhost:8123";
/// Default ClickHouse database.
pub const DEFAULT_CLICKHOUSE_DB: &'static str = "clepsydra";
/// Default MQTT broker host.
pub const DEFAULT_MQTT_BROKER: &'static str = "localhost";
/// Default MQTT broker port, as written in the environment.
pub const DEFAULT_MQTT_PORT: &'static str = "1883";
/// Default MQTT topic for sensor readings.
pub const DEFAULT_MQTT_TOPIC: &'static str = "clepsydra/sensor/+";
/// Default HTTP port, as written in the environment.
pub const DEFAULT_SERVER_PORT: &'static str = "8080";
/// Default daily error threshold in seconds, as written in the environment.
pub const DEFAULT_DAILY_ERROR_THRESHOLD: &'static str = "60.0";
/// How many recent sensor readings a sensor query returns.
pub const RECENT_READINGS_LIMIT: u32 = 60;

/// The value of `s` as a string of decimal digits.
pub open spec fn digits_value(s: Seq<char>) -> int
    decreases s.len(),
{
    if s.len() == 0 {
        0
    } else {
        digits_value(s.drop_last()) * 10 + (s.last() as int - '0' as int)
    }
}

/// Whether `s` is a non-empty string of the ASCII digits `0` to `9`.
pub open spec fn all_digits(s: Seq<char>) -> bool {
    s.len() > 0 && forall|i: int| 0 <= i < s.len() ==> '0' <= #[trigger] s[i] && s[i] <= '9'
}

/// What `str::parse::<u16>` gives for `s`: an optional `+` sign followed by
/// decimal digits, with a value that fits in `u16`.
pub open spec fn parsed_u16(s: Seq<char>) -> Option<u16> {
    let digits = if s.len() > 0 && s[0] == '+' { s.drop_first() } else { s };
    if all_digits(digits) && digits_value(digits) <= u16::MAX {
        Some(digits_value(digits) as u16)
    } else {
        None
    }
}

/// A prefix of a digit string has a value no larger than the whole.
proof fn lemma_prefix_value_le(s: Seq<char>, k: int)
    requires
        all_digits(s),
        0 <= k <= s.len(),
    ensures
        digits_value(s.subrange(0, k)) <= digits_value(s),
    decreases s.len() - k,
{
    if k < s.len() {
        let longer = s.subrange(0, k + 1);
        assert(longer.drop_last() =~= s.subrange(0, k));
        assert('0' <= s[k] && s[k] <= '9');
        assert(digits_value(longer) == digits_value(s.subrange(0, k)) * 10 + (s[k] as int - '0' as int));
        lemma_value_nonneg(s.subrange(0, k));
        lemma_prefix_value_le(s, k + 1);
    } else {
        assert(s.subrange(0, k) =~= s);
    }
}

/// The value of a digit string is never negative.
proof fn lemma_value_nonneg(s: Seq<char>)
    requires
        forall|i: int| 0 <= i < s.len() ==> '0' <= #[trigger] s[i],
    ensures
        digits_value(s) >= 0,
    decreases s.len(),
{
    if s.len() > 0 {
        lemma_value_nonneg(s.drop_last());
    }
}

/// Parses a port number as `str::parse::<u16>` does: an optional `+` sign
/// followed by ASCII decimal digits, with a value that fits in `u16`.
pub fn parse_u16(s: &str) -> (value: Option<u16>)
    ensures
        value == parsed_u16(s@),
{
    let n = s.unicode_len();
    let start: usize = if n > 0 && s.get_char(0) == '+' { 1 } else { 0 };
    let ghost digits = if s@.len() > 0 && s@[0] == '+' { s@.drop_first() } else { s@ };
    assert(digits =~= s@.subrange(start as int, s@.len() as int));
    if start >= n {
        return None;
    }
    let mut acc: u32 = 0;
    let mut i: usize = start;
    while i < n
        invariant
            n == s@.len(),
            start <= i <= n,
            start < n,
            digits == s@.subrange(start as int, n as int),
            digits == (if s@.len() > 0 && s@[0] == '+' { s@.drop_first() } else { s@ }),
            forall|j: int| 0 <= j < i - start ==> '0' <= #[trigger] digits[j] && digits[j] <= '9',
            acc == digits_value(digits.subrange(0, i - start)),
            acc <= 65535,
        decreases n - i,
    {
        let c = s.get_char(i);
        assert(c == digits[i - start]);
        if !('0' <= c && c <= '9') {
            assert(!all_digits(digits));
            return None;
        }
        let d: u32 = (c as u32) - ('0' as u32);
        let next: u32 = acc * 10 + d;
        proof {
            let prefix = digits.subrange(0, i - start + 1);
            assert(prefix.drop_last() =~= digits.subrange(0, i - start));
            assert(next == digits_value(prefix));
        }
        if next > 65535 {
            proof {
                if all_digits(digits) {
                    lemma_prefix_value_le(digits, i - start + 1);
                }
            }
            return None;
        }
        acc = next;
        i = i + 1;
    }
    assert(digits.subrange(0, n - start) =~= digits);
    Some(acc as u16)
}

/// Whether every character of `s` is one of the ten ASCII digits, code
/// points 48 (`0`) to 57 (`9`).
pub open spec fn ascii_digit_codes(s: Seq<char>) -> bool {
    forall|i: int| 0 <= i < s.len() ==> 48 <= #[trigger] (s[i] as int) <= 57
}

/// The decimal text of `n`, most significant digit first, without sign or
/// leading zeros.
pub open spec fn decimal_text(n: nat) -> Seq<char>
    decreases n,
{
    if n < 10 {
        seq![(48 + n) as char]
    } else {
        decimal_text(n / 10).push((48 + n % 10) as char)
    }
}

/// The decimal text of `n` is made of digits and has the value `n`.
proof fn lemma_decimal_text(n: nat)
    ensures
        decimal_text(n).len() > 0,
        ascii_digit_codes(decimal_text(n)),
        digits_value(decimal_text(n)) == n,
    decreases n,
{
    if n >= 10 {
        lemma_decimal_text(n / 10);
        let t = decimal_text(n);
        assert(t.drop_last() =~= decimal_text(n / 10));
        assert forall|i: int| 0 <= i < t.len() implies 48 <= #[trigger] (t[i] as int) <= 57 by {
            if i < t.len() - 1 {
                assert(t[i] == decimal_text(n / 10)[i]);
            }
        }
    } else {
        assert(digits_value(decimal_text(n)) == digits_value(decimal_text(n).drop_last()) * 10 + n);
        assert(decimal_text(n).drop_last() =~= Seq::<char>::empty());
    }
}

/// Every non-empty string of the ten ASCII digits, `9` included, with or
/// without a leading `+`, parses to its decimal value when that fits in
/// `u16`, and is refused when it does not.
pub proof fn digit_strings_parse(s: Seq<char>)
    requires
        s.len() > 0,
        ascii_digit_codes(s),
    ensures
        digits_value(s) <= 65535 ==> parsed_u16(s) == Some(digits_value(s) as u16),
        digits_value(s) <= 65535 ==> parsed_u16(seq!['+'] + s) == Some(digits_value(s) as u16),
        digits_value(s) > 65535 ==> parsed_u16(s) is None && parsed_u16(seq!['+'] + s) is None,
{
    assert(s[0] != '+') by {
        assert(48 <= (s[0] as int));
    }
    assert((seq!['+'] + s).drop_first() =~= s);
    assert(all_digits(s));
}

/// Every port number, written in decimal (with or without a leading `+`
/// or leading zero), parses back to itself.
pub proof fn port_numbers_parse_back(n: u16)
    ensures
        parsed_u16(decimal_text(n as nat)) == Some(n),
        parsed_u16(seq!['+'] + decimal_text(n as nat)) == Some(n),
        parsed_u16(seq!['0'] + decimal_text(n as nat)) == Some(n),
{
    lemma_decimal_text(n as nat);
    digit_strings_parse(decimal_text(n as nat));
    let z = seq!['0'] + decimal_text(n as nat);
    assert forall|i: int| 0 <= i < z.len() implies 48 <= #[trigger] (z[i] as int) <= 57 by {
        if i > 0 {
            assert(z[i] == decimal_text(n as nat)[i - 1]);
        }
    }
    lemma_leading_zero(decimal_text(n as nat));
    digit_strings_parse(z);
}

/// A leading zero does not change the value of a digit string.
proof fn lemma_leading_zero(s: Seq<char>)
    ensures
        digits_value(seq!['0'] + s) == digits_value(s),
    decreases s.len(),
{
    let z = seq!['0'] + s;
    if s.len() == 0 {
        assert(z.drop_last() =~= Seq::<char>::empty());
        assert(z.last() == '0');
        assert(digits_value(z) == digits_value(z.drop_last()) * 10 + (z.last() as int - '0' as int));
        assert(digits_value(s) == 0);
    } else {
        assert(z.drop_last() =~= seq!['0'] + s.drop_last());
        assert(z.last() == s.last());
        lemma_leading_zero(s.drop_last());
        assert(digits_value(z) == digits_value(z.drop_last()) * 10 + (z.last() as int - '0' as int));
    }
}

/// A string holding any character other than the ten ASCII digits, apart
/// from one leading `+`, is refused.
pub proof fn non_digits_refused(s: Seq<char>, i: int)
    requires
        0 <= i < s.len(),
        !(48 <= (s[i] as int) <= 57),
        !(i == 0 && s[0] == '+'),
    ensures
        parsed_u16(s) is None,
{
    let digits = if s.len() > 0 && s[0] == '+' { s.drop_first() } else { s };
    if s[0] == '+' {
        assert(digits[i - 1] == s[i]);
    } else {
        assert(digits[i] == s[i]);
    }
}

/// Why the settings could not be read.
#[derive(Debug, Clone, Copy, PartialEq, Eq, Structural)]
pub enum SettingsError {
    /// `MQTT_PORT` is not a port number.
    InvalidMqttPort,
    /// `SERVER_PORT` is not a port number.
    InvalidServerPort,
}

/// The values found in the environment, where each is set.
pub struct SettingsSource {
    pub clickhouse_url: Option<String>,
    pub clickhouse_db: Option<String>,
    pub mqtt_broker: Option<String>,
    pub mqtt_port: Option<String>,
    pub mqtt_topic: Option<String>,
    pub server_port: Option<String>,
}

/// The settings the service runs with.
pub struct Settings {
    pub clickhouse_url: String,
    pub clickhouse_db: String,
    pub mqtt_broker: String,
    pub mqtt_port: u16,
    pub mqtt_topic: String,
    pub server_port: u16,
}

/// The text of a setting: its value where it is set, its default otherwise.
pub open spec fn setting_text(value: Option<String>, default: &str) -> Seq<char> {
    match value {
        Some(v) => v@,
        None => default@,
    }
}

/// A setting's value where it is set, its default otherwise.
pub fn value_or_default(value: Option<String>, default: &str) -> (text: String)
    ensures
        text@ == setting_text(value, default),
{
    match value {
        Some(v) => v,
        None => default.to_owned(),
    }
}

impl Settings {
    /// Reads the settings from the values found in the environment. The
    /// ports must be port numbers; the MQTT port is checked first.
    pub fn resolve(source: SettingsSource) -> (res: Result<Settings, SettingsError>)
        ensures
            parsed_u16(setting_text(source.mqtt_port, DEFAULT_MQTT_PORT)) is None
                ==> res == Err::<Settings, SettingsError>(SettingsError::InvalidMqttPort),
            parsed_u16(setting_text(source.mqtt_port, DEFAULT_MQTT_PORT)) is Some
                && parsed_u16(setting_text(source.server_port, DEFAULT_SERVER_PORT)) is None
                ==> res == Err::<Settings, SettingsError>(SettingsError::InvalidServerPort),
            res matches Ok(s) ==> {
                &&& Some(s.mqtt_port) == parsed_u16(setting_text(source.mqtt_port, DEFAULT_MQTT_PORT))
                &&& Some(s.server_port) == parsed_u16(setting_text(source.server_port, DEFAULT_SERVER_PORT))
                &&& s.clickhouse_url@ == setting_text(source.clickhouse_url, DEFAULT_CLICKHOUSE_URL)
                &&& s.clickhouse_db@ == setting_text(source.clickhouse_db, DEFAULT_CLICKHOUSE_DB)
                &&& s.mqtt_broker@ == setting_text(source.mqtt_broker, DEFAULT_MQTT_BROKER)
                &&& s.mqtt_topic@ == setting_text(source.mqtt_topic, DEFAULT_MQTT_TOPIC)
            },
            res is Ok <==> (parsed_u16(setting_text(source.mqtt_port, DEFAULT_MQTT_PORT)) is Some
                && parsed_u16(setting_text(source.server_port, DEFAULT_SERVER_PORT)) is Some),
    {
        let clickhouse_url = value_or_default(source.clickhouse_url, DEFAULT_CLICKHOUSE_URL);
        let clickhouse_db = value_or_default(source.clickhouse_db, DEFAULT_CLICKHOUSE_DB);
        let mqtt_broker = value_or_default(source.mqtt_broker, DEFAULT_MQTT_BROKER);
        let mqtt_port_text = value_or_default(source.mqtt_port, DEFAULT_MQTT_PORT);
        let mqtt_port = match parse_u16(mqtt_port_text.as_str()) {
            Some(p) => p,
            None => return Err(SettingsError::InvalidMqttPort),
        };
        let mqtt_topic = value_or_default(source.mqtt_topic, DEFAULT_MQTT_TOPIC);
        let server_port_text = value_or_default(source.server_port, DEFAULT_SERVER_PORT);
        let server_port = match parse_u16(server_port_text.as_str()) {
            Some(p) => p,
            None => return Err(SettingsError::InvalidServerPort),
        };
        Ok(Settings { clickhouse_url, clickhouse_db, mqtt_broker, mqtt_port, mqtt_topic, server_port })
    }
}

/// With nothing set in the environment, the ports are 1883 (MQTT) and 8080 (HTTP).
pub proof fn default_ports()
    ensures
        parsed_u16(DEFAULT_MQTT_PORT@) == Some(1883u16),
        parsed_u16(DEFAULT_SERVER_PORT@) == Some(8080u16),
{
    reveal_strlit("1883");
    reveal_strlit("8080");
    let m = DEFAULT_MQTT_PORT@;
    assert(m == "1883"@);
    assert(m.len() == 4 && m[0] == '1' && m[1] == '8' && m[2] == '8' && m[3] == '3');
    assert(digits_value(m.drop_last().drop_last().drop_last().drop_last()) == 0);
    assert(digits_value(m.drop_last().drop_last().drop_last()) == 1);
    assert(digits_value(m.drop_last().drop_last()) == 18);
    assert(digits_value(m.drop_last()) == 188);
    let s = DEFAULT_SERVER_PORT@;
    assert(s == "8080"@);
    assert(s.len() == 4 && s[0] == '8' && s[1] == '0' && s[2] == '8' && s[3] == '0');
    assert(digits_value(s.drop_last().drop_last().drop_last().drop_last()) == 0);
    assert(digits_value(s.drop_last().drop_last().drop_last()) == 8);
    assert(digits_value(s.drop_last().drop_last()) == 80);
    assert(digits_value(s.drop_last()) == 808);
}

} // verus!
