//! Settings, as they are read from environment variables.

use vstd::prelude::*;

verus! {

/// The broker to connect to unless `MQTT_HOST` names another.
pub const DEFAULT_MQTT_HOST: &'static str = "localhost";

/// The broker's port unless `MQTT_PORT` gives another.
pub const DEFAULT_MQTT_PORT: u16 = 1883;

/// The topic to subscribe to unless `MQTT_TOPIC` names another.
pub const DEFAULT_MQTT_TOPIC: &'static str = "EnergyMonitor/port14/current";

/// Seconds after which an idle metric is dropped unless `METRIC_TIMEOUT_SECS` says
/// otherwise.
pub const DEFAULT_METRIC_TIMEOUT_SECS: u64 = 60;

/// Whether the character is a decimal digit.
pub open spec fn is_digit(c: char) -> bool {
    '0' <= c <= '9'
}

/// The number that a sequence of decimal digits writes down.
pub open spec fn digits_value(digits: Seq<char>) -> nat
    decreases digits.len(),
{
    if digits.len() == 0 {
        0
    } else {
        (digits_value(digits.drop_last()) * 10 + (digits.last() as int - '0' as int)) as nat
    }
}

/// A decimal number without the plus sign that may stand before it.
pub open spec fn unsigned_part(text: Seq<char>) -> Seq<char> {
    if text.len() > 0 && text[0] == '+' {
        text.skip(1)
    } else {
        text
    }
}

/// The number that the text writes down, if it is one: an optional plus sign and then
/// decimal digits, at least one, and nothing else.
pub open spec fn decimal(text: Seq<char>) -> Option<nat> {
    let digits = unsigned_part(text);
    if digits.len() > 0 && (forall|i: int| 0 <= i < digits.len() ==> is_digit(#[trigger] digits[i])) {
        Some(digits_value(digits))
    } else {
        None
    }
}

/// The number that the text writes down, if it is one and does not exceed `max`.
pub open spec fn decimal_up_to(text: Seq<char>, max: nat) -> Option<nat> {
    match decimal(text) {
        Some(value) => if value <= max {
            Some(value)
        } else {
            None
        },
        None => None,
    }
}

/// More digits never make a number smaller.
proof fn lemma_digits_value_grows(digits: Seq<char>, len: int)
    requires
        0 <= len <= digits.len(),
        forall|i: int| 0 <= i < digits.len() ==> is_digit(#[trigger] digits[i]),
    ensures
        digits_value(digits.take(len)) <= digits_value(digits),
    decreases digits.len() - len,
{
    if len == digits.len() {
        assert(digits.take(len) == digits);
    } else {
        let longer = digits.take(len + 1);
        assert(longer.drop_last() == digits.take(len));
        assert(is_digit(digits[len]));
        lemma_digits_value_grows(digits, len + 1);
    }
}

/// Reads a decimal number that does not exceed `max`.
pub fn parse_decimal(text: &str, max: u64) -> (value: Option<u64>)
    ensures
        match decimal_up_to(text@, max as nat) {
            Some(number) => value == Some(number as u64),
            None => value is None,
        },
{
    let ghost digits = unsigned_part(text@);
    let ghost sign = text@.len() - digits.len();
    let mut first = true;
    let mut any = false;
    let mut value: u64 = 0;
    for c in chars: text.chars()
        invariant
            chars.seq() == text@,
            digits == unsigned_part(text@),
            sign == text@.len() - digits.len(),
            first == (chars.index() == 0),
            any == (chars.index() > sign),
            first ==> !any,
            any ==> forall|j: int| 0 <= j < chars.index() - sign ==> is_digit(#[trigger] digits[j]),
            value == (if any { digits_value(digits.take(chars.index() - sign)) } else { 0 }),
            value <= max,
    {
        if !(first && c == '+') {
            let ghost position = chars.index() - sign;
            assert(digits[position] == c);
            if c < '0' || c > '9' {
                return None;
            }
            let digit: u64 = (c as u32 - '0' as u32) as u64;
            let ghost longer = digits.take(position + 1);
            assert(longer.drop_last() == digits.take(position));
            assert(digits_value(digits.take(position)) == value);
            assert(longer.last() == c);
            assert(digits_value(longer) == value * 10 + digit);
            if value > max / 10 || digit > max - value * 10 {
                proof {
                    if decimal(text@) is Some {
                        lemma_digits_value_grows(digits, position + 1);
                    }
                }
                return None;
            }
            value = value * 10 + digit;
            any = true;
        }
        first = false;
    }
    if any {
        assert(digits.take(digits.len() as int) == digits);
        Some(value)
    } else {
        None
    }
}

/// The seconds after which an idle metric is dropped, given `METRIC_TIMEOUT_SECS`.
pub open spec fn metric_timeout(variable: Option<String>) -> int {
    match variable {
        Some(text) => match decimal_up_to(text@, u64::MAX as nat) {
            Some(secs) => secs as int,
            None => DEFAULT_METRIC_TIMEOUT_SECS as int,
        },
        None => DEFAULT_METRIC_TIMEOUT_SECS as int,
    }
}

/// The seconds after which an idle metric is dropped, given `METRIC_TIMEOUT_SECS`: the
/// default if it is not set or is no number.
pub fn metric_timeout_secs(variable: Option<String>) -> (secs: u64)
    ensures
        secs == metric_timeout(variable),
{
    match variable {
        Some(text) => match parse_decimal(text.as_str(), u64::MAX) {
            Some(secs) => secs,
            None => DEFAULT_METRIC_TIMEOUT_SECS,
        },
        None => DEFAULT_METRIC_TIMEOUT_SECS,
    }
}

/// Why the settings cannot be used.
#[derive(Clone, Copy, Debug, PartialEq, Eq, Structural)]
pub enum ConfigError {
    InvalidMqttPort,
}

impl ConfigError {
    /// The words for the error.
    pub fn message(self) -> (message: &'static str)
        ensures
            message@ == "Invalid MQTT_PORT value"@,
    {
        "Invalid MQTT_PORT value"
    }
}

/// The environment variables that are looked at, none where one is not set.
pub struct Variables {
    pub mqtt_host: Option<String>,
    pub mqtt_port: Option<String>,
    pub mqtt_topic: Option<String>,
    pub discord_bot_token: Option<String>,
    pub discord_channel_id: Option<String>,
}

/// The settings of the service.
#[derive(Debug)]
pub struct Config {
    pub mqtt_host: String,
    pub mqtt_port: u16,
    pub mqtt_topic: String,
    pub discord_token: Option<String>,
    pub discord_channel_id: Option<u64>,
}

impl Variables {
    /// The port that the variables give, if they give one.
    pub open spec fn port(self) -> Option<nat> {
        match self.mqtt_port {
            Some(text) => decimal_up_to(text@, u16::MAX as nat),
            None => Some(DEFAULT_MQTT_PORT as nat),
        }
    }

    /// The channel that the variables give, if they give one.
    pub open spec fn channel(self) -> Option<nat> {
        match self.discord_channel_id {
            Some(text) => decimal_up_to(text@, u64::MAX as nat),
            None => None,
        }
    }
}

/// The text of a variable, or the default if it is not set.
pub open spec fn text_or(variable: Option<String>, default: &str) -> Seq<char> {
    match variable {
        Some(text) => text@,
        None => default@,
    }
}

/// The text of a variable, or the default if it is not set.
fn value_or(variable: Option<String>, default: &str) -> (text: String)
    ensures
        text@ == text_or(variable, default),
{
    match variable {
        Some(text) => text,
        None => default.to_owned(),
    }
}

impl Config {
    /// The settings that the variables give. A port that is no port is an error; a channel
    /// that is no number counts as none. A channel of 0 is passed on as it is: that no
    /// channel has this id is for the caller to say.
    pub fn from_variables(variables: Variables) -> (config: Result<Config, ConfigError>)
        ensures
            config is Ok <==> variables.port() is Some,
            config matches Err(error) ==> error == ConfigError::InvalidMqttPort,
            config matches Ok(config) ==> {
                &&& config.mqtt_host@ == text_or(variables.mqtt_host, DEFAULT_MQTT_HOST)
                &&& config.mqtt_port == variables.port()->0
                &&& config.mqtt_topic@ == text_or(variables.mqtt_topic, DEFAULT_MQTT_TOPIC)
                &&& config.discord_token == variables.discord_bot_token
                &&& match variables.channel() {
                    Some(id) => config.discord_channel_id == Some(id as u64),
                    None => config.discord_channel_id is None,
                }
            },
    {
        let mqtt_port: u16 = match &variables.mqtt_port {
            Some(text) => match parse_decimal(text.as_str(), u16::MAX as u64) {
                Some(port) => port as u16,
                None => return Err(ConfigError::InvalidMqttPort),
            },
            None => DEFAULT_MQTT_PORT,
        };
        let discord_channel_id = match &variables.discord_channel_id {
            Some(text) => parse_decimal(text.as_str(), u64::MAX),
            None => None,
        };
        Ok(
            Config {
                mqtt_host: value_or(variables.mqtt_host, DEFAULT_MQTT_HOST),
                mqtt_port,
                mqtt_topic: value_or(variables.mqtt_topic, DEFAULT_MQTT_TOPIC),
                discord_token: variables.discord_bot_token,
                discord_channel_id,
            },
        )
    }
}

} // verus!
