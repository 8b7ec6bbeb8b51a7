//! What holds of numbers and settings as they are read.

use crate::config::{
    decimal, digits_value, is_digit, metric_timeout_secs, parse_decimal,
    unsigned_part, Config, ConfigError, Variables,
};
use vstd::prelude::*;

verus! {

/// The character for a digit.
pub open spec fn digit_char(digit: nat) -> char {
    (0x30 + digit) as char
}

/// A number written down in decimal, without a sign and without needless zeros.
pub open spec fn numeral(number: nat) -> Seq<char>
    decreases number,
{
    if number < 10 {
        seq![digit_char(number)]
    } else {
        numeral(number / 10).push(digit_char(number % 10))
    }
}

/// A numeral is made of digits, at least one, and has the value of its number.
proof fn lemma_numeral(number: nat)
    ensures
        numeral(number).len() > 0,
        forall|i: int|
            0 <= i < numeral(number).len() ==> 0x30 <= (#[trigger] numeral(number)[i]) as int
                <= 0x39,
        digits_value(numeral(number)) == number,
        decimal(numeral(number)) == Some(number),
    decreases number,
{
    let text = numeral(number);
    if number < 10 {
        assert(text.drop_last() == Seq::<char>::empty());
        assert(digits_value(text.drop_last()) == 0);
        assert(text.last() as int == 0x30 + number);
    } else {
        lemma_numeral(number / 10);
        assert(text.drop_last() == numeral(number / 10));
        assert(text.last() as int == 0x30 + number % 10);
    }
    assert(unsigned_part(text) == text);
}

/// Zeros before a number do not change its value.
proof fn lemma_leading_zero(digits: Seq<char>)
    ensures
        digits_value(seq!['0'] + digits) == digits_value(digits),
    decreases digits.len(),
{
    let longer = seq!['0'] + digits;
    if digits.len() == 0 {
        assert(longer.drop_last() == Seq::<char>::empty());
        assert(digits_value(longer.drop_last()) == 0);
    } else {
        lemma_leading_zero(digits.drop_last());
        assert(longer.drop_last() == seq!['0'] + digits.drop_last());
        assert(longer.last() == digits.last());
    }
}

/// Reading a number gives back what was written: every number up to the bound is read from
/// its numeral, and no greater one is.
pub proof fn law_written_number_is_read(number: nat, text: &str, max: u64, value: Option<u64>)
    requires
        text@ == numeral(number),
        call_ensures(parse_decimal, (text, max), value),
    ensures
        number <= max ==> value == Some(number as u64),
        number > max ==> value is None,
{
    lemma_numeral(number);
}

/// A plus sign before a number, or a zero before its first digit, does not change it.
pub proof fn law_sign_and_zeros(
    text: &str,
    signed: &str,
    padded: &str,
    max: u64,
    value: Option<u64>,
    value_signed: Option<u64>,
    value_padded: Option<u64>,
)
    requires
        text@.len() > 0,
        text@[0] != '+',
        signed@ == seq!['+'] + text@,
        padded@ == seq!['0'] + text@,
        call_ensures(parse_decimal, (text, max), value),
        call_ensures(parse_decimal, (signed, max), value_signed),
        call_ensures(parse_decimal, (padded, max), value_padded),
    ensures
        value_signed == value,
        value_padded == value,
{
    assert(unsigned_part(signed@) == text@);
    assert(unsigned_part(text@) == text@);
    assert(unsigned_part(padded@) == padded@);
    lemma_leading_zero(text@);
    if forall|i: int| 0 <= i < text@.len() ==> is_digit(#[trigger] text@[i]) {
        assert forall|i: int| 0 <= i < padded@.len() implies is_digit(#[trigger] padded@[i]) by {
            if i > 0 {
                assert(padded@[i] == text@[i - 1]);
            }
        }
    } else {
        let i = choose|i: int| 0 <= i < text@.len() && !is_digit(#[trigger] text@[i]);
        assert(padded@[i + 1] == text@[i]);
    }
}

/// One more digit makes ten times the number and the digit.
pub proof fn law_digit_is_appended(
    text: &str,
    longer: &str,
    digit: nat,
    max: u64,
    value: Option<u64>,
    value_longer: Option<u64>,
)
    requires
        digit < 10,
        longer@ == text@.push((0x30 + digit) as char),
        call_ensures(parse_decimal, (text, max), value),
        call_ensures(parse_decimal, (longer, max), value_longer),
        value is Some,
    ensures
        10 * value->0 + digit <= max ==> value_longer == Some((10 * value->0 + digit) as u64),
        10 * value->0 + digit > max ==> value_longer is None,
{
    let digits = unsigned_part(text@);
    let digits_longer = unsigned_part(longer@);
    assert(longer@[0] == text@[0]);
    assert(digits_longer == digits.push((0x30 + digit) as char));
    assert(digits_longer.drop_last() == digits);
    assert(digits_longer.last() as int == 0x30 + digit);
    assert forall|i: int| 0 <= i < digits_longer.len() implies is_digit(
        #[trigger] digits_longer[i],
    ) by {
        if i < digits.len() {
            assert(digits_longer[i] == digits[i]);
        }
    }
    assert(decimal(longer@) == Some(digits_value(digits_longer)));
}

/// What is no number is not read: nothing, a sign alone, and any text with a character that
/// is neither a digit nor a plus sign at the very start.
pub proof fn law_other_text_is_not_read(text: &str, max: u64, value: Option<u64>, i: int)
    requires
        call_ensures(parse_decimal, (text, max), value),
        text@.len() == 0 || text@ == seq!['+'] || (0 <= i < text@.len() && !(0x30 <= text@[i] as int
            <= 0x39) && (i > 0 || text@[i] != '+')),
    ensures
        value is None,
{
    if text@.len() > 0 && text@ != seq!['+'] {
        let digits = unsigned_part(text@);
        if text@[0] == '+' {
            assert(digits[i - 1] == text@[i]);
        } else {
            assert(digits[i] == text@[i]);
        }
    }
}

/// The bound does nothing but bound: what is read under a smaller one is what is read under
/// a greater one, if it is not too great.
pub proof fn law_bound_only_bounds(
    text: &str,
    max: u64,
    greater: u64,
    value: Option<u64>,
    value_greater: Option<u64>,
)
    requires
        max <= greater,
        call_ensures(parse_decimal, (text, max), value),
        call_ensures(parse_decimal, (text, greater), value_greater),
    ensures
        value == (match value_greater {
            Some(number) => if number <= max {
                Some(number)
            } else {
                None
            },
            None => None,
        }),
{
}

/// Text is a number exactly if it has digits, and only digits, after an optional plus sign.
/// Its value is that of the digits before the last one, times ten, and the last one.
pub proof fn law_decimal(text: Seq<char>, digits: Seq<char>)
    requires
        digits == if text.len() > 0 && text[0] == '+' {
            text.skip(1)
        } else {
            text
        },
    ensures
        decimal(text) is Some <==> digits.len() > 0 && forall|i: int|
            0 <= i < digits.len() ==> 0x30 <= (#[trigger] digits[i]) as int <= 0x39,
        decimal(text) is Some && digits.len() == 1 ==> decimal(text)->0 == digits[0] as int - 0x30,
        decimal(text) is Some && digits.len() > 1 ==> decimal(digits.drop_last()) is Some
            && decimal(text)->0 == 10 * decimal(digits.drop_last())->0 + (digits.last() as int
            - 0x30),
{
    assert(digits == unsigned_part(text));
    if decimal(text) is Some {
        let shorter = digits.drop_last();
        assert forall|i: int| 0 <= i < shorter.len() implies is_digit(#[trigger] shorter[i]) by {
            assert(shorter[i] == digits[i]);
        }
        if shorter.len() > 0 {
            assert(is_digit(shorter[0]));
            assert(unsigned_part(shorter) == shorter);
        } else {
            assert(digits_value(shorter) == 0);
        }
        assert(is_digit(digits[digits.len() - 1]));
    }
}

/// The metric timeout is 60 seconds unless the variable holds a number of at most 64 bits,
/// and that number then.
pub proof fn law_metric_timeout(variable: Option<String>, number: nat, secs: u64)
    requires
        call_ensures(metric_timeout_secs, (variable,), secs),
    ensures
        variable is None ==> secs == 60,
        variable matches Some(text) ==> {
            &&& text@ == numeral(number) && number <= 0xFFFF_FFFF_FFFF_FFFF ==> secs == number
            &&& text@ == numeral(number) && number > 0xFFFF_FFFF_FFFF_FFFF ==> secs == 60
            &&& decimal(text@) is None ==> secs == 60
            &&& decimal(text@) matches Some(value) ==> value <= 0xFFFF_FFFF_FFFF_FFFF ==> secs
                == value
            &&& decimal(text@) matches Some(value) ==> value > 0xFFFF_FFFF_FFFF_FFFF ==> secs == 60
        },
{
    lemma_numeral(number);
}

/// The port is 1883 unless the variable is set. One that holds a number of at most 16 bits
/// gives that port; any other is an error. Nothing else is.
pub proof fn law_port(variables: Variables, number: nat, config: Result<Config, ConfigError>)
    requires
        call_ensures(Config::from_variables, (variables,), config),
    ensures
        config matches Err(error) ==> error == ConfigError::InvalidMqttPort,
        variables.mqtt_port is None ==> config is Ok && config->Ok_0.mqtt_port == 1883,
        variables.mqtt_port matches Some(text) ==> {
            &&& text@ == numeral(number) && number <= 0xFFFF ==> config is Ok
                && config->Ok_0.mqtt_port == number
            &&& text@ == numeral(number) && number > 0xFFFF ==> config is Err
            &&& decimal(text@) is None ==> config is Err
            &&& decimal(text@) matches Some(value) ==> value <= 0xFFFF ==> config is Ok
                && config->Ok_0.mqtt_port == value
            &&& decimal(text@) matches Some(value) ==> value > 0xFFFF ==> config is Err
        },
{
    lemma_numeral(number);
}

/// The channel is the number that the variable holds, if it holds one of at most 64 bits,
/// and none otherwise.
pub proof fn law_channel(variables: Variables, number: nat, config: Config)
    requires
        call_ensures(Config::from_variables, (variables,), Ok::<Config, ConfigError>(config)),
    ensures
        variables.discord_channel_id is None ==> config.discord_channel_id is None,
        variables.discord_channel_id matches Some(text) ==> {
            &&& text@ == numeral(number) && number <= 0xFFFF_FFFF_FFFF_FFFF
                ==> config.discord_channel_id == Some(number as u64)
            &&& text@ == numeral(number) && number > 0xFFFF_FFFF_FFFF_FFFF
                ==> config.discord_channel_id is None
            &&& decimal(text@) is None ==> config.discord_channel_id is None
            &&& decimal(text@) matches Some(value) ==> value <= 0xFFFF_FFFF_FFFF_FFFF
                ==> config.discord_channel_id == Some(value as u64)
            &&& decimal(text@) matches Some(value) ==> value > 0xFFFF_FFFF_FFFF_FFFF
                ==> config.discord_channel_id is None
        },
{
    lemma_numeral(number);
}

/// Host and topic are taken as they are where they are set, and are `localhost` and
/// `EnergyMonitor/port14/current` where not. The token is taken as it is.
pub proof fn law_texts(variables: Variables, config: Config)
    requires
        call_ensures(Config::from_variables, (variables,), Ok::<Config, ConfigError>(config)),
    ensures
        variables.mqtt_host is None ==> config.mqtt_host@ == "localhost"@,
        variables.mqtt_host matches Some(text) ==> config.mqtt_host@ == text@,
        variables.mqtt_topic is None ==> config.mqtt_topic@ == "EnergyMonitor/port14/current"@,
        variables.mqtt_topic matches Some(text) ==> config.mqtt_topic@ == text@,
        variables.discord_bot_token is None <==> config.discord_token is None,
        variables.discord_bot_token matches Some(text) ==> config.discord_token->0@ == text@,
{
}

/// Each setting comes from its own variable: where two sets of variables agree on one, so do
/// the settings.
pub proof fn law_settings_are_independent(
    one: Variables,
    other: Variables,
    config: Config,
    config_other: Config,
)
    requires
        call_ensures(Config::from_variables, (one,), Ok::<Config, ConfigError>(config)),
        call_ensures(Config::from_variables, (other,), Ok::<Config, ConfigError>(config_other)),
    ensures
        one.mqtt_host == other.mqtt_host ==> config.mqtt_host@ == config_other.mqtt_host@,
        one.mqtt_port == other.mqtt_port ==> config.mqtt_port == config_other.mqtt_port,
        one.mqtt_topic == other.mqtt_topic ==> config.mqtt_topic@ == config_other.mqtt_topic@,
        one.discord_bot_token == other.discord_bot_token ==> config.discord_token
            == config_other.discord_token,
        one.discord_channel_id == other.discord_channel_id ==> config.discord_channel_id
            == config_other.discord_channel_id,
{
}

/// The words for an invalid port.
pub proof fn law_error_words(error: ConfigError, words: &'static str)
    requires
        call_ensures(ConfigError::message, (error,), words),
    ensures
        words@ == "Invalid MQTT_PORT value"@,
{
}

} // verus!
