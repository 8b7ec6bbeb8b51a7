use laundry_bot::broker::{MqttEvent, NextStep};
use laundry_bot::clock::{Moment, NANOS_PER_SEC};
use laundry_bot::config::{metric_timeout_secs, parse_decimal, Config, ConfigError, Variables};
use laundry_bot::drier::DrierState;
use laundry_bot::monitor::DrierMonitor;
use laundry_bot::reading::Reading;

fn at(secs: u128) -> Moment {
    Moment { nanos: secs * NANOS_PER_SEC }
}

fn unset() -> Variables {
    Variables {
        mqtt_host: None,
        mqtt_port: None,
        mqtt_topic: None,
        discord_bot_token: None,
        discord_channel_id: None,
    }
}

#[test]
fn readings_compare_as_doubles_do() {
    let below_one = f64::from_bits(1.0f64.to_bits() - 1);
    for current in [
        0.0, -0.0, 0.45, below_one, 1.0, 1.5, 5.23, 1e300, -1.0, -5.0, 5e-324, 1e-310,
        f64::INFINITY, f64::NEG_INFINITY, f64::MAX, f64::MIN, f64::MIN_POSITIVE,
    ] {
        let expected = if current >= 1.0 {
            Reading::AtLeastThreshold
        } else {
            Reading::BelowThreshold
        };
        assert_eq!(Reading::from_bits(current.to_bits()), expected, "{}", current);
    }
    assert_eq!(Reading::from_bits(f64::NAN.to_bits()), Reading::Incomparable);
    assert_eq!(Reading::from_bits((-f64::NAN).to_bits()), Reading::Incomparable);
    assert_eq!(Reading::from_bits(u64::MAX), Reading::Incomparable);
}

#[test]
fn message_marks_the_connection_and_is_processed() {
    let mut monitor = DrierMonitor::new(false, None, false, at(0), false);
    let event = MqttEvent::Published(Some(5.0f64.to_bits()));
    assert_eq!(
        monitor.on_mqtt_event(event, at(300)),
        NextStep::Process(Reading::AtLeastThreshold)
    );
    assert!(monitor.mqtt_connected);
    assert_eq!(monitor.last_mqtt_message, at(300));
}

#[test]
fn message_restores_a_lost_connection() {
    let mut monitor = DrierMonitor::new(false, None, false, at(0), false);
    monitor.check_and_update_connection_state(at(1));
    assert_eq!(monitor.state, DrierState::NoConnection);
    monitor.on_mqtt_event(MqttEvent::Published(Some(0)), at(2));
    monitor.check_and_update_connection_state(at(3));
    assert_eq!(monitor.state, DrierState::Unknown);
}

#[test]
fn accepted_connection_restores_a_lost_one_and_keeps_it() {
    let mut monitor = DrierMonitor::new(false, None, false, at(0), true);
    monitor.process_current(Reading::AtLeastThreshold, at(1), at(1), at(1));
    monitor.check_and_update_connection_state(at(200));
    assert_eq!(monitor.state, DrierState::NoConnection);
    monitor.on_mqtt_event(MqttEvent::Connected, at(300));
    monitor.check_and_update_connection_state(at(420));
    assert_eq!(monitor.state, DrierState::On);
    assert_eq!(monitor.cycle_start_time, Some(at(1)));
    monitor.check_and_update_connection_state(at(421));
    assert_eq!(monitor.state, DrierState::NoConnection);
}

#[test]
fn outage_does_not_change_a_reading() {
    let mut monitor = DrierMonitor::new(false, None, false, at(0), true);
    monitor.process_current(Reading::BelowThreshold, at(1), at(1), at(1));
    monitor.process_current(Reading::AtLeastThreshold, at(2), at(2), at(2));
    let mut spared = monitor;
    monitor.check_and_update_connection_state(at(200));
    assert_eq!(monitor.state, DrierState::NoConnection);
    monitor.on_mqtt_event(MqttEvent::Published(Some(0)), at(300));
    monitor.check_and_update_connection_state(at(300));
    assert_eq!(
        monitor.process_current(Reading::BelowThreshold, at(300), at(300), at(300)),
        spared.process_current(Reading::BelowThreshold, at(300), at(300), at(300))
    );
    assert_eq!(monitor, spared);
}

#[test]
fn other_traffic_changes_nothing() {
    let mut monitor = DrierMonitor::new(false, None, false, at(0), false);
    let before = monitor;
    for event in [MqttEvent::Published(None), MqttEvent::OtherIncoming, MqttEvent::Outgoing] {
        assert_eq!(monitor.on_mqtt_event(event, at(9)), NextStep::Poll);
        assert_eq!(monitor, before);
    }
}

#[test]
fn connecting() {
    let mut monitor = DrierMonitor::new(false, None, false, at(0), false);
    assert_eq!(monitor.on_mqtt_event(MqttEvent::Subscribed, at(9)), NextStep::Poll);
    assert!(monitor.mqtt_connected);
    assert_eq!(monitor.last_mqtt_message, at(0));
    assert_eq!(monitor.on_mqtt_event(MqttEvent::Connected, at(10)), NextStep::Poll);
    assert_eq!(monitor.last_mqtt_message, at(10));
}

#[test]
fn broken_connection_is_made_anew() {
    for event in [MqttEvent::SubscribeFailed, MqttEvent::ConnectionError] {
        let mut monitor = DrierMonitor::new(false, None, false, at(0), true);
        assert_eq!(
            monitor.on_mqtt_event(event, at(9)),
            NextStep::Reconnect { after_secs: 5 }
        );
        assert!(!monitor.mqtt_connected);
        assert_eq!(monitor.last_mqtt_message, at(0));
    }
}

#[test]
fn starts_without_connection() {
    let started = at(1000);
    assert_eq!(started.before_timeout(), at(879));
    let mut monitor = DrierMonitor::new(false, None, false, started.before_timeout(), false);
    monitor.on_mqtt_event(MqttEvent::Subscribed, started);
    monitor.check_and_update_connection_state(started);
    assert_eq!(monitor.state, DrierState::NoConnection);
}

#[test]
fn decimals_parse_as_std_does() {
    for text in [
        "", "+", "-", "0", "-0", "7", "+7", "++7", "007", " 7", "7 ", "1_000", "12a", "٣",
        "255", "65535", "65536", "18446744073709551615", "18446744073709551616",
        "99999999999999999999999", "+18446744073709551615",
    ] {
        assert_eq!(parse_decimal(text, u64::MAX), text.parse::<u64>().ok(), "{}", text);
        assert_eq!(
            parse_decimal(text, 65535),
            text.parse::<u16>().ok().map(u64::from),
            "{}",
            text
        );
    }
}

#[test]
fn metric_timeout() {
    assert_eq!(metric_timeout_secs(None), 60);
    assert_eq!(metric_timeout_secs(Some("90".to_string())), 90);
    assert_eq!(metric_timeout_secs(Some("soon".to_string())), 60);
    assert_eq!(metric_timeout_secs(Some("-1".to_string())), 60);
}

#[test]
fn default_settings() {
    let config = Config::from_variables(unset()).unwrap();
    assert_eq!(config.mqtt_host, "localhost");
    assert_eq!(config.mqtt_port, 1883);
    assert_eq!(config.mqtt_topic, "EnergyMonitor/port14/current");
    assert_eq!(config.discord_token, None);
    assert_eq!(config.discord_channel_id, None);
}

#[test]
fn given_settings() {
    let config = Config::from_variables(Variables {
        mqtt_host: Some("mqtt.example.com".to_string()),
        mqtt_port: Some("8883".to_string()),
        mqtt_topic: Some("a/b".to_string()),
        discord_bot_token: Some("token".to_string()),
        discord_channel_id: Some("123456789".to_string()),
    })
    .unwrap();
    assert_eq!(config.mqtt_host, "mqtt.example.com");
    assert_eq!(config.mqtt_port, 8883);
    assert_eq!(config.mqtt_topic, "a/b");
    assert_eq!(config.discord_token, Some("token".to_string()));
    assert_eq!(config.discord_channel_id, Some(123456789));
}

#[test]
fn bad_settings() {
    for port in ["", "mqtt", "65536", "-1"] {
        let mut variables = unset();
        variables.mqtt_port = Some(port.to_string());
        let error = Config::from_variables(variables).unwrap_err();
        assert_eq!(error, ConfigError::InvalidMqttPort);
        assert_eq!(error.message(), "Invalid MQTT_PORT value");
    }
    let mut variables = unset();
    variables.discord_channel_id = Some("general".to_string());
    assert_eq!(Config::from_variables(variables).unwrap().discord_channel_id, None);
}
