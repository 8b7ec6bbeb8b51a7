//! What the traffic with the broker means to the monitor.

use crate::clock::Moment;
use crate::monitor::DrierMonitor;
use crate::reading::{reading_of, Reading};
use vstd::prelude::*;

verus! {

/// The name under which the service connects.
pub const CLIENT_ID: &'static str = "laundry-bot";

/// Seconds between two signs of life to the broker.
pub const KEEP_ALIVE_SECS: u64 = 60;

/// Requests to the broker that can wait to be sent.
pub const REQUEST_CAPACITY: usize = 10;

/// Seconds to wait before a new attempt to connect.
pub const RETRY_SECS: u64 = 5;

/// Seconds between two looks at the connection.
pub const CHECK_INTERVAL_SECS: u64 = 30;

/// Something that happened on the connection to the broker.
#[derive(Clone, Copy, Debug, PartialEq, Eq, Structural)]
pub enum MqttEvent {
    /// The topic was subscribed to.
    Subscribed,
    /// The topic could not be subscribed to.
    SubscribeFailed,
    /// A message came in: the bit pattern of the double in its payload, or none if the
    /// payload is no number.
    Published(Option<u64>),
    /// The broker accepted the connection.
    Connected,
    /// Another packet came in.
    OtherIncoming,
    /// A packet went out.
    Outgoing,
    /// The connection broke.
    ConnectionError,
}

/// How to go on after an event.
#[derive(Clone, Copy, Debug, PartialEq, Eq, Structural)]
pub enum NextStep {
    /// Wait for the next event.
    Poll,
    /// Look at the connection, take in the reading, then wait for the next event.
    Process(Reading),
    /// Drop the connection, wait, and make a new one.
    Reconnect { after_secs: u64 },
}

/// Whether the event is a sign that the broker is there.
pub open spec fn shows_connection(event: MqttEvent) -> bool {
    match event {
        MqttEvent::Subscribed => true,
        MqttEvent::Published(Some(_)) => true,
        MqttEvent::Connected => true,
        _ => false,
    }
}

/// Whether the event ends the connection.
pub open spec fn ends_connection(event: MqttEvent) -> bool {
    event == MqttEvent::SubscribeFailed || event == MqttEvent::ConnectionError
}

/// Whether the event counts as a message heard.
pub open spec fn counts_as_message(event: MqttEvent) -> bool {
    event == MqttEvent::Connected || event matches MqttEvent::Published(Some(_))
}

impl DrierMonitor {
    /// The monitor after an event.
    pub open spec fn after_event(self, event: MqttEvent, now: Moment) -> DrierMonitor {
        DrierMonitor {
            mqtt_connected: shows_connection(event) || (self.mqtt_connected && !ends_connection(
                event,
            )),
            last_mqtt_message: if counts_as_message(event) {
                now
            } else {
                self.last_mqtt_message
            },
            ..self
        }
    }

    /// Takes in an event on the connection to the broker. A message whose payload is no
    /// number changes nothing.
    pub fn on_mqtt_event(&mut self, event: MqttEvent, now: Moment) -> (next: NextStep)
        ensures
            *final(self) == old(self).after_event(event, now),
            old(self).consistent() ==> final(self).consistent(),
            next == (match event {
                MqttEvent::Published(Some(bits)) => NextStep::Process(reading_of(bits)),
                MqttEvent::SubscribeFailed => NextStep::Reconnect { after_secs: RETRY_SECS },
                MqttEvent::ConnectionError => NextStep::Reconnect { after_secs: RETRY_SECS },
                _ => NextStep::Poll,
            }),
    {
        match event {
            MqttEvent::Subscribed => {
                self.mqtt_connected = true;
                NextStep::Poll
            },
            MqttEvent::SubscribeFailed => {
                self.mqtt_connected = false;
                NextStep::Reconnect { after_secs: RETRY_SECS }
            },
            MqttEvent::Published(Some(bits)) => {
                self.last_mqtt_message = now;
                self.mqtt_connected = true;
                NextStep::Process(Reading::from_bits(bits))
            },
            MqttEvent::Published(None) => NextStep::Poll,
            MqttEvent::Connected => {
                self.mqtt_connected = true;
                self.last_mqtt_message = now;
                NextStep::Poll
            },
            MqttEvent::OtherIncoming => NextStep::Poll,
            MqttEvent::Outgoing => NextStep::Poll,
            MqttEvent::ConnectionError => {
                self.mqtt_connected = false;
                NextStep::Reconnect { after_secs: RETRY_SECS }
            },
        }
    }
}

} // verus!
