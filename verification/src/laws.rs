//! What holds of the monitor as a whole, beyond what each of its functions promises.

use crate::broker::{counts_as_message, ends_connection, MqttEvent};
use crate::clock::{
    Moment, FLUFF_DRY_MAX_DURATION, FLUFF_DRY_MIN_DURATION, FLUFF_WINDOW, MAIN_DRY_THRESHOLD,
    NANOS_PER_SEC, PRESENCE_TIMEOUT,
};
use crate::drier::{Action, Activity, CycleType, DrierState, Notice, OnlineStatus};
use crate::monitor::DrierMonitor;
use crate::reading::Reading;
use vstd::prelude::*;

verus! {

/// A cycle is a main dry exactly when it lasted longer than the threshold, and a fluff dry
/// exactly when its length lies between the two bounds and a cycle has ended within the
/// window. Every other cycle does not count.
pub proof fn law_cycle_kinds(monitor: DrierMonitor, duration: int, now: Moment)
    ensures
        monitor.cycle_kind(duration, now) == Some(CycleType::MainDry) <==> duration
            > MAIN_DRY_THRESHOLD,
        monitor.cycle_kind(duration, now) == Some(CycleType::FluffDry) <==> (
        FLUFF_DRY_MIN_DURATION <= duration <= FLUFF_DRY_MAX_DURATION
            && monitor.last_cycle_end_time is Some && now.since(monitor.last_cycle_end_time->0)
            <= FLUFF_WINDOW),
        monitor.cycle_kind(duration, now) is None <==> (duration <= MAIN_DRY_THRESHOLD && (duration
            < FLUFF_DRY_MIN_DURATION || monitor.last_cycle_end_time is None || now.since(
            monitor.last_cycle_end_time->0,
        ) > FLUFF_WINDOW)),
{
}

/// A reading settles whether the drier is on or off, whatever was known before.
pub proof fn law_reading_settles_state(
    monitor: DrierMonitor,
    current: Reading,
    received: Moment,
    now: Moment,
    checked: Moment,
)
    ensures
        ({
            let after = monitor.after_reading(current, received, now, checked);
            &&& after.state == DrierState::On || after.state == DrierState::Off
            &&& current == Reading::AtLeastThreshold ==> after.state == DrierState::On
            &&& current == Reading::BelowThreshold ==> after.state == DrierState::Off
            &&& current == Reading::Incomparable ==> (after.state == DrierState::On
                <==> monitor.state == DrierState::On)
        }),
{
}

/// The gauge is set exactly when the state changes, once, and to the new state.
pub proof fn law_gauge_follows_state(
    monitor: DrierMonitor,
    current: Reading,
    received: Moment,
    now: Moment,
    checked: Moment,
    state: DrierState,
)
    ensures
        monitor.reading_actions(current, now, checked).contains(Action::UpdateMetrics(state)) <==> (
        state == monitor.after_reading(current, received, now, checked).state && state
            != monitor.state),
        monitor.reading_actions(current, now, checked).no_duplicates(),
        monitor.consistent() ==> (monitor.check_actions(now).contains(Action::UpdateMetrics(state))
            <==> (state == monitor.after_check(now).state && state != monitor.state)),
        monitor.check_actions(now).no_duplicates(),
{
    let actions = monitor.reading_actions(current, now, checked);
    let shown = monitor.display_actions(current, now);
    let before = monitor.cycle_actions(current, now, checked).len() as int;
    if shown.len() == 2 {
        assert(actions[before] == Action::UpdateMetrics(monitor.state_after(current)));
    }
    if monitor.check_actions(now).len() == 2 {
        assert(monitor.check_actions(now)[0] == Action::UpdateMetrics(
            monitor.after_check(now).state,
        ));
    }
}

/// Different states show different values on the gauge.
pub proof fn law_gauge_tells_states_apart(one: DrierState, other: DrierState)
    ensures
        DrierMonitor::gauge_value(one) == DrierMonitor::gauge_value(other) <==> one == other,
{
}

/// The presence is shown anew whenever the state or the kind of the running cycle changes.
pub proof fn law_presence_follows_changes(
    monitor: DrierMonitor,
    current: Reading,
    received: Moment,
    now: Moment,
    checked: Moment,
)
    requires
        monitor.consistent(),
    ensures
        ({
            let after = monitor.after_reading(current, received, now, checked);
            monitor.reading_actions(current, now, checked).contains(Action::UpdatePresence) <==> (
            after.state != monitor.state || after.current_cycle_type != monitor.current_cycle_type)
        }),
        monitor.check_actions(now).contains(Action::UpdatePresence) <==> monitor.after_check(
            now,
        ).state != monitor.state,
{
    let actions = monitor.reading_actions(current, now, checked);
    let shown = monitor.display_actions(current, now);
    let before = monitor.cycle_actions(current, now, checked).len() as int;
    if shown.len() > 0 {
        assert(actions[before + shown.len() - 1] == Action::UpdatePresence);
    }
    if monitor.check_actions(now).len() == 2 {
        assert(monitor.check_actions(now)[1] == Action::UpdatePresence);
    }
}

/// A drier that is off is shown as idle, and nothing else is.
pub proof fn law_idle_presence(monitor: DrierMonitor, now: Moment)
    ensures
        monitor.presence(now).status == OnlineStatus::Idle <==> monitor.state == DrierState::Off,
        monitor.presence(now).activity == Activity::Idle <==> monitor.state == DrierState::Off,
        monitor.presence(now).activity == Activity::NoMqttConnection <==> monitor.state
            == DrierState::NoConnection,
{
}

/// A fluff cycle is never shown as such while it runs: what a cycle was is known only when
/// it is over.
pub proof fn law_fluff_cycle_is_not_shown(monitor: DrierMonitor, now: Moment)
    requires
        monitor.consistent(),
    ensures
        monitor.presence(now).activity != Activity::FluffCycle,
{
}

/// A drier that was off and starts outside the fluff window is announced at once.
/// Inside the window the announcement waits.
pub proof fn law_start_outside_window_is_announced(
    monitor: DrierMonitor,
    received: Moment,
    now: Moment,
    checked: Moment,
)
    requires
        monitor.state == DrierState::Off,
    ensures
        ({
            let after = monitor.after_reading(Reading::AtLeastThreshold, received, now, checked);
            let actions = monitor.reading_actions(Reading::AtLeastThreshold, now, checked);
            let announced = Action::SendDiscordMessage(Notice::MainDryStart);
            &&& after.cycle_start_time == Some(now)
            &&& actions.contains(announced) <==> !monitor.within_fluff_window(checked)
            &&& after.main_dry_notified == actions.contains(announced)
        }),
{
    let actions = monitor.reading_actions(Reading::AtLeastThreshold, now, checked);
    if !monitor.within_fluff_window(checked) {
        assert(actions[0] == Action::SendDiscordMessage(Notice::MainDryStart));
    }
}

/// A cycle that is found running past the threshold has been announced as a main dry, with
/// this reading if not before.
pub proof fn law_long_cycle_is_announced(
    monitor: DrierMonitor,
    current: Reading,
    received: Moment,
    now: Moment,
    checked: Moment,
)
    requires
        monitor.consistent(),
        monitor.state == DrierState::On,
        current != Reading::BelowThreshold,
        now.since(monitor.cycle_start_time->0) > MAIN_DRY_THRESHOLD,
    ensures
        ({
            let after = monitor.after_reading(current, received, now, checked);
            &&& after.main_dry_notified
            &&& after.current_cycle_type == Some(CycleType::MainDry)
            &&& monitor.reading_actions(current, now, checked).contains(
                Action::SendDiscordMessage(Notice::MainDryStart),
            ) <==> !monitor.main_dry_notified
        }),
{
    let actions = monitor.reading_actions(current, now, checked);
    if !monitor.main_dry_notified {
        assert(actions[0] == Action::SendDiscordMessage(Notice::MainDryStart));
    }
}

/// Until the threshold has passed, a running cycle is left alone: a reading that finds it
/// running changes nothing but the time of the last message.
pub proof fn law_short_running_cycle_is_left_alone(
    monitor: DrierMonitor,
    current: Reading,
    received: Moment,
    now: Moment,
    checked: Moment,
)
    requires
        monitor.consistent(),
        monitor.state == DrierState::On,
        current != Reading::BelowThreshold,
        now.since(monitor.cycle_start_time->0) <= MAIN_DRY_THRESHOLD,
    ensures
        monitor.after_reading(current, received, now, checked) == (DrierMonitor {
            last_mqtt_message: received,
            ..monitor
        }),
        monitor.reading_actions(current, now, checked) == Seq::<Action>::empty(),
{
}

/// The end of a cycle is announced and noted together, as what the length of the cycle
/// makes it: a main dry, or a fluff dry.
pub proof fn law_completion_is_announced_by_kind(
    monitor: DrierMonitor,
    received: Moment,
    now: Moment,
    checked: Moment,
)
    requires
        monitor.consistent(),
        monitor.state == DrierState::On,
    ensures
        ({
            let actions = monitor.reading_actions(Reading::BelowThreshold, now, checked);
            let kind = monitor.cycle_kind(now.since(monitor.cycle_start_time->0), checked);
            &&& actions.contains(Action::SendDiscordMessage(Notice::MainDryEnd)) <==> kind == Some(
                CycleType::MainDry,
            )
            &&& actions.contains(Action::RecordCycle(CycleType::MainDry)) <==> kind == Some(
                CycleType::MainDry,
            )
            &&& actions.contains(Action::SendDiscordMessage(Notice::FluffDry)) <==> kind == Some(
                CycleType::FluffDry,
            )
            &&& actions.contains(Action::RecordCycle(CycleType::FluffDry)) <==> kind == Some(
                CycleType::FluffDry,
            )
            &&& monitor.after_reading(
                Reading::BelowThreshold,
                received,
                now,
                checked,
            ).cycle_start_time is None
        }),
{
    let actions = monitor.reading_actions(Reading::BelowThreshold, now, checked);
    let noted = monitor.cycle_actions(Reading::BelowThreshold, now, checked);
    if noted.len() == 2 {
        assert(actions[0] == noted[0]);
        assert(actions[1] == noted[1]);
    }
}

/// Every notice has its one occasion. The start of a main dry is announced when one starts
/// or is found out, an end when a cycle of that kind is completed, and that the drier is
/// idle when the first reading of all finds it off. A look at the connection announces
/// nothing.
pub proof fn law_occasions_of_notices(
    monitor: DrierMonitor,
    current: Reading,
    now: Moment,
    checked: Moment,
    notice: Notice,
)
    ensures
        monitor.reading_actions(current, now, checked).contains(Action::SendDiscordMessage(notice))
            <==> (match notice {
            Notice::MainDryStart => monitor.starts_main_dry(current, checked)
                || monitor.announces_late(current, now),
            Notice::MainDryEnd => monitor.completed_cycle(current, now, checked) == Some(
                CycleType::MainDry,
            ),
            Notice::FluffDry => monitor.completed_cycle(current, now, checked) == Some(
                CycleType::FluffDry,
            ),
            Notice::Idle { from_running } => !from_running && monitor.state == DrierState::Unknown
                && current != Reading::AtLeastThreshold,
        }),
        !monitor.check_actions(now).contains(Action::SendDiscordMessage(notice)),
{
    let actions = monitor.reading_actions(current, now, checked);
    let noted = monitor.cycle_actions(current, now, checked);
    if noted.len() > 0 {
        assert(actions[0] == noted[0]);
    }
    if monitor.idle_actions(current).len() == 1 {
        assert(actions[actions.len() - 1] == monitor.idle_actions(current)[0]);
    }
}

/// A false start is ignored: when a cycle shorter than any fluff dry ends, nothing is
/// announced and nothing noted of it.
pub proof fn law_false_start_is_ignored(
    monitor: DrierMonitor,
    received: Moment,
    now: Moment,
    checked: Moment,
    notice: Notice,
    kind: CycleType,
)
    requires
        monitor.consistent(),
        monitor.state == DrierState::On,
        now.since(monitor.cycle_start_time->0) < FLUFF_DRY_MIN_DURATION,
    ensures
        ({
            let actions = monitor.reading_actions(Reading::BelowThreshold, now, checked);
            let after = monitor.after_reading(Reading::BelowThreshold, received, now, checked);
            &&& !actions.contains(Action::SendDiscordMessage(notice))
            &&& !actions.contains(Action::RecordCycle(kind))
            &&& after.last_cycle_end_time == monitor.last_cycle_end_time
            &&& after.last_cycle_type == monitor.last_cycle_type
        }),
{
}

/// The first cycle that counts is a main dry: without a cycle before it, none is a fluff
/// dry.
pub proof fn law_first_cycle_is_no_fluff_dry(
    monitor: DrierMonitor,
    current: Reading,
    now: Moment,
    checked: Moment,
)
    requires
        monitor.last_cycle_end_time is None,
    ensures
        monitor.completed_cycle(current, now, checked) != Some(CycleType::FluffDry),
{
}

/// A cycle that was noted opens the fluff window, from its end on and for its length.
pub proof fn law_noted_cycle_opens_window(
    monitor: DrierMonitor,
    kind: CycleType,
    ended: Moment,
    now: Moment,
)
    ensures
        monitor.after_action(Action::RecordCycle(kind), ended).within_fluff_window(now)
            <==> now.nanos <= ended.nanos + FLUFF_WINDOW,
{
}

/// After a look at the connection the monitor stands at `NoConnection` exactly when the
/// broker is not connected or has been silent for too long.
pub proof fn law_no_connection_means_link_down(monitor: DrierMonitor, now: Moment)
    requires
        monitor.consistent(),
    ensures
        monitor.after_check(now).state == DrierState::NoConnection <==> (!monitor.mqtt_connected
            || now.since(monitor.last_mqtt_message) > PRESENCE_TIMEOUT),
{
}

/// A second look at the connection, with nothing heard in between, finds nothing to do.
pub proof fn law_second_check_is_idle(monitor: DrierMonitor, now: Moment)
    requires
        monitor.consistent(),
    ensures
        monitor.after_check(now).after_check(now) == monitor.after_check(now),
        monitor.after_check(now).check_actions(now) == Seq::<Action>::empty(),
{
}

/// A connection that is lost and comes back leaves no trace of the gap: the state, the
/// running cycle and the last one are as they were.
pub proof fn law_lost_connection_is_restored(
    monitor: DrierMonitor,
    lost: Moment,
    event: MqttEvent,
    heard: Moment,
    restored: Moment,
)
    requires
        monitor.state != DrierState::NoConnection,
        !monitor.link_up(lost),
        monitor.after_check(lost).after_event(event, heard).link_up(restored),
    ensures
        monitor.after_check(lost).state == DrierState::NoConnection,
        monitor.after_check(lost).after_event(event, heard).after_check(restored) == (DrierMonitor {
            previous_state: None,
            ..monitor.after_event(event, heard)
        }),
        monitor.after_event(event, heard).state == monitor.state,
{
}

/// Whatever counts as a message, be it a number or an accepted connection, brings the
/// monitor back from `NoConnection` or keeps it from going there, if the look at the
/// connection follows in time. The drier, its running cycle and its last one are then as
/// they were.
pub proof fn law_sign_of_life_restores_connection(
    monitor: DrierMonitor,
    event: MqttEvent,
    heard: Moment,
    now: Moment,
)
    requires
        monitor.consistent(),
        counts_as_message(event),
        now.since(heard) <= PRESENCE_TIMEOUT,
    ensures
        ({
            let after = monitor.after_event(event, heard).after_check(now);
            &&& after.state != DrierState::NoConnection
            &&& after.state == monitor.drier_state()
            &&& after.cycle_start_time == monitor.cycle_start_time
            &&& after.current_cycle_type == monitor.current_cycle_type
            &&& after.main_dry_notified == monitor.main_dry_notified
            &&& after.last_cycle_end_time == monitor.last_cycle_end_time
            &&& after.last_cycle_type == monitor.last_cycle_type
        }),
{
}

/// A message that holds a number brings the monitor back from `NoConnection`, if the look
/// at the connection follows in time.
pub proof fn law_message_restores_connection(
    monitor: DrierMonitor,
    bits: u64,
    heard: Moment,
    now: Moment,
)
    requires
        monitor.consistent(),
        now.since(heard) <= PRESENCE_TIMEOUT,
    ensures
        ({
            let after = monitor.after_event(MqttEvent::Published(Some(bits)), heard).after_check(
                now,
            );
            &&& after.state != DrierState::NoConnection
            &&& after.state == monitor.drier_state()
        }),
{
}

/// A reading that comes as a message, and is taken in after a look at the connection, leads
/// to what it would have led to without any outage before it: the same announcements, the
/// same cycle, the same state.
pub proof fn law_outage_does_not_change_a_reading(
    monitor: DrierMonitor,
    bits: u64,
    heard: Moment,
    looked: Moment,
    current: Reading,
    received: Moment,
    now: Moment,
    checked: Moment,
)
    requires
        monitor.consistent(),
        looked.since(heard) <= PRESENCE_TIMEOUT,
    ensures
        ({
            let found = monitor.after_event(MqttEvent::Published(Some(bits)), heard).after_check(
                looked,
            );
            let after = found.after_reading(current, received, now, checked);
            let spared = DrierMonitor { state: monitor.drier_state(), ..monitor };
            let expected = spared.after_reading(current, received, now, checked);
            &&& found.reading_actions(current, now, checked) == spared.reading_actions(
                current,
                now,
                checked,
            )
            &&& after == (DrierMonitor {
                previous_state: after.previous_state,
                mqtt_connected: true,
                ..expected
            })
        }),
{
    let found = monitor.after_event(MqttEvent::Published(Some(bits)), heard).after_check(looked);
    let spared = DrierMonitor { state: monitor.drier_state(), ..monitor };
    assert(found.cycle_actions(current, now, checked) == spared.cycle_actions(
        current,
        now,
        checked,
    ));
    assert(found.display_actions(current, now) == spared.display_actions(current, now));
}

/// A connection that ends is noticed at the next look, whatever was heard before.
pub proof fn law_ended_connection_is_noticed(
    monitor: DrierMonitor,
    event: MqttEvent,
    at: Moment,
    now: Moment,
)
    requires
        ends_connection(event),
    ensures
        monitor.after_event(event, at).after_check(now).state == DrierState::NoConnection,
        monitor.after_event(event, at).last_mqtt_message == monitor.last_mqtt_message,
{
}

/// Traffic that holds no reading and neither makes nor breaks the connection changes
/// nothing.
pub proof fn law_other_traffic_changes_nothing(monitor: DrierMonitor, event: MqttEvent, now: Moment)
    requires
        !ends_connection(event),
        !counts_as_message(event),
        event != MqttEvent::Subscribed,
    ensures
        monitor.after_event(event, now) == monitor,
{
}

/// A monitor that starts with a last message before the timeout counts as disconnected
/// until it hears something, even once the topic is subscribed to.
pub proof fn law_starts_without_connection(
    monitor: DrierMonitor,
    started: Moment,
    subscribed: Moment,
    now: Moment,
)
    requires
        monitor.state == DrierState::Unknown,
        monitor.last_mqtt_message.nanos == started.nanos - PRESENCE_TIMEOUT - NANOS_PER_SEC,
        now.nanos >= started.nanos,
    ensures
        monitor.after_check(now).state == DrierState::NoConnection,
        monitor.after_event(MqttEvent::Subscribed, subscribed).after_check(now).state
            == DrierState::NoConnection,
{
}

/// Discord is optional: what can be said to whom changes neither what the monitor makes of
/// the drier nor what it hands out to be done.
pub proof fn law_discord_is_optional(
    monitor: DrierMonitor,
    http: bool,
    channel_id: Option<u64>,
    shard_manager: bool,
    current: Reading,
    received: Moment,
    now: Moment,
    checked: Moment,
)
    ensures
        ({
            let other = DrierMonitor {
                discord_http: http,
                discord_channel_id: channel_id,
                discord_shard_manager: shard_manager,
                ..monitor
            };
            &&& other.reading_actions(current, now, checked) == monitor.reading_actions(
                current,
                now,
                checked,
            )
            &&& other.check_actions(now) == monitor.check_actions(now)
            &&& other.after_reading(current, received, now, checked) == (DrierMonitor {
                discord_http: http,
                discord_channel_id: channel_id,
                discord_shard_manager: shard_manager,
                ..monitor.after_reading(current, received, now, checked)
            })
            &&& other.after_check(now) == (DrierMonitor {
                discord_http: http,
                discord_channel_id: channel_id,
                discord_shard_manager: shard_manager,
                ..monitor.after_check(now)
            })
        }),
{
    let other = DrierMonitor {
        discord_http: http,
        discord_channel_id: channel_id,
        discord_shard_manager: shard_manager,
        ..monitor
    };
    assert(other.cycle_actions(current, now, checked) == monitor.cycle_actions(
        current,
        now,
        checked,
    ));
    assert(other.display_actions(current, now) == monitor.display_actions(current, now));
}

} // verus!
