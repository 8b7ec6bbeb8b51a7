//! What each function of the monitor comes to, by the fields that it is given and the fields
//! and actions that it gives back.
//!
//! Each law speaks of whatever a call returns. A call of a function that changes the monitor
//! is made on `monitor` and takes it from `before` to `after`. Spans are written out in
//! nanoseconds: 15, 30, 120 and 600 seconds.

use crate::broker::{
    MqttEvent, NextStep, CHECK_INTERVAL_SECS, CLIENT_ID, KEEP_ALIVE_SECS, REQUEST_CAPACITY,
    RETRY_SECS,
};
use crate::clock::Moment;
use crate::drier::{
    Action, Activity, CycleType, DrierState, Effect, GaugeUpdate, Notice, OnlineStatus, Post,
    Presence,
};
use crate::monitor::DrierMonitor;
use crate::reading::Reading;
use vstd::prelude::*;

verus! {

// Time.

/// The time between two moments is the difference of what the clock showed, and none if
/// they come in the other order.
pub proof fn law_time_between(earlier: Moment, later: Moment, duration: u128)
    requires
        call_ensures(Moment::duration_since, (later, earlier), duration),
    ensures
        earlier.nanos <= later.nanos ==> duration == later.nanos - earlier.nanos,
        earlier.nanos > later.nanos ==> duration == 0,
        earlier.nanos <= later.nanos ==> later.since(earlier) == later.nanos - earlier.nanos,
        earlier.nanos > later.nanos ==> later.since(earlier) == 0,
{
}

/// A monitor that starts from the moment before the timeout has heard nothing recently, now
/// or later. That moment lies 121 seconds back.
pub proof fn law_start_is_not_recent(
    started: Moment,
    back: Moment,
    monitor: DrierMonitor,
    now: Moment,
    recent: bool,
)
    requires
        started.nanos >= 121_000_000_000,
        call_ensures(Moment::before_timeout, (started,), back),
        monitor.last_mqtt_message == back,
        now.nanos >= started.nanos,
        call_ensures(DrierMonitor::has_recent_mqtt_update, (&monitor, now), recent),
    ensures
        back.nanos + 121_000_000_000 == started.nanos,
        !recent,
{
}

// What is concluded from what is held.

/// A new monitor knows nothing of the drier, and holds what it was given.
pub proof fn law_new_monitor(
    http: bool,
    channel_id: Option<u64>,
    shard_manager: bool,
    last_message: Moment,
    connected: bool,
    monitor: DrierMonitor,
)
    requires
        call_ensures(
            DrierMonitor::new,
            (http, channel_id, shard_manager, last_message, connected),
            monitor,
        ),
    ensures
        monitor.state == DrierState::Unknown,
        monitor.previous_state is None,
        monitor.cycle_start_time is None,
        monitor.last_cycle_end_time is None,
        monitor.last_cycle_type is None,
        monitor.current_cycle_type is None,
        !monitor.main_dry_notified,
        monitor.discord_http == http,
        monitor.discord_channel_id == channel_id,
        monitor.discord_shard_manager == shard_manager,
        monitor.last_mqtt_message == last_message,
        monitor.mqtt_connected == connected,
{
}

/// The gauge shows 0, 1, 2 and 3 for the four states, whatever else the monitor holds.
pub proof fn law_gauge_values(
    monitor: DrierMonitor,
    state: DrierState,
    value: u64,
    update: GaugeUpdate,
)
    requires
        call_ensures(DrierMonitor::state_to_value, (&monitor, &state), value),
        call_ensures(DrierMonitor::update_metrics, (&monitor, &state), update),
    ensures
        state == DrierState::Unknown <==> value == 0,
        state == DrierState::Off <==> value == 1,
        state == DrierState::On <==> value == 2,
        state == DrierState::NoConnection <==> value == 3,
        update.value == value,
        update.name@ == "drier_state"@,
{
}

/// A message is recent for 120 seconds, and the connection is what it was last known to be.
pub proof fn law_recent_message(monitor: DrierMonitor, now: Moment, recent: bool, connected: bool)
    requires
        call_ensures(DrierMonitor::has_recent_mqtt_update, (&monitor, now), recent),
        call_ensures(DrierMonitor::check_mqtt_connection, (&monitor,), connected),
    ensures
        recent <==> now.nanos <= monitor.last_mqtt_message.nanos + 120_000_000_000,
        connected == monitor.mqtt_connected,
{
}

/// The fluff window is open for 600 seconds after the end of a cycle. Without such an end it
/// is closed at every moment.
pub proof fn law_fluff_window(monitor: DrierMonitor, now: Moment, within: bool)
    requires
        call_ensures(DrierMonitor::is_within_fluff_window, (&monitor, now), within),
    ensures
        monitor.last_cycle_end_time is None ==> !within && !monitor.within_fluff_window(now),
        monitor.last_cycle_end_time matches Some(end) ==> (within <==> now.nanos <= end.nanos
            + 600_000_000_000),
        within == monitor.within_fluff_window(now),
{
}

/// A cycle of more than 30 seconds is a main dry, whatever came before it. One of 15 to 30
/// seconds is a fluff dry if a cycle has ended in the 600 seconds before. No other counts.
pub proof fn law_classification(
    monitor: DrierMonitor,
    duration: u128,
    now: Moment,
    kind: Option<CycleType>,
)
    requires
        call_ensures(DrierMonitor::classify_cycle, (&monitor, duration, now), kind),
    ensures
        duration > 30_000_000_000 ==> kind == Some(CycleType::MainDry),
        duration < 15_000_000_000 ==> kind is None,
        monitor.last_cycle_end_time is None && duration <= 30_000_000_000 ==> kind is None,
        monitor.last_cycle_end_time matches Some(end) ==> 15_000_000_000 <= duration
            <= 30_000_000_000 ==> kind == (if now.nanos <= end.nanos + 600_000_000_000 {
            Some(CycleType::FluffDry)
        } else {
            None
        }),
{
}

/// Presence is shown exactly where it can be. Idle is shown of a drier that is off, that
/// it starts up of an unknown one, and the lost connection of a lost one. A running drier
/// shows the kind of its cycle; while that is open, a main cycle once 30 seconds have
/// passed since a known start, and only that it runs before.
pub proof fn law_presence(monitor: DrierMonitor, now: Moment, shown: Option<Presence>)
    requires
        call_ensures(DrierMonitor::update_presence, (&monitor, now), shown),
    ensures
        shown is Some <==> monitor.discord_shard_manager,
        shown matches Some(presence) ==> {
            &&& presence.status == OnlineStatus::Idle <==> monitor.state == DrierState::Off
            &&& presence.status == OnlineStatus::Online <==> monitor.state != DrierState::Off
            &&& presence.activity == Activity::Initializing <==> monitor.state
                == DrierState::Unknown
            &&& presence.activity == Activity::Idle <==> monitor.state == DrierState::Off
            &&& presence.activity == Activity::NoMqttConnection <==> monitor.state
                == DrierState::NoConnection
            &&& presence.activity == Activity::FluffCycle <==> monitor.state == DrierState::On
                && monitor.current_cycle_type == Some(CycleType::FluffDry)
            &&& monitor.state == DrierState::On && monitor.current_cycle_type == Some(
                CycleType::MainDry,
            ) ==> presence.activity == Activity::MainCycle
            &&& monitor.state == DrierState::On && monitor.current_cycle_type is None
                && monitor.cycle_start_time is None ==> presence.activity == Activity::Running
            &&& monitor.cycle_start_time matches Some(start) ==> monitor.state == DrierState::On
                && monitor.current_cycle_type is None ==> presence.activity == (if now.nanos
                > start.nanos + 30_000_000_000 {
                Activity::MainCycle
            } else {
                Activity::Running
            })
        },
{
}

/// What is shown depends on the state, the kind and the start of the running cycle alone:
/// two monitors that agree on these show the same.
pub proof fn law_presence_depends_on_little(
    one: DrierMonitor,
    other: DrierMonitor,
    now: Moment,
    shown: Option<Presence>,
    shown_other: Option<Presence>,
)
    requires
        one.state == other.state,
        one.current_cycle_type == other.current_cycle_type,
        one.cycle_start_time == other.cycle_start_time,
        one.discord_shard_manager == other.discord_shard_manager,
        call_ensures(DrierMonitor::update_presence, (&one, now), shown),
        call_ensures(DrierMonitor::update_presence, (&other, now), shown_other),
    ensures
        shown == shown_other,
{
}

/// The words for each activity.
pub proof fn law_activity_names(activity: Activity, name: &'static str)
    requires
        call_ensures(Activity::name, (activity,), name),
    ensures
        name@ == (match activity {
            Activity::Initializing => "Initializing..."@,
            Activity::Idle => "Idle"@,
            Activity::MainCycle => "Main cycle"@,
            Activity::FluffCycle => "Fluff cycle"@,
            Activity::Running => "Running..."@,
            Activity::NoMqttConnection => "⚠️ No MQTT connection!"@,
        }),
{
}

/// A message becomes a post exactly if there is a client and a channel, to that channel and
/// with the words as they are.
pub proof fn law_post(monitor: DrierMonitor, message: &'static str, post: Option<Post<'static>>)
    requires
        call_ensures(DrierMonitor::send_discord_message, (&monitor, message), post),
    ensures
        !monitor.discord_http ==> post is None,
        monitor.discord_channel_id is None ==> post is None,
        monitor.discord_channel_id matches Some(id) ==> monitor.discord_http ==> post is Some
            && post->0.channel_id == id && post->0.content@ == message@,
{
}

/// The words for each notice, by the function that gives them and by the notice.
pub proof fn law_notice_words(
    monitor: DrierMonitor,
    from_running: bool,
    main_start: &'static str,
    main_end: &'static str,
    fluff: &'static str,
    idle: &'static str,
    notice: Notice,
    words: &'static str,
)
    requires
        call_ensures(DrierMonitor::get_main_dry_start_message, (&monitor,), main_start),
        call_ensures(DrierMonitor::get_main_dry_end_message, (&monitor,), main_end),
        call_ensures(DrierMonitor::get_fluff_dry_start_message, (&monitor,), fluff),
        call_ensures(DrierMonitor::get_idle_message, (&monitor, from_running), idle),
        call_ensures(DrierMonitor::notice_message, (&monitor, notice), words),
    ensures
        main_start@
            == "🔥 **Main dry cycle started!** Getting those clothes nice and toasty! 🌡️"@,
        main_end@
            == "✅ **Main dry cycle complete!** Time to fold those clothes or start a new load! 🧺"@,
        fluff@ == "💨 **Fluff dry cycle complete!** Don't forget to unload! 🧺"@,
        from_running ==> idle@
            == "✅ **Drier cycle complete!** Time to fold those clothes or start a new load! 🧺"@,
        !from_running ==> idle@
            == "😴 **The drier is IDLE** - Time to start a new load or fold! 🧺"@,
        notice == Notice::MainDryStart ==> words@ == main_start@,
        notice == Notice::MainDryEnd ==> words@ == main_end@,
        notice == Notice::FluffDry ==> words@ == fluff@,
        notice == (Notice::Idle { from_running }) ==> words@ == idle@,
{
}

// What a reading leads to.

/// A reading of one ampere or more leaves the drier on, one of less leaves it off, and one
/// that is no number leaves a running drier on and any other off. The state before is kept
/// when the state changes. The time of the message is taken over. The ways to speak, the
/// connection and the last cycle stay as they were.
pub proof fn law_reading_outcome(
    monitor: &mut DrierMonitor,
    before: DrierMonitor,
    current: Reading,
    received: Moment,
    now: Moment,
    checked: Moment,
    after: DrierMonitor,
    returned: Vec<Action>,
    actions: Seq<Action>,
)
    requires
        *monitor == before,
        *final(monitor) == after,
        returned@ == actions,
        call_ensures(
            DrierMonitor::process_current,
            (monitor, current, received, now, checked),
            returned,
        ),
    ensures
        current == Reading::AtLeastThreshold ==> after.state == DrierState::On,
        current == Reading::BelowThreshold ==> after.state == DrierState::Off,
        current == Reading::Incomparable ==> after.state == (if before.state == DrierState::On {
            DrierState::On
        } else {
            DrierState::Off
        }),
        after.state != before.state ==> after.previous_state == Some(before.state),
        after.state == before.state ==> after.previous_state == before.previous_state,
        after.last_mqtt_message == received,
        after.mqtt_connected == before.mqtt_connected,
        after.discord_http == before.discord_http,
        after.discord_channel_id == before.discord_channel_id,
        after.discord_shard_manager == before.discord_shard_manager,
        after.last_cycle_end_time == before.last_cycle_end_time,
        after.last_cycle_type == before.last_cycle_type,
{
}

/// A drier seen off that draws current starts a cycle now. If no cycle has ended in the 600
/// seconds before, it is announced at once, as a main dry. If one has, nothing is said yet.
pub proof fn law_cycle_starts(
    monitor: &mut DrierMonitor,
    before: DrierMonitor,
    received: Moment,
    now: Moment,
    checked: Moment,
    after: DrierMonitor,
    returned: Vec<Action>,
    actions: Seq<Action>,
)
    requires
        before.state == DrierState::Off,
        *monitor == before,
        *final(monitor) == after,
        returned@ == actions,
        call_ensures(
            DrierMonitor::process_current,
            (monitor, Reading::AtLeastThreshold, received, now, checked),
            returned,
        ),
    ensures
        after.cycle_start_time == Some(now),
        before.last_cycle_end_time is None ==> {
            &&& actions == seq![
                Action::SendDiscordMessage(Notice::MainDryStart),
                Action::UpdateMetrics(DrierState::On),
                Action::UpdatePresence,
            ]
            &&& after.main_dry_notified
            &&& after.current_cycle_type == Some(CycleType::MainDry)
        },
        before.last_cycle_end_time matches Some(end) ==> checked.nanos > end.nanos
            + 600_000_000_000 ==> {
            &&& actions == seq![
                Action::SendDiscordMessage(Notice::MainDryStart),
                Action::UpdateMetrics(DrierState::On),
                Action::UpdatePresence,
            ]
            &&& after.main_dry_notified
            &&& after.current_cycle_type == Some(CycleType::MainDry)
        },
        before.last_cycle_end_time matches Some(end) ==> checked.nanos <= end.nanos
            + 600_000_000_000 ==> {
            &&& actions == seq![Action::UpdateMetrics(DrierState::On), Action::UpdatePresence]
            &&& !after.main_dry_notified
            &&& after.current_cycle_type is None
        },
{
}

/// A drier of which nothing was known, or whose connection was lost, and that draws current
/// counts as started now. Nothing is said before its length is seen.
pub proof fn law_cycle_is_found_running(
    monitor: &mut DrierMonitor,
    before: DrierMonitor,
    received: Moment,
    now: Moment,
    checked: Moment,
    after: DrierMonitor,
    returned: Vec<Action>,
    actions: Seq<Action>,
)
    requires
        before.state == DrierState::Unknown || before.state == DrierState::NoConnection,
        *monitor == before,
        *final(monitor) == after,
        returned@ == actions,
        call_ensures(
            DrierMonitor::process_current,
            (monitor, Reading::AtLeastThreshold, received, now, checked),
            returned,
        ),
    ensures
        after.cycle_start_time == Some(now),
        !after.main_dry_notified,
        after.current_cycle_type is None,
        actions == seq![Action::UpdateMetrics(DrierState::On), Action::UpdatePresence],
{
}

/// A drier that is off and draws no current stays as it was, and nothing is done. One that
/// was unknown is said to be idle, one whose connection was lost is shown as off. No cycle
/// starts.
pub proof fn law_drier_is_found_off(
    monitor: &mut DrierMonitor,
    before: DrierMonitor,
    current: Reading,
    received: Moment,
    now: Moment,
    checked: Moment,
    after: DrierMonitor,
    returned: Vec<Action>,
    actions: Seq<Action>,
)
    requires
        before.state != DrierState::On,
        current != Reading::AtLeastThreshold,
        *monitor == before,
        *final(monitor) == after,
        returned@ == actions,
        call_ensures(
            DrierMonitor::process_current,
            (monitor, current, received, now, checked),
            returned,
        ),
    ensures
        after.cycle_start_time == before.cycle_start_time,
        after.main_dry_notified == before.main_dry_notified,
        before.state == DrierState::Off ==> after.current_cycle_type == before.current_cycle_type
            && actions == Seq::<Action>::empty(),
        before.state == DrierState::Unknown ==> after.current_cycle_type is None && actions == seq![
            Action::UpdateMetrics(DrierState::Off),
            Action::UpdatePresence,
            Action::SendDiscordMessage(Notice::Idle { from_running: false }),
        ],
        before.state == DrierState::NoConnection ==> after.current_cycle_type is None && actions
            == seq![Action::UpdateMetrics(DrierState::Off), Action::UpdatePresence],
{
}

/// A running cycle keeps its start. Once more than 30 seconds have passed since, it is
/// announced as a main dry unless it was, and becomes one if its kind was open. Until then,
/// or without a known start, nothing happens.
pub proof fn law_cycle_goes_on(
    monitor: &mut DrierMonitor,
    before: DrierMonitor,
    current: Reading,
    received: Moment,
    now: Moment,
    checked: Moment,
    after: DrierMonitor,
    returned: Vec<Action>,
    actions: Seq<Action>,
)
    requires
        before.state == DrierState::On,
        current != Reading::BelowThreshold,
        *monitor == before,
        *final(monitor) == after,
        returned@ == actions,
        call_ensures(
            DrierMonitor::process_current,
            (monitor, current, received, now, checked),
            returned,
        ),
    ensures
        after.cycle_start_time == before.cycle_start_time,
        before.cycle_start_time is None ==> {
            &&& actions == Seq::<Action>::empty()
            &&& after.main_dry_notified == before.main_dry_notified
            &&& after.current_cycle_type == before.current_cycle_type
        },
        before.cycle_start_time matches Some(start) ==> now.nanos <= start.nanos + 30_000_000_000
            ==> {
            &&& actions == Seq::<Action>::empty()
            &&& after.main_dry_notified == before.main_dry_notified
            &&& after.current_cycle_type == before.current_cycle_type
        },
        before.cycle_start_time matches Some(start) ==> now.nanos > start.nanos + 30_000_000_000
            ==> {
            &&& after.main_dry_notified
            &&& !before.main_dry_notified ==> after.current_cycle_type == Some(CycleType::MainDry)
                && actions == seq![
                Action::SendDiscordMessage(Notice::MainDryStart),
                Action::UpdatePresence,
            ]
            &&& before.main_dry_notified && before.current_cycle_type is None
                ==> after.current_cycle_type == Some(CycleType::MainDry) && actions == seq![
                Action::UpdatePresence,
            ]
            &&& before.main_dry_notified && before.current_cycle_type is Some
                ==> after.current_cycle_type == before.current_cycle_type && actions == Seq::<
                Action,
            >::empty()
        },
{
}

/// A running drier that draws no current any more ends its cycle. After more than 30
/// seconds it was a main dry. After 15 to 30 seconds it was a fluff dry if a cycle had ended
/// in the 600 seconds before. Only these two are announced and then noted.
pub proof fn law_cycle_ends(
    monitor: &mut DrierMonitor,
    before: DrierMonitor,
    received: Moment,
    now: Moment,
    checked: Moment,
    after: DrierMonitor,
    returned: Vec<Action>,
    actions: Seq<Action>,
)
    requires
        before.state == DrierState::On,
        *monitor == before,
        *final(monitor) == after,
        returned@ == actions,
        call_ensures(
            DrierMonitor::process_current,
            (monitor, Reading::BelowThreshold, received, now, checked),
            returned,
        ),
    ensures
        after.cycle_start_time is None,
        before.cycle_start_time is None ==> {
            &&& actions == seq![Action::UpdateMetrics(DrierState::Off), Action::UpdatePresence]
            &&& after.main_dry_notified == before.main_dry_notified
            &&& after.current_cycle_type == before.current_cycle_type
        },
        before.cycle_start_time is Some ==> after.current_cycle_type is None,
        before.cycle_start_time matches Some(start) ==> now.nanos > start.nanos + 30_000_000_000
            ==> {
            &&& actions == seq![
                Action::SendDiscordMessage(Notice::MainDryEnd),
                Action::RecordCycle(CycleType::MainDry),
                Action::UpdateMetrics(DrierState::Off),
                Action::UpdatePresence,
            ]
            &&& !after.main_dry_notified
        },
        before.cycle_start_time matches Some(start) ==> now.nanos <= start.nanos + 30_000_000_000
            ==> after.main_dry_notified == before.main_dry_notified,
        before.cycle_start_time matches Some(start) ==> now.nanos < start.nanos + 15_000_000_000
            ==> actions == seq![Action::UpdateMetrics(DrierState::Off), Action::UpdatePresence],
        before.cycle_start_time matches Some(start) ==> now.nanos <= start.nanos + 30_000_000_000
            && before.last_cycle_end_time is None ==> actions == seq![
            Action::UpdateMetrics(DrierState::Off),
            Action::UpdatePresence,
        ],
        before.cycle_start_time matches Some(start) ==> before.last_cycle_end_time matches Some(end)
            ==> start.nanos + 15_000_000_000 <= now.nanos <= start.nanos + 30_000_000_000
            ==> actions == (if checked.nanos <= end.nanos + 600_000_000_000 {
            seq![
                Action::SendDiscordMessage(Notice::FluffDry),
                Action::RecordCycle(CycleType::FluffDry),
                Action::UpdateMetrics(DrierState::Off),
                Action::UpdatePresence,
            ]
        } else {
            seq![Action::UpdateMetrics(DrierState::Off), Action::UpdatePresence]
        }),
{
}

// What a look at the connection leads to.

/// A look at the connection that finds it down goes to `NoConnection` and keeps the state
/// from before. One that finds it up comes back to that state. Any other does nothing. It
/// is up while the broker is connected and for 120 seconds after the last message.
pub proof fn law_check_outcome(
    monitor: &mut DrierMonitor,
    before: DrierMonitor,
    now: Moment,
    after: DrierMonitor,
    returned: Vec<Action>,
    actions: Seq<Action>,
)
    requires
        *monitor == before,
        *final(monitor) == after,
        returned@ == actions,
        call_ensures(
            DrierMonitor::check_and_update_connection_state,
            (monitor, now),
            returned,
        ),
    ensures
        ({
            let up = before.mqtt_connected && now.nanos <= before.last_mqtt_message.nanos
                + 120_000_000_000;
            let lost = before.state == DrierState::NoConnection;
            &&& !up && !lost ==> {
                &&& after == (DrierMonitor {
                    state: DrierState::NoConnection,
                    previous_state: Some(before.state),
                    ..before
                })
                &&& actions == seq![
                    Action::UpdateMetrics(DrierState::NoConnection),
                    Action::UpdatePresence,
                ]
            }
            &&& up && lost ==> {
                &&& before.previous_state is None ==> after.state == DrierState::Unknown
                &&& before.previous_state matches Some(state) ==> after.state == state
                &&& after == (DrierMonitor { state: after.state, previous_state: None, ..before })
                &&& actions == seq![Action::UpdateMetrics(after.state), Action::UpdatePresence]
            }
            &&& up != lost ==> after == before && actions == Seq::<Action>::empty()
        }),
{
}

/// A broker that falls silent is noticed by the first look that comes too late, and no look
/// comes later than 150 seconds after the last message if the one before it did not find
/// the connection lost.
pub proof fn law_silence_is_noticed(
    monitor: &mut DrierMonitor,
    returned: Vec<Action>,
    before: DrierMonitor,
    look: Moment,
    next_look: Moment,
    after: DrierMonitor,
)
    requires
        look.nanos <= before.last_mqtt_message.nanos + 120_000_000_000,
        next_look.nanos == look.nanos + CHECK_INTERVAL_SECS * 1_000_000_000,
        before.state != DrierState::NoConnection,
        *monitor == before,
        *final(monitor) == after,
        call_ensures(
            DrierMonitor::check_and_update_connection_state,
            (monitor, next_look),
            returned,
        ),
    ensures
        next_look.nanos > before.last_mqtt_message.nanos + 120_000_000_000 ==> after.state
            == DrierState::NoConnection,
        next_look.nanos <= before.last_mqtt_message.nanos + 150_000_000_000,
        next_look.nanos == look.nanos + 30_000_000_000,
{
}

// What an action leads to.

/// Noting a cycle sets its kind, and its end to now. No other action changes the monitor,
/// and noting has no effect outside.
pub proof fn law_noting_outcome(
    monitor: &mut DrierMonitor,
    before: DrierMonitor,
    action: Action,
    now: Moment,
    after: DrierMonitor,
    effect: Effect,
)
    requires
        *monitor == before,
        *final(monitor) == after,
        call_ensures(DrierMonitor::perform, (monitor, action, now), effect),
    ensures
        action matches Action::RecordCycle(kind) ==> {
            &&& after == (DrierMonitor {
                last_cycle_end_time: Some(now),
                last_cycle_type: Some(kind),
                ..before
            })
            &&& effect == Effect::Nothing
        },
        !(action is RecordCycle) ==> after == before,
{
}

/// A notice is posted in its words, a state goes to the gauge by its value, and the presence
/// is the one to be shown. What cannot be sent or shown has no effect.
pub proof fn law_effect_outcome(
    monitor: &mut DrierMonitor,
    before: DrierMonitor,
    action: Action,
    now: Moment,
    after: DrierMonitor,
    effect: Effect,
    words: &'static str,
    post: Option<Post<'static>>,
    update: GaugeUpdate,
    shown: Option<Presence>,
)
    requires
        *monitor == before,
        *final(monitor) == after,
        call_ensures(DrierMonitor::perform, (monitor, action, now), effect),
        action matches Action::SendDiscordMessage(notice) ==> call_ensures(
            DrierMonitor::notice_message,
            (&before, notice),
            words,
        ),
        call_ensures(DrierMonitor::send_discord_message, (&before, words), post),
        action matches Action::UpdateMetrics(state) ==> call_ensures(
            DrierMonitor::update_metrics,
            (&before, &state),
            update,
        ),
        call_ensures(DrierMonitor::update_presence, (&before, now), shown),
    ensures
        action is SendDiscordMessage ==> match post {
            Some(post) => effect matches Effect::Send(sent) && sent.channel_id == post.channel_id
                && sent.content@ == post.content@,
            None => effect == Effect::Nothing,
        },
        action is UpdateMetrics ==> (effect matches Effect::SetGauge(set) && set.value
            == update.value && set.name@ == update.name@),
        action is UpdatePresence ==> effect == (match shown {
            Some(presence) => Effect::SetPresence(presence),
            None => Effect::Nothing,
        }),
{
}

// What an event on the connection leads to.

/// A subscription, an accepted connection and a number mark the broker as connected. A
/// failed subscription and an error mark it as not. An accepted connection and a number are
/// messages heard now. Nothing else changes, and every other event changes nothing.
pub proof fn law_event_outcome(
    monitor: &mut DrierMonitor,
    before: DrierMonitor,
    event: MqttEvent,
    now: Moment,
    after: DrierMonitor,
    next: NextStep,
)
    requires
        *monitor == before,
        *final(monitor) == after,
        call_ensures(DrierMonitor::on_mqtt_event, (monitor, event, now), next),
    ensures
        event == MqttEvent::Subscribed ==> after == (DrierMonitor {
            mqtt_connected: true,
            ..before
        }),
        event == MqttEvent::Connected ==> after == (DrierMonitor {
            mqtt_connected: true,
            last_mqtt_message: now,
            ..before
        }),
        event matches MqttEvent::Published(Some(_)) ==> after == (DrierMonitor {
            mqtt_connected: true,
            last_mqtt_message: now,
            ..before
        }),
        event == MqttEvent::SubscribeFailed ==> after == (DrierMonitor {
            mqtt_connected: false,
            ..before
        }),
        event == MqttEvent::ConnectionError ==> after == (DrierMonitor {
            mqtt_connected: false,
            ..before
        }),
        event == MqttEvent::Published(None) ==> after == before,
        event == MqttEvent::OtherIncoming ==> after == before,
        event == MqttEvent::Outgoing ==> after == before,
{
}

/// A failed subscription and an error call for a new connection after 5 seconds. A number is
/// processed as what it reads as. After every other event the next one is waited for.
pub proof fn law_next_step(
    monitor: &mut DrierMonitor,
    before: DrierMonitor,
    event: MqttEvent,
    now: Moment,
    after: DrierMonitor,
    next: NextStep,
)
    requires
        *monitor == before,
        *final(monitor) == after,
        call_ensures(DrierMonitor::on_mqtt_event, (monitor, event, now), next),
    ensures
        event == MqttEvent::SubscribeFailed || event == MqttEvent::ConnectionError <==> next
            is Reconnect,
        next is Reconnect ==> next == (NextStep::Reconnect { after_secs: 5 }),
        next is Process <==> event matches MqttEvent::Published(Some(_)),
        event matches MqttEvent::Published(Some(bits)) ==> {
            &&& next == NextStep::Process(Reading::AtLeastThreshold) <==> 0x3FF0_0000_0000_0000
                <= bits <= 0x7FF0_0000_0000_0000
            &&& next == NextStep::Process(Reading::Incomparable) <==> (0x7FF0_0000_0000_0000 < bits
                < 0x8000_0000_0000_0000 || 0xFFF0_0000_0000_0000 < bits)
        },
        event == MqttEvent::Subscribed || event == MqttEvent::Connected || event
            == MqttEvent::Published(None) || event == MqttEvent::OtherIncoming || event
            == MqttEvent::Outgoing ==> next == NextStep::Poll,
{
    if let MqttEvent::Published(Some(bits)) = event {
        crate::reading_laws::law_judgement(bits, bits);
    }
}

/// How the service connects: by this name, with a sign of life each minute, ten requests
/// that can wait, and a new attempt after five seconds.
pub proof fn law_connection_settings()
    ensures
        CLIENT_ID@ == "laundry-bot"@,
        KEEP_ALIVE_SECS == 60,
        REQUEST_CAPACITY == 10,
        RETRY_SECS == 5,
        CHECK_INTERVAL_SECS == 30,
{
}

} // verus!
