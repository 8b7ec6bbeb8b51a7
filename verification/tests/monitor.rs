use laundry_bot::clock::{Moment, NANOS_PER_SEC};
use laundry_bot::drier::{
    Action, Activity, CycleType, DrierState, Effect, GaugeUpdate, Notice, OnlineStatus, Post,
    Presence,
};
use laundry_bot::monitor::DrierMonitor;
use laundry_bot::reading::Reading;

const ON: Reading = Reading::AtLeastThreshold;
const OFF: Reading = Reading::BelowThreshold;
const NAN: Reading = Reading::Incomparable;

fn at(secs: u128) -> Moment {
    Moment { nanos: secs * NANOS_PER_SEC }
}

fn fresh() -> DrierMonitor {
    DrierMonitor::new(true, Some(42), true, at(0), true)
}

/// Takes in a reading at one moment and performs all that it calls for.
fn feed(monitor: &mut DrierMonitor, current: Reading, now: Moment) -> Vec<Action> {
    let actions = monitor.process_current(current, now, now, now);
    for action in &actions {
        monitor.perform(*action, now);
    }
    actions
}

fn say(notice: Notice) -> Action {
    Action::SendDiscordMessage(notice)
}

fn gauge(state: DrierState) -> Action {
    Action::UpdateMetrics(state)
}

/// A monitor that has seen a main dry end at second 100.
fn after_main_dry() -> DrierMonitor {
    let mut monitor = fresh();
    feed(&mut monitor, OFF, at(1));
    feed(&mut monitor, ON, at(10));
    feed(&mut monitor, OFF, at(100));
    monitor
}

#[test]
fn starts_unknown() {
    let monitor = fresh();
    assert_eq!(monitor.state, DrierState::Unknown);
    assert_eq!(monitor.previous_state, None);
    assert_eq!(monitor.last_cycle_type, None);
    assert!(!monitor.main_dry_notified);
}

#[test]
fn first_reading_off_says_idle() {
    let mut monitor = fresh();
    let actions = feed(&mut monitor, OFF, at(1));
    assert_eq!(
        actions,
        vec![
            gauge(DrierState::Off),
            Action::UpdatePresence,
            say(Notice::Idle { from_running: false }),
        ]
    );
    assert_eq!(monitor.previous_state, Some(DrierState::Unknown));
}

#[test]
fn first_reading_on_waits_for_the_length() {
    let mut monitor = fresh();
    let actions = feed(&mut monitor, ON, at(1));
    assert_eq!(actions, vec![gauge(DrierState::On), Action::UpdatePresence]);
    assert_eq!(monitor.cycle_start_time, Some(at(1)));
    assert_eq!(feed(&mut monitor, ON, at(31)), vec![]);
    assert_eq!(
        feed(&mut monitor, ON, at(32)),
        vec![say(Notice::MainDryStart), Action::UpdatePresence]
    );
    assert_eq!(feed(&mut monitor, ON, at(33)), vec![]);
}

#[test]
fn main_dry_is_announced_at_start_and_end() {
    let mut monitor = fresh();
    feed(&mut monitor, OFF, at(1));
    assert_eq!(
        feed(&mut monitor, ON, at(10)),
        vec![say(Notice::MainDryStart), gauge(DrierState::On), Action::UpdatePresence]
    );
    assert_eq!(monitor.current_cycle_type, Some(CycleType::MainDry));
    assert_eq!(
        feed(&mut monitor, OFF, at(41)),
        vec![
            say(Notice::MainDryEnd),
            Action::RecordCycle(CycleType::MainDry),
            gauge(DrierState::Off),
            Action::UpdatePresence,
        ]
    );
    assert_eq!(monitor.last_cycle_end_time, Some(at(41)));
    assert_eq!(monitor.last_cycle_type, Some(CycleType::MainDry));
    assert_eq!(monitor.cycle_start_time, None);
    assert!(!monitor.main_dry_notified);
}

#[test]
fn cycle_ends_when_its_end_was_announced() {
    let mut monitor = fresh();
    feed(&mut monitor, OFF, at(1));
    feed(&mut monitor, ON, at(10));
    let actions = monitor.process_current(OFF, at(50), at(50), at(50));
    assert_eq!(monitor.last_cycle_end_time, None);
    monitor.perform(actions[0], at(50));
    monitor.perform(actions[1], at(53));
    assert_eq!(monitor.last_cycle_end_time, Some(at(53)));
}

#[test]
fn fluff_dry_follows_within_the_window() {
    let mut monitor = after_main_dry();
    assert_eq!(
        feed(&mut monitor, ON, at(200)),
        vec![gauge(DrierState::On), Action::UpdatePresence]
    );
    assert_eq!(
        feed(&mut monitor, OFF, at(215)),
        vec![
            say(Notice::FluffDry),
            Action::RecordCycle(CycleType::FluffDry),
            gauge(DrierState::Off),
            Action::UpdatePresence,
        ]
    );
    assert_eq!(monitor.last_cycle_type, Some(CycleType::FluffDry));
    assert_eq!(monitor.last_cycle_end_time, Some(at(215)));
}

#[test]
fn false_start_is_ignored() {
    let mut monitor = after_main_dry();
    feed(&mut monitor, ON, at(200));
    assert_eq!(
        feed(&mut monitor, OFF, at(214)),
        vec![gauge(DrierState::Off), Action::UpdatePresence]
    );
    assert_eq!(monitor.last_cycle_end_time, Some(at(100)));
}

#[test]
fn long_cycle_in_the_window_is_announced_late_and_once() {
    let mut monitor = after_main_dry();
    feed(&mut monitor, ON, at(200));
    assert_eq!(feed(&mut monitor, ON, at(230)), vec![]);
    assert_eq!(
        feed(&mut monitor, ON, at(231)),
        vec![say(Notice::MainDryStart), Action::UpdatePresence]
    );
    assert_eq!(feed(&mut monitor, ON, at(232)), vec![]);
    assert!(monitor.main_dry_notified);
}

#[test]
fn announced_cycle_without_a_kind_gets_one() {
    let mut monitor = fresh();
    monitor.state = DrierState::On;
    monitor.cycle_start_time = Some(at(0));
    monitor.main_dry_notified = true;
    assert_eq!(feed(&mut monitor, ON, at(31)), vec![Action::UpdatePresence]);
    assert_eq!(monitor.current_cycle_type, Some(CycleType::MainDry));
}

#[test]
fn running_without_a_start_just_stops() {
    let mut monitor = fresh();
    monitor.state = DrierState::On;
    assert_eq!(feed(&mut monitor, ON, at(50)), vec![]);
    assert_eq!(
        feed(&mut monitor, OFF, at(51)),
        vec![gauge(DrierState::Off), Action::UpdatePresence]
    );
}

#[test]
fn window_ends_after_ten_minutes() {
    let monitor = after_main_dry();
    assert!(monitor.is_within_fluff_window(at(100)));
    assert!(monitor.is_within_fluff_window(at(700)));
    assert!(!monitor.is_within_fluff_window(Moment { nanos: at(700).nanos + 1 }));
    assert!(!fresh().is_within_fluff_window(at(1)));
}

#[test]
fn cycles_are_classified_by_length() {
    let monitor = after_main_dry();
    let s = NANOS_PER_SEC;
    assert_eq!(monitor.classify_cycle(30 * s + 1, at(900)), Some(CycleType::MainDry));
    assert_eq!(monitor.classify_cycle(30 * s, at(200)), Some(CycleType::FluffDry));
    assert_eq!(monitor.classify_cycle(15 * s, at(200)), Some(CycleType::FluffDry));
    assert_eq!(monitor.classify_cycle(15 * s - 1, at(200)), None);
    assert_eq!(monitor.classify_cycle(20 * s, at(900)), None);
    assert_eq!(fresh().classify_cycle(20 * s, at(1)), None);
}

#[test]
fn reading_that_is_no_number_neither_starts_nor_stops() {
    let mut monitor = fresh();
    feed(&mut monitor, NAN, at(1));
    assert_eq!(monitor.state, DrierState::Off);
    assert_eq!(feed(&mut monitor, NAN, at(2)), vec![]);
    assert_eq!(monitor.state, DrierState::Off);
    feed(&mut monitor, ON, at(3));
    assert_eq!(feed(&mut monitor, NAN, at(4)), vec![]);
    assert_eq!(monitor.state, DrierState::On);
    assert_eq!(monitor.last_mqtt_message, at(4));
}

#[test]
fn reading_without_a_look_at_the_connection_settles_the_state() {
    let mut monitor = fresh();
    monitor.state = DrierState::NoConnection;
    let mut other = monitor;
    assert_eq!(
        feed(&mut monitor, ON, at(5)),
        vec![gauge(DrierState::On), Action::UpdatePresence]
    );
    assert_eq!(monitor.previous_state, Some(DrierState::NoConnection));
    assert_eq!(monitor.cycle_start_time, Some(at(5)));
    assert_eq!(
        feed(&mut other, OFF, at(5)),
        vec![gauge(DrierState::Off), Action::UpdatePresence]
    );
}

#[test]
fn silence_loses_the_connection_and_a_message_restores_it() {
    let mut monitor = after_main_dry();
    feed(&mut monitor, ON, at(200));
    let running = monitor;
    assert_eq!(monitor.check_and_update_connection_state(at(320)), vec![]);
    assert_eq!(
        monitor.check_and_update_connection_state(at(321)),
        vec![gauge(DrierState::NoConnection), Action::UpdatePresence]
    );
    assert_eq!(monitor.check_and_update_connection_state(at(322)), vec![]);
    monitor.last_mqtt_message = at(330);
    assert_eq!(
        monitor.check_and_update_connection_state(at(330)),
        vec![gauge(DrierState::On), Action::UpdatePresence]
    );
    assert_eq!(monitor.previous_state, None);
    assert_eq!(monitor.cycle_start_time, running.cycle_start_time);
    assert_eq!(monitor.last_cycle_end_time, running.last_cycle_end_time);
}

#[test]
fn lost_connection_without_a_state_before_goes_to_unknown() {
    let mut monitor = fresh();
    monitor.state = DrierState::NoConnection;
    monitor.check_and_update_connection_state(at(1));
    assert_eq!(monitor.state, DrierState::Unknown);
}

#[test]
fn disconnect_is_noticed_at_once() {
    let mut monitor = fresh();
    monitor.mqtt_connected = false;
    assert!(!monitor.check_mqtt_connection());
    assert!(monitor.has_recent_mqtt_update(at(120)));
    assert!(!monitor.has_recent_mqtt_update(at(121)));
    monitor.check_and_update_connection_state(at(0));
    assert_eq!(monitor.state, DrierState::NoConnection);
    assert_eq!(monitor.previous_state, Some(DrierState::Unknown));
}

#[test]
fn gauge_values() {
    let monitor = fresh();
    assert_eq!(monitor.state_to_value(&DrierState::Unknown), 0);
    assert_eq!(monitor.state_to_value(&DrierState::Off), 1);
    assert_eq!(monitor.state_to_value(&DrierState::On), 2);
    assert_eq!(monitor.state_to_value(&DrierState::NoConnection), 3);
    assert_eq!(
        monitor.update_metrics(&DrierState::On),
        GaugeUpdate { name: "drier_state", value: 2 }
    );
}

#[test]
fn presence_shows_the_state() {
    let mut monitor = fresh();
    let shown = |m: &DrierMonitor, now: Moment| {
        let presence = m.update_presence(now).unwrap();
        (presence.status, presence.activity.name())
    };
    assert_eq!(shown(&monitor, at(1)), (OnlineStatus::Online, "Initializing..."));
    monitor.state = DrierState::Off;
    assert_eq!(shown(&monitor, at(1)), (OnlineStatus::Idle, "Idle"));
    monitor.state = DrierState::NoConnection;
    assert_eq!(shown(&monitor, at(1)), (OnlineStatus::Online, "⚠️ No MQTT connection!"));
    monitor.state = DrierState::On;
    assert_eq!(shown(&monitor, at(1)), (OnlineStatus::Online, "Running..."));
    monitor.cycle_start_time = Some(at(1));
    assert_eq!(shown(&monitor, at(31)), (OnlineStatus::Online, "Running..."));
    assert_eq!(shown(&monitor, at(32)), (OnlineStatus::Online, "Main cycle"));
    monitor.current_cycle_type = Some(CycleType::MainDry);
    assert_eq!(shown(&monitor, at(2)), (OnlineStatus::Online, "Main cycle"));
    monitor.current_cycle_type = Some(CycleType::FluffDry);
    assert_eq!(shown(&monitor, at(2)), (OnlineStatus::Online, "Fluff cycle"));
    monitor.discord_shard_manager = false;
    assert_eq!(monitor.update_presence(at(2)), None);
}

#[test]
fn messages() {
    let monitor = fresh();
    assert_eq!(
        monitor.get_main_dry_start_message(),
        "🔥 **Main dry cycle started!** Getting those clothes nice and toasty! 🌡️"
    );
    assert_eq!(
        monitor.get_main_dry_end_message(),
        "✅ **Main dry cycle complete!** Time to fold those clothes or start a new load! 🧺"
    );
    assert_eq!(
        monitor.get_fluff_dry_start_message(),
        "💨 **Fluff dry cycle complete!** Don't forget to unload! 🧺"
    );
    assert_eq!(
        monitor.get_idle_message(true),
        "✅ **Drier cycle complete!** Time to fold those clothes or start a new load! 🧺"
    );
    assert_eq!(
        monitor.get_idle_message(false),
        "😴 **The drier is IDLE** - Time to start a new load or fold! 🧺"
    );
}

#[test]
fn message_needs_a_client_and_a_channel() {
    let mut monitor = fresh();
    assert_eq!(
        monitor.send_discord_message("hello"),
        Some(Post { channel_id: 42, content: "hello" })
    );
    let composed = format!("{} again", "hello");
    assert_eq!(monitor.send_discord_message(&composed).unwrap().content, "hello again");
    monitor.discord_channel_id = None;
    assert_eq!(monitor.send_discord_message("hello"), None);
    monitor.discord_channel_id = Some(42);
    monitor.discord_http = false;
    assert_eq!(monitor.send_discord_message("hello"), None);
}

#[test]
fn actions_are_performed() {
    let mut monitor = fresh();
    assert_eq!(
        monitor.perform(say(Notice::FluffDry), at(1)),
        Effect::Send(Post {
            channel_id: 42,
            content: "💨 **Fluff dry cycle complete!** Don't forget to unload! 🧺",
        })
    );
    assert_eq!(
        monitor.perform(gauge(DrierState::NoConnection), at(1)),
        Effect::SetGauge(GaugeUpdate { name: "drier_state", value: 3 })
    );
    assert_eq!(
        monitor.perform(Action::UpdatePresence, at(1)),
        Effect::SetPresence(Presence {
            status: OnlineStatus::Online,
            activity: Activity::Initializing,
        })
    );
    assert_eq!(
        monitor.perform(Action::RecordCycle(CycleType::FluffDry), at(9)),
        Effect::Nothing
    );
    assert_eq!(monitor.last_cycle_end_time, Some(at(9)));
    let mut silent = DrierMonitor::new(false, None, false, at(0), true);
    assert_eq!(silent.perform(say(Notice::MainDryEnd), at(1)), Effect::Nothing);
    assert_eq!(silent.perform(Action::UpdatePresence, at(1)), Effect::Nothing);
}

#[test]
fn discord_changes_no_decision() {
    let mut speaking = fresh();
    let mut silent = DrierMonitor::new(false, None, false, at(0), true);
    for (current, secs) in [(OFF, 1), (ON, 10), (ON, 50), (OFF, 90), (ON, 100), (OFF, 120)] {
        assert_eq!(
            feed(&mut speaking, current, at(secs)),
            feed(&mut silent, current, at(secs))
        );
    }
    assert_eq!(silent.last_cycle_type, Some(CycleType::FluffDry));
}

#[test]
fn time_does_not_run_backwards() {
    assert_eq!(at(5).duration_since(at(3)), 2 * NANOS_PER_SEC);
    assert_eq!(at(3).duration_since(at(5)), 0);
}

#[test]
fn cycle_counts_through_a_lost_connection() {
    let mut monitor = after_main_dry();
    feed(&mut monitor, ON, at(200));
    monitor.mqtt_connected = false;
    monitor.check_and_update_connection_state(at(210));
    assert_eq!(monitor.state, DrierState::NoConnection);
    monitor.mqtt_connected = true;
    monitor.check_and_update_connection_state(at(218));
    let actions = feed(&mut monitor, OFF, at(220));
    assert_eq!(actions[0], say(Notice::FluffDry));
    assert_eq!(monitor.last_cycle_end_time, Some(at(220)));
}
