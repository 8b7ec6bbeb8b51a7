//! The state machine that follows the drier.

use crate::clock::{
    Moment, FLUFF_DRY_MAX_DURATION, FLUFF_DRY_MIN_DURATION, FLUFF_WINDOW, MAIN_DRY_THRESHOLD,
    PRESENCE_TIMEOUT,
};
use crate::drier::{
    Action, Activity, CycleType, DrierState, Effect, GaugeUpdate, Notice, OnlineStatus, Post,
    Presence,
};
use crate::reading::Reading;
use vstd::prelude::*;

verus! {

/// Everything that is remembered of the drier, the broker and the ways to speak.
#[derive(Clone, Copy, Debug, PartialEq, Eq, Structural)]
pub struct DrierMonitor {
    pub state: DrierState,
    /// Whether messages can be sent.
    pub discord_http: bool,
    /// Where messages go.
    pub discord_channel_id: Option<u64>,
    /// Whether a presence can be shown.
    pub discord_shard_manager: bool,
    pub previous_state: Option<DrierState>,
    pub cycle_start_time: Option<Moment>,
    pub last_cycle_end_time: Option<Moment>,
    pub last_cycle_type: Option<CycleType>,
    /// The kind of the running cycle, once it is certain.
    pub current_cycle_type: Option<CycleType>,
    /// Whether the start of the running cycle has been announced.
    pub main_dry_notified: bool,
    pub last_mqtt_message: Moment,
    pub mqtt_connected: bool,
}

// What the monitor concludes from what it holds.
impl DrierMonitor {
    /// The gauge's value for a state.
    pub open spec fn gauge_value(state: DrierState) -> int {
        match state {
            DrierState::Unknown => 0,
            DrierState::Off => 1,
            DrierState::On => 2,
            DrierState::NoConnection => 3,
        }
    }

    /// Whether the broker is connected and was heard from recently enough.
    pub open spec fn link_up(self, now: Moment) -> bool {
        self.mqtt_connected && now.since(self.last_mqtt_message) <= PRESENCE_TIMEOUT
    }

    /// Whether a cycle has ended recently enough for a fluff dry to follow it.
    pub open spec fn within_fluff_window(self, now: Moment) -> bool {
        self.last_cycle_end_time matches Some(end) && now.since(end) <= FLUFF_WINDOW
    }

    /// The kind of a cycle that lasted `duration` nanoseconds and is looked at `now`.
    pub open spec fn cycle_kind(self, duration: int, now: Moment) -> Option<CycleType> {
        if duration > MAIN_DRY_THRESHOLD {
            Some(CycleType::MainDry)
        } else if FLUFF_DRY_MIN_DURATION <= duration <= FLUFF_DRY_MAX_DURATION
            && self.within_fluff_window(now) {
            Some(CycleType::FluffDry)
        } else {
            None
        }
    }

    /// Whether the running cycle has lasted longer than a fluff dry can.
    pub open spec fn runs_long(self, now: Moment) -> bool {
        self.cycle_start_time matches Some(start) && now.since(start) > MAIN_DRY_THRESHOLD
    }

    /// What is shown of the drier.
    pub open spec fn presence(self, now: Moment) -> Presence {
        match self.state {
            DrierState::Unknown => Presence {
                status: OnlineStatus::Online,
                activity: Activity::Initializing,
            },
            DrierState::Off => Presence { status: OnlineStatus::Idle, activity: Activity::Idle },
            DrierState::On => Presence {
                status: OnlineStatus::Online,
                activity: match self.current_cycle_type {
                    Some(CycleType::MainDry) => Activity::MainCycle,
                    Some(CycleType::FluffDry) => Activity::FluffCycle,
                    None => if self.runs_long(now) {
                        Activity::MainCycle
                    } else {
                        Activity::Running
                    },
                },
            },
            DrierState::NoConnection => Presence {
                status: OnlineStatus::Online,
                activity: Activity::NoMqttConnection,
            },
        }
    }
}

// What holds of every monitor that started afresh.
impl DrierMonitor {
    /// The state of the drier, also while the connection is down.
    pub open spec fn drier_state(self) -> DrierState {
        match self.previous_state {
            Some(state) if self.state == DrierState::NoConnection => state,
            _ => self.state,
        }
    }

    /// What the fields say of one another:
    /// - a lost connection leaves a state to come back to;
    /// - a running drier has a cycle that started;
    /// - only a running cycle has a kind, a running cycle is never taken for a fluff dry,
    ///   and its kind is certain exactly when its start has been announced;
    /// - the last cycle has an end exactly when it has a kind.
    pub open spec fn consistent(self) -> bool {
        &&& self.state == DrierState::NoConnection ==> self.previous_state is Some
            && self.previous_state != Some(DrierState::NoConnection)
        &&& self.drier_state() == DrierState::On ==> self.cycle_start_time is Some
        &&& self.current_cycle_type is Some ==> self.drier_state() == DrierState::On
            && self.current_cycle_type == Some(CycleType::MainDry)
        &&& self.drier_state() == DrierState::On ==> self.main_dry_notified == (
        self.current_cycle_type is Some)
        &&& self.last_cycle_end_time is Some <==> self.last_cycle_type is Some
    }
}

// What a look at the connection changes.
impl DrierMonitor {
    /// The monitor after the connection was looked at.
    pub open spec fn after_check(self, now: Moment) -> DrierMonitor {
        if !self.link_up(now) && self.state != DrierState::NoConnection {
            DrierMonitor {
                state: DrierState::NoConnection,
                previous_state: Some(self.state),
                ..self
            }
        } else if self.link_up(now) && self.state == DrierState::NoConnection {
            DrierMonitor {
                state: match self.previous_state {
                    Some(state) => state,
                    None => DrierState::Unknown,
                },
                previous_state: None,
                ..self
            }
        } else {
            self
        }
    }

    /// What is to be done about a look at the connection.
    pub open spec fn check_actions(self, now: Moment) -> Seq<Action> {
        if self.link_up(now) == (self.state == DrierState::NoConnection) {
            seq![Action::UpdateMetrics(self.after_check(now).state), Action::UpdatePresence]
        } else {
            seq![]
        }
    }
}

// What a reading changes.
impl DrierMonitor {
    /// Whether the drier counts as running after the reading. One that cannot be compared
    /// with the threshold neither starts nor stops it.
    pub open spec fn running_after(self, current: Reading) -> bool {
        match current {
            Reading::AtLeastThreshold => true,
            Reading::BelowThreshold => false,
            Reading::Incomparable => self.state == DrierState::On,
        }
    }

    /// The state after the reading.
    pub open spec fn state_after(self, current: Reading) -> DrierState {
        if self.running_after(current) {
            DrierState::On
        } else {
            DrierState::Off
        }
    }

    /// Whether the reading starts a cycle.
    pub open spec fn starts_cycle(self, current: Reading) -> bool {
        self.state != DrierState::On && self.running_after(current)
    }

    /// Whether the reading ends a cycle whose start is known.
    pub open spec fn ends_cycle(self, current: Reading) -> bool {
        self.state == DrierState::On && !self.running_after(current)
            && self.cycle_start_time is Some
    }

    /// Whether the reading starts a cycle that can only be a main dry: the drier was seen
    /// off, and no cycle has ended lately.
    pub open spec fn starts_main_dry(self, current: Reading, checked: Moment) -> bool {
        self.state == DrierState::Off && self.starts_cycle(current) && !self.within_fluff_window(
            checked,
        )
    }

    /// The kind of the cycle that the reading ends, if it ends one that counts.
    pub open spec fn completed_cycle(self, current: Reading, now: Moment, checked: Moment)
        -> Option<CycleType> {
        if self.ends_cycle(current) {
            self.cycle_kind(now.since(self.cycle_start_time->0), checked)
        } else {
            None
        }
    }

    /// Whether the reading finds the drier still running, in a cycle by now too long to be
    /// anything but a main dry.
    pub open spec fn still_runs_long(self, current: Reading, now: Moment) -> bool {
        self.state == DrierState::On && self.running_after(current) && self.runs_long(now)
    }

    /// Whether the reading calls for an announcement that was held back at the start.
    pub open spec fn announces_late(self, current: Reading, now: Moment) -> bool {
        self.still_runs_long(current, now) && !self.main_dry_notified
    }

    /// Whether the reading settles the kind of the running cycle, or has it announced.
    pub open spec fn settles_kind(self, current: Reading, now: Moment) -> bool {
        self.still_runs_long(current, now) && (!self.main_dry_notified
            || self.current_cycle_type is None)
    }

    /// The monitor after a reading. The reading was received at `received`, and the clock
    /// was then read for the cycle, at `now`, and for the fluff window, at `checked`.
    pub open spec fn after_reading(
        self,
        current: Reading,
        received: Moment,
        now: Moment,
        checked: Moment,
    ) -> DrierMonitor {
        DrierMonitor {
            state: self.state_after(current),
            previous_state: if self.state_after(current) != self.state {
                Some(self.state)
            } else {
                self.previous_state
            },
            cycle_start_time: if self.starts_cycle(current) {
                Some(now)
            } else if self.ends_cycle(current) {
                None
            } else {
                self.cycle_start_time
            },
            current_cycle_type: if self.starts_main_dry(current, checked) || self.settles_kind(
                current,
                now,
            ) {
                Some(CycleType::MainDry)
            } else if self.starts_cycle(current) || self.ends_cycle(current) || self.state
                == DrierState::Unknown || self.state == DrierState::NoConnection {
                None
            } else {
                self.current_cycle_type
            },
            main_dry_notified: if self.starts_cycle(current) {
                self.starts_main_dry(current, checked)
            } else if self.announces_late(current, now) {
                true
            } else if self.completed_cycle(current, now, checked) == Some(CycleType::MainDry) {
                false
            } else {
                self.main_dry_notified
            },
            last_mqtt_message: received,
            ..self
        }
    }

    /// What is said and noted of the cycle that the reading starts, continues or ends.
    pub open spec fn cycle_actions(self, current: Reading, now: Moment, checked: Moment) -> Seq<
        Action,
    > {
        if self.starts_main_dry(current, checked) || self.announces_late(current, now) {
            seq![Action::SendDiscordMessage(Notice::MainDryStart)]
        } else {
            match self.completed_cycle(current, now, checked) {
                Some(CycleType::MainDry) => seq![
                    Action::SendDiscordMessage(Notice::MainDryEnd),
                    Action::RecordCycle(CycleType::MainDry),
                ],
                Some(CycleType::FluffDry) => seq![
                    Action::SendDiscordMessage(Notice::FluffDry),
                    Action::RecordCycle(CycleType::FluffDry),
                ],
                None => seq![],
            }
        }
    }

    /// What is shown anew after the reading.
    pub open spec fn display_actions(self, current: Reading, now: Moment) -> Seq<Action> {
        if self.state_after(current) != self.state {
            seq![Action::UpdateMetrics(self.state_after(current)), Action::UpdatePresence]
        } else if self.settles_kind(current, now) {
            seq![Action::UpdatePresence]
        } else {
            seq![]
        }
    }

    /// What is said when the first reading of all finds the drier off.
    pub open spec fn idle_actions(self, current: Reading) -> Seq<Action> {
        if self.state == DrierState::Unknown && !self.running_after(current) {
            seq![Action::SendDiscordMessage(Notice::Idle { from_running: false })]
        } else {
            seq![]
        }
    }

    /// What is to be done about a reading, in order.
    pub open spec fn reading_actions(self, current: Reading, now: Moment, checked: Moment) -> Seq<
        Action,
    > {
        self.cycle_actions(current, now, checked) + self.display_actions(current, now)
            + self.idle_actions(current)
    }

    /// The monitor after an action was performed at `now`.
    pub open spec fn after_action(self, action: Action, now: Moment) -> DrierMonitor {
        match action {
            Action::RecordCycle(cycle_type) => DrierMonitor {
                last_cycle_end_time: Some(now),
                last_cycle_type: Some(cycle_type),
                ..self
            },
            _ => self,
        }
    }
}

impl DrierMonitor {
    /// A monitor that knows nothing of the drier yet.
    pub fn new(
        discord_http: bool,
        discord_channel_id: Option<u64>,
        discord_shard_manager: bool,
        last_mqtt_message: Moment,
        mqtt_connected: bool,
    ) -> (monitor: DrierMonitor)
        ensures
            monitor == (DrierMonitor {
                state: DrierState::Unknown,
                discord_http,
                discord_channel_id,
                discord_shard_manager,
                previous_state: None,
                cycle_start_time: None,
                last_cycle_end_time: None,
                last_cycle_type: None,
                current_cycle_type: None,
                main_dry_notified: false,
                last_mqtt_message,
                mqtt_connected,
            }),
            monitor.consistent(),
    {
        DrierMonitor {
            state: DrierState::Unknown,
            discord_http,
            discord_channel_id,
            discord_shard_manager,
            previous_state: None,
            cycle_start_time: None,
            last_cycle_end_time: None,
            last_cycle_type: None,
            current_cycle_type: None,
            main_dry_notified: false,
            last_mqtt_message,
            mqtt_connected,
        }
    }

    /// The gauge's value for a state.
    pub fn state_to_value(&self, state: &DrierState) -> (value: u64)
        ensures
            value == Self::gauge_value(*state),
    {
        match state {
            DrierState::Unknown => 0,
            DrierState::Off => 1,
            DrierState::On => 2,
            DrierState::NoConnection => 3,
        }
    }

    /// Whether the broker was last known to be connected.
    pub fn check_mqtt_connection(&self) -> (connected: bool)
        ensures
            connected == self.mqtt_connected,
    {
        self.mqtt_connected
    }

    /// Whether a message has come in recently enough.
    pub fn has_recent_mqtt_update(&self, now: Moment) -> (recent: bool)
        ensures
            recent == (now.since(self.last_mqtt_message) <= PRESENCE_TIMEOUT),
    {
        now.duration_since(self.last_mqtt_message) <= PRESENCE_TIMEOUT
    }

    /// Looks at the connection: goes to `NoConnection` when it is down, and back to the
    /// state before that when it is up again.
    pub fn check_and_update_connection_state(&mut self, now: Moment) -> (actions: Vec<Action>)
        ensures
            *final(self) == old(self).after_check(now),
            actions@ == old(self).check_actions(now),
            old(self).consistent() ==> final(self).consistent(),
    {
        let connected = self.check_mqtt_connection();
        let has_recent_update = self.has_recent_mqtt_update(now);
        let mut actions: Vec<Action> = Vec::new();
        if !connected || !has_recent_update {
            if self.state != DrierState::NoConnection {
                self.previous_state = Some(self.state);
                self.state = DrierState::NoConnection;
                actions.push(Action::UpdateMetrics(self.state));
                actions.push(Action::UpdatePresence);
            }
        } else if self.state == DrierState::NoConnection {
            self.state = match self.previous_state {
                Some(state) => state,
                None => DrierState::Unknown,
            };
            self.previous_state = None;
            actions.push(Action::UpdateMetrics(self.state));
            actions.push(Action::UpdatePresence);
        }
        actions
    }

    /// The gauge and the value it is to show for a state.
    pub fn update_metrics(&self, state: &DrierState) -> (update: GaugeUpdate)
        ensures
            update.name@ == "drier_state"@,
            update.value == Self::gauge_value(*state),
    {
        GaugeUpdate { name: "drier_state", value: self.state_to_value(state) }
    }

    /// Whether a cycle has ended recently enough for a fluff dry to follow it.
    pub fn is_within_fluff_window(&self, now: Moment) -> (within: bool)
        ensures
            within == self.within_fluff_window(now),
    {
        match self.last_cycle_end_time {
            Some(last_end) => now.duration_since(last_end) <= FLUFF_WINDOW,
            None => false,
        }
    }

    /// The kind of a cycle that lasted `duration` nanoseconds; none if it does not count.
    pub fn classify_cycle(&self, duration: u128, now: Moment) -> (cycle_type: Option<CycleType>)
        ensures
            cycle_type == self.cycle_kind(duration as int, now),
    {
        if duration > MAIN_DRY_THRESHOLD {
            Some(CycleType::MainDry)
        } else if duration >= FLUFF_DRY_MIN_DURATION && duration <= FLUFF_DRY_MAX_DURATION
            && self.is_within_fluff_window(now) {
            Some(CycleType::FluffDry)
        } else {
            None
        }
    }

    /// The words for the start of a main dry.
    pub fn get_main_dry_start_message(&self) -> (message: &'static str)
        ensures
            message@ == Notice::MainDryStart.wording(),
    {
        "🔥 **Main dry cycle started!** Getting those clothes nice and toasty! 🌡️"
    }

    /// The words for the end of a main dry.
    pub fn get_main_dry_end_message(&self) -> (message: &'static str)
        ensures
            message@ == Notice::MainDryEnd.wording(),
    {
        "✅ **Main dry cycle complete!** Time to fold those clothes or start a new load! 🧺"
    }

    /// The words for a fluff dry, which is announced when it is over.
    pub fn get_fluff_dry_start_message(&self) -> (message: &'static str)
        ensures
            message@ == Notice::FluffDry.wording(),
    {
        "💨 **Fluff dry cycle complete!** Don't forget to unload! 🧺"
    }

    /// The words for a drier that is off, with or without a cycle before.
    pub fn get_idle_message(&self, from_running: bool) -> (message: &'static str)
        ensures
            message@ == (Notice::Idle { from_running }).wording(),
    {
        if from_running {
            "✅ **Drier cycle complete!** Time to fold those clothes or start a new load! 🧺"
        } else {
            "😴 **The drier is IDLE** - Time to start a new load or fold! 🧺"
        }
    }

    /// The words for a notice.
    pub fn notice_message(&self, notice: Notice) -> (message: &'static str)
        ensures
            message@ == notice.wording(),
    {
        match notice {
            Notice::MainDryStart => self.get_main_dry_start_message(),
            Notice::MainDryEnd => self.get_main_dry_end_message(),
            Notice::FluffDry => self.get_fluff_dry_start_message(),
            Notice::Idle { from_running } => self.get_idle_message(from_running),
        }
    }

    /// The post for a message; none unless messages can be sent and have a channel.
    pub fn send_discord_message<'a>(&self, message: &'a str) -> (post: Option<Post<'a>>)
        ensures
            post is Some <==> self.discord_http && self.discord_channel_id is Some,
            post matches Some(post) ==> {
                &&& post.channel_id == self.discord_channel_id->0
                &&& post.content@ == message@
            },
    {
        if self.discord_http {
            match self.discord_channel_id {
                Some(channel_id) => Some(Post { channel_id, content: message }),
                None => None,
            }
        } else {
            None
        }
    }

    /// The presence to show; none unless one can be shown.
    pub fn update_presence(&self, now: Moment) -> (presence: Option<Presence>)
        ensures
            presence == (if self.discord_shard_manager {
                Some(self.presence(now))
            } else {
                None
            }),
    {
        if !self.discord_shard_manager {
            return None;
        }
        let (status, activity) = match self.state {
            DrierState::Unknown => (OnlineStatus::Online, Activity::Initializing),
            DrierState::Off => (OnlineStatus::Idle, Activity::Idle),
            DrierState::On => {
                let activity = match self.current_cycle_type {
                    Some(CycleType::MainDry) => Activity::MainCycle,
                    Some(CycleType::FluffDry) => Activity::FluffCycle,
                    None => match self.cycle_start_time {
                        Some(start_time) => {
                            if now.duration_since(start_time) > MAIN_DRY_THRESHOLD {
                                Activity::MainCycle
                            } else {
                                Activity::Running
                            }
                        },
                        None => Activity::Running,
                    },
                };
                (OnlineStatus::Online, activity)
            },
            DrierState::NoConnection => (OnlineStatus::Online, Activity::NoMqttConnection),
        };
        Some(Presence { status, activity })
    }

    /// Takes in a current reading that was received at `received`. The clock is read
    /// again for the running cycle, at `now`, and for the fluff window, at `checked`.
    ///
    /// The actions are to be performed in order, each with a reading of the clock of its
    /// own: a cycle has ended when its end was announced.
    pub fn process_current(
        &mut self,
        current: Reading,
        received: Moment,
        now: Moment,
        checked: Moment,
    ) -> (actions: Vec<Action>)
        ensures
            *final(self) == old(self).after_reading(current, received, now, checked),
            actions@ == old(self).reading_actions(current, now, checked),
            old(self).consistent() ==> final(self).consistent(),
    {
        let mut actions: Vec<Action> = Vec::new();
        self.last_mqtt_message = received;
        match self.state {
            DrierState::Unknown => {
                self.current_cycle_type = None;
                self.previous_state = Some(self.state);
                if current == Reading::AtLeastThreshold {
                    // The true start is not known: the cycle counts from here.
                    self.cycle_start_time = Some(now);
                    self.main_dry_notified = false;
                    self.state = DrierState::On;
                    actions.push(Action::UpdateMetrics(self.state));
                    actions.push(Action::UpdatePresence);
                } else {
                    self.state = DrierState::Off;
                    actions.push(Action::UpdateMetrics(self.state));
                    actions.push(Action::UpdatePresence);
                    actions.push(Action::SendDiscordMessage(Notice::Idle { from_running: false }));
                }
            },
            DrierState::Off => {
                if current == Reading::AtLeastThreshold {
                    self.cycle_start_time = Some(now);
                    self.current_cycle_type = None;
                    if !self.is_within_fluff_window(checked) {
                        actions.push(Action::SendDiscordMessage(Notice::MainDryStart));
                        self.main_dry_notified = true;
                        self.current_cycle_type = Some(CycleType::MainDry);
                    } else {
                        // It may be a fluff dry: its length will tell.
                        self.main_dry_notified = false;
                    }
                    self.previous_state = Some(self.state);
                    self.state = DrierState::On;
                    actions.push(Action::UpdateMetrics(self.state));
                    actions.push(Action::UpdatePresence);
                }
            },
            DrierState::On => {
                if current == Reading::BelowThreshold {
                    if let Some(start_time) = self.cycle_start_time {
                        let duration: u128 = now.duration_since(start_time);
                        match self.classify_cycle(duration, checked) {
                            Some(CycleType::MainDry) => {
                                actions.push(Action::SendDiscordMessage(Notice::MainDryEnd));
                                actions.push(Action::RecordCycle(CycleType::MainDry));
                                self.main_dry_notified = false;
                            },
                            Some(CycleType::FluffDry) => {
                                actions.push(Action::SendDiscordMessage(Notice::FluffDry));
                                actions.push(Action::RecordCycle(CycleType::FluffDry));
                            },
                            None => {},
                        }
                        self.cycle_start_time = None;
                        self.current_cycle_type = None;
                    }
                    self.previous_state = Some(self.state);
                    self.state = DrierState::Off;
                    actions.push(Action::UpdateMetrics(self.state));
                    actions.push(Action::UpdatePresence);
                } else if let Some(start_time) = self.cycle_start_time {
                    let duration: u128 = now.duration_since(start_time);
                    if duration > MAIN_DRY_THRESHOLD && !self.main_dry_notified {
                        actions.push(Action::SendDiscordMessage(Notice::MainDryStart));
                        self.main_dry_notified = true;
                        self.current_cycle_type = Some(CycleType::MainDry);
                        actions.push(Action::UpdatePresence);
                    } else if duration > MAIN_DRY_THRESHOLD && self.current_cycle_type.is_none() {
                        self.current_cycle_type = Some(CycleType::MainDry);
                        actions.push(Action::UpdatePresence);
                    }
                }
            },
            DrierState::NoConnection => {
                // The reading says more than the last look at the connection did.
                self.current_cycle_type = None;
                self.previous_state = Some(self.state);
                if current == Reading::AtLeastThreshold {
                    self.cycle_start_time = Some(now);
                    self.main_dry_notified = false;
                    self.state = DrierState::On;
                } else {
                    self.state = DrierState::Off;
                }
                actions.push(Action::UpdateMetrics(self.state));
                actions.push(Action::UpdatePresence);
            },
        }
        actions
    }

    /// Performs an action, and says what is left for the outside world to do about it.
    pub fn perform(&mut self, action: Action, now: Moment) -> (effect: Effect)
        ensures
            *final(self) == old(self).after_action(action, now),
            old(self).consistent() ==> final(self).consistent(),
            match action {
                Action::SendDiscordMessage(notice) => if old(self).discord_http && old(
                    self,
                ).discord_channel_id is Some {
                    effect matches Effect::Send(post) && post.channel_id == old(
                        self,
                    ).discord_channel_id->0 && post.content@ == notice.wording()
                } else {
                    effect == Effect::Nothing
                },
                Action::RecordCycle(_) => effect == Effect::Nothing,
                Action::UpdateMetrics(state) => effect matches Effect::SetGauge(update)
                    && update.name@ == "drier_state"@ && update.value == Self::gauge_value(state),
                Action::UpdatePresence => effect == (if old(self).discord_shard_manager {
                    Effect::SetPresence(old(self).presence(now))
                } else {
                    Effect::Nothing
                }),
            },
    {
        match action {
            Action::SendDiscordMessage(notice) => {
                let message = self.notice_message(notice);
                match self.send_discord_message(message) {
                    Some(post) => Effect::Send(post),
                    None => Effect::Nothing,
                }
            },
            Action::RecordCycle(cycle_type) => {
                self.last_cycle_end_time = Some(now);
                self.last_cycle_type = Some(cycle_type);
                Effect::Nothing
            },
            Action::UpdateMetrics(state) => Effect::SetGauge(self.update_metrics(&state)),
            Action::UpdatePresence => match self.update_presence(now) {
                Some(presence) => Effect::SetPresence(presence),
                None => Effect::Nothing,
            },
        }
    }
}

} // verus!
