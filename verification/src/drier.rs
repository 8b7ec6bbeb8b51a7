//! The vocabulary of the monitor: states, cycles, what is announced and what is shown.

use vstd::prelude::*;

verus! {

/// The kinds of cycle that are told apart.
#[derive(Clone, Copy, Debug, PartialEq, Eq, Structural)]
pub enum CycleType {
    MainDry,
    FluffDry,
}

/// What is known of the drier.
#[derive(Clone, Copy, Debug, PartialEq, Eq, Structural)]
pub enum DrierState {
    /// Nothing yet: the next reading settles it.
    Unknown,
    /// The drier draws less than one ampere.
    Off,
    /// The drier draws one ampere or more.
    On,
    /// No connection to the broker, or no message for too long.
    NoConnection,
}

/// What the channel can be told.
#[derive(Clone, Copy, Debug, PartialEq, Eq, Structural)]
pub enum Notice {
    MainDryStart,
    MainDryEnd,
    FluffDry,
    Idle { from_running: bool },
}

impl Notice {
    /// The words of the notice.
    pub open spec fn wording(self) -> Seq<char> {
        match self {
            Notice::MainDryStart =>
                "🔥 **Main dry cycle started!** Getting those clothes nice and toasty! 🌡️"@,
            Notice::MainDryEnd =>
                "✅ **Main dry cycle complete!** Time to fold those clothes or start a new load! 🧺"@,
            Notice::FluffDry => "💨 **Fluff dry cycle complete!** Don't forget to unload! 🧺"@,
            Notice::Idle { from_running: true } =>
                "✅ **Drier cycle complete!** Time to fold those clothes or start a new load! 🧺"@,
            Notice::Idle { from_running: false } =>
                "😴 **The drier is IDLE** - Time to start a new load or fold! 🧺"@,
        }
    }
}

/// The colour of the dot beside the bot's name.
#[derive(Clone, Copy, Debug, PartialEq, Eq, Structural)]
pub enum OnlineStatus {
    Online,
    Idle,
}

/// What the bot is shown to be playing.
#[derive(Clone, Copy, Debug, PartialEq, Eq, Structural)]
pub enum Activity {
    Initializing,
    Idle,
    MainCycle,
    FluffCycle,
    Running,
    NoMqttConnection,
}

impl Activity {
    /// The words of the activity.
    pub open spec fn wording(self) -> Seq<char> {
        match self {
            Activity::Initializing => "Initializing..."@,
            Activity::Idle => "Idle"@,
            Activity::MainCycle => "Main cycle"@,
            Activity::FluffCycle => "Fluff cycle"@,
            Activity::Running => "Running..."@,
            Activity::NoMqttConnection => "⚠️ No MQTT connection!"@,
        }
    }

    /// The text to show for the activity.
    pub fn name(self) -> (name: &'static str)
        ensures
            name@ == self.wording(),
    {
        match self {
            Activity::Initializing => "Initializing...",
            Activity::Idle => "Idle",
            Activity::MainCycle => "Main cycle",
            Activity::FluffCycle => "Fluff cycle",
            Activity::Running => "Running...",
            Activity::NoMqttConnection => "⚠️ No MQTT connection!",
        }
    }
}

/// Status and activity, as they are shown together.
#[derive(Clone, Copy, Debug, PartialEq, Eq, Structural)]
pub struct Presence {
    pub status: OnlineStatus,
    pub activity: Activity,
}

/// A step that the caller has the monitor take, in the order in which the steps were
/// handed out.
#[derive(Clone, Copy, Debug, PartialEq, Eq, Structural)]
pub enum Action {
    /// Tell the channel.
    SendDiscordMessage(Notice),
    /// Note that a cycle of this kind has ended now.
    RecordCycle(CycleType),
    /// Show this state on the gauge.
    UpdateMetrics(DrierState),
    /// Show the current presence.
    UpdatePresence,
}

/// A text for a channel.
#[derive(Clone, Copy, Debug, PartialEq, Eq)]
pub struct Post<'a> {
    pub channel_id: u64,
    pub content: &'a str,
}

/// A value for a gauge.
#[derive(Clone, Copy, Debug, PartialEq, Eq)]
pub struct GaugeUpdate {
    pub name: &'static str,
    pub value: u64,
}

/// What is left for the outside world to do about an action.
#[derive(Clone, Copy, Debug, PartialEq, Eq)]
pub enum Effect {
    Nothing,
    Send(Post<'static>),
    SetGauge(GaugeUpdate),
    SetPresence(Presence),
}

} // verus!
