//! What holds of the monitor over time, through any sequence of inputs.

use crate::broker::MqttEvent;
use crate::clock::{Moment, MAIN_DRY_THRESHOLD};
use crate::drier::{Action, CycleType, DrierState, Notice};
use crate::monitor::DrierMonitor;
use crate::reading::Reading;
use vstd::prelude::*;

verus! {

/// Something that the monitor is given to take in.
pub enum Input {
    /// An event on the connection to the broker.
    Event { event: MqttEvent, now: Moment },
    /// A look at the connection.
    Check { now: Moment },
    /// A current reading. The actions that it calls for are then performed, each at a
    /// moment of its own.
    Current {
        current: Reading,
        received: Moment,
        now: Moment,
        checked: Moment,
        performed: Seq<Moment>,
    },
}

impl DrierMonitor {
    /// The monitor after the actions were performed in order, each at its moment.
    pub open spec fn after_actions(self, actions: Seq<Action>, moments: Seq<Moment>) -> DrierMonitor
        decreases actions.len(),
    {
        if actions.len() == 0 {
            self
        } else {
            self.after_actions(actions.drop_last(), moments).after_action(
                actions.last(),
                moments[actions.len() - 1],
            )
        }
    }

    /// The monitor after an input, with everything done that it calls for.
    pub open spec fn after_input(self, input: Input) -> DrierMonitor {
        match input {
            Input::Event { event, now } => self.after_event(event, now),
            Input::Check { now } => self.after_check(now),
            Input::Current { current, received, now, checked, performed } => self.after_reading(
                current,
                received,
                now,
                checked,
            ).after_actions(self.reading_actions(current, now, checked), performed),
        }
    }

    /// The monitor after all of the inputs, in order.
    pub open spec fn after_all(self, inputs: Seq<Input>) -> DrierMonitor
        decreases inputs.len(),
    {
        if inputs.len() == 0 {
            self
        } else {
            self.after_all(inputs.drop_last()).after_input(inputs.last())
        }
    }

    /// Whether the input has the start of a main dry announced.
    pub open spec fn announces_start(self, input: Input) -> bool {
        input matches Input::Current { current, now, checked, .. } && self.reading_actions(
            current,
            now,
            checked,
        ).contains(Action::SendDiscordMessage(Notice::MainDryStart))
    }

    /// How often the inputs have the start of a main dry announced.
    pub open spec fn starts_announced(self, inputs: Seq<Input>) -> nat
        decreases inputs.len(),
    {
        if inputs.len() == 0 {
            0
        } else {
            self.starts_announced(inputs.drop_last()) + if self.after_all(
                inputs.drop_last(),
            ).announces_start(inputs.last()) {
                1nat
            } else {
                0nat
            }
        }
    }

    /// Whether the input leaves a running cycle running: a reading finds the drier on and
    /// does not end the cycle.
    pub open spec fn keeps_running(self, input: Input) -> bool {
        input matches Input::Current { current, .. } ==> self.state == DrierState::On && current
            != Reading::BelowThreshold
    }

    /// Whether all of the inputs, in order, leave a running cycle running.
    pub open spec fn all_keep_running(self, inputs: Seq<Input>) -> bool
        decreases inputs.len(),
    {
        inputs.len() > 0 ==> self.all_keep_running(inputs.drop_last()) && self.after_all(
            inputs.drop_last(),
        ).keeps_running(inputs.last())
    }
}

/// Where no cycle is noted, performing actions leaves the monitor as it is.
proof fn lemma_nothing_noted(monitor: DrierMonitor, actions: Seq<Action>, moments: Seq<Moment>)
    requires
        forall|i: int| 0 <= i < actions.len() ==> !(#[trigger] actions[i] is RecordCycle),
    ensures
        monitor.after_actions(actions, moments) == monitor,
    decreases actions.len(),
{
    if actions.len() > 0 {
        assert(!(actions[actions.len() - 1] is RecordCycle));
        assert forall|i: int| 0 <= i < actions.drop_last().len() implies !(
        #[trigger] actions.drop_last()[i] is RecordCycle) by {
            assert(actions.drop_last()[i] == actions[i]);
        }
        lemma_nothing_noted(monitor, actions.drop_last(), moments);
    }
}

/// Where one action notes a cycle, performing all of them does what that one does.
proof fn lemma_one_noted(
    monitor: DrierMonitor,
    actions: Seq<Action>,
    moments: Seq<Moment>,
    noting: int,
)
    requires
        0 <= noting < actions.len(),
        forall|i: int|
            0 <= i < actions.len() && i != noting ==> !(#[trigger] actions[i] is RecordCycle),
    ensures
        monitor.after_actions(actions, moments) == monitor.after_action(
            actions[noting],
            moments[noting],
        ),
    decreases actions.len(),
{
    assert forall|i: int| 0 <= i < actions.drop_last().len() && i != noting implies !(
    #[trigger] actions.drop_last()[i] is RecordCycle) by {
        assert(actions.drop_last()[i] == actions[i]);
    }
    if noting == actions.len() - 1 {
        lemma_nothing_noted(monitor, actions.drop_last(), moments);
    } else {
        assert(!(actions[actions.len() - 1] is RecordCycle));
        lemma_one_noted(monitor, actions.drop_last(), moments, noting);
    }
}

/// A reading notes exactly the cycle that it completes, at the moment at which the action
/// after its announcement was performed. Nothing else that it calls for changes the
/// monitor.
pub proof fn law_completed_cycle_is_noted(
    monitor: DrierMonitor,
    current: Reading,
    received: Moment,
    now: Moment,
    checked: Moment,
    performed: Seq<Moment>,
)
    ensures
        ({
            let decided = monitor.after_reading(current, received, now, checked);
            let after = monitor.after_input(
                Input::Current { current, received, now, checked, performed },
            );
            match monitor.completed_cycle(current, now, checked) {
                Some(kind) => after == (DrierMonitor {
                    last_cycle_end_time: Some(performed[1]),
                    last_cycle_type: Some(kind),
                    ..decided
                }),
                None => after == decided,
            }
        }),
{
    let decided = monitor.after_reading(current, received, now, checked);
    let actions = monitor.reading_actions(current, now, checked);
    match monitor.completed_cycle(current, now, checked) {
        Some(kind) => {
            assert(actions[1] == Action::RecordCycle(kind));
            lemma_one_noted(decided, actions, performed, 1);
        },
        None => {
            lemma_nothing_noted(decided, actions, performed);
        },
    }
}

/// Every input keeps what the fields say of one another.
pub proof fn law_input_keeps_consistency(monitor: DrierMonitor, input: Input)
    requires
        monitor.consistent(),
    ensures
        monitor.after_input(input).consistent(),
{
    match input {
        Input::Current { current, received, now, checked, performed } => {
            law_completed_cycle_is_noted(monitor, current, received, now, checked, performed);
        },
        _ => {},
    }
}

/// Whatever comes in, a monitor that started out consistent stays so.
pub proof fn law_every_run_is_consistent(monitor: DrierMonitor, inputs: Seq<Input>)
    requires
        monitor.consistent(),
    ensures
        monitor.after_all(inputs).consistent(),
    decreases inputs.len(),
{
    if inputs.len() > 0 {
        law_every_run_is_consistent(monitor, inputs.drop_last());
        law_input_keeps_consistency(monitor.after_all(inputs.drop_last()), inputs.last());
    }
}

/// Whatever happens on the connection, and however often it is looked at, the state of the
/// drier, its running cycle and its last one are kept: only a reading changes them.
pub proof fn law_only_readings_change_the_drier(monitor: DrierMonitor, inputs: Seq<Input>)
    requires
        monitor.consistent(),
        forall|i: int| 0 <= i < inputs.len() ==> !(#[trigger] inputs[i] is Current),
    ensures
        ({
            let after = monitor.after_all(inputs);
            &&& after.drier_state() == monitor.drier_state()
            &&& after.cycle_start_time == monitor.cycle_start_time
            &&& after.current_cycle_type == monitor.current_cycle_type
            &&& after.main_dry_notified == monitor.main_dry_notified
            &&& after.last_cycle_end_time == monitor.last_cycle_end_time
            &&& after.last_cycle_type == monitor.last_cycle_type
        }),
    decreases inputs.len(),
{
    if inputs.len() > 0 {
        let before = inputs.drop_last();
        assert forall|i: int| 0 <= i < before.len() implies !(#[trigger] before[i] is Current) by {
            assert(before[i] == inputs[i]);
        }
        law_only_readings_change_the_drier(monitor, before);
        law_every_run_is_consistent(monitor, before);
        assert(!(inputs[inputs.len() - 1] is Current));
    }
}

/// While a cycle runs its start stays put, and so does the end of the cycle before it. The
/// start of a main dry is announced once, and only if it had not been announced yet: it is
/// when a reading finds the cycle past the threshold.
pub proof fn law_running_cycle(monitor: DrierMonitor, inputs: Seq<Input>)
    requires
        monitor.consistent(),
        monitor.drier_state() == DrierState::On,
        monitor.all_keep_running(inputs),
    ensures
        ({
            let after = monitor.after_all(inputs);
            &&& after.drier_state() == DrierState::On
            &&& after.cycle_start_time == monitor.cycle_start_time
            &&& after.last_cycle_end_time == monitor.last_cycle_end_time
            &&& after.last_cycle_type == monitor.last_cycle_type
            &&& after.main_dry_notified <==> (monitor.main_dry_notified || exists|k: int|
                0 <= k < inputs.len() && (#[trigger] inputs[k]) is Current
                    && inputs[k]->Current_now.since(monitor.cycle_start_time->0)
                    > MAIN_DRY_THRESHOLD)
            &&& monitor.starts_announced(inputs) == (if after.main_dry_notified
                && !monitor.main_dry_notified {
                1nat
            } else {
                0nat
            })
        }),
    decreases inputs.len(),
{
    if inputs.len() > 0 {
        let before = monitor.after_all(inputs.drop_last());
        law_running_cycle(monitor, inputs.drop_last());
        law_every_run_is_consistent(monitor, inputs.drop_last());
        assert forall|k: int| 0 <= k < inputs.len() - 1 implies inputs.drop_last()[k]
            == #[trigger] inputs[k] by {}
        assert(inputs[inputs.len() - 1] == inputs.last());
        match inputs.last() {
            Input::Current { current, received, now, checked, performed } => {
                law_completed_cycle_is_noted(before, current, received, now, checked, performed);
                let actions = before.reading_actions(current, now, checked);
                if before.announces_late(current, now) {
                    assert(actions[0] == Action::SendDiscordMessage(Notice::MainDryStart));
                }
            },
            _ => {},
        }
    }
}

/// From the reading that starts a cycle to the last one that finds it running, the start
/// of a main dry is announced at most once, and the monitor then holds it to be announced.
/// It is announced exactly if the drier was seen off and started outside the fluff window,
/// or a later reading finds the cycle past the threshold.
pub proof fn law_one_start_notice_per_cycle(
    monitor: DrierMonitor,
    received: Moment,
    now: Moment,
    checked: Moment,
    performed: Seq<Moment>,
    inputs: Seq<Input>,
)
    requires
        monitor.consistent(),
        monitor.state != DrierState::On,
        ({
            let start = Input::Current {
                current: Reading::AtLeastThreshold,
                received,
                now,
                checked,
                performed,
            };
            monitor.after_input(start).all_keep_running(inputs)
        }),
    ensures
        ({
            let start = Input::Current {
                current: Reading::AtLeastThreshold,
                received,
                now,
                checked,
                performed,
            };
            let running = monitor.after_input(start);
            let at_start = if monitor.announces_start(start) {
                1nat
            } else {
                0nat
            };
            let count = at_start + running.starts_announced(inputs);
            &&& count == (if running.after_all(inputs).main_dry_notified {
                1nat
            } else {
                0nat
            })
            &&& count == 1 <==> ((monitor.state == DrierState::Off && !monitor.within_fluff_window(
                checked,
            )) || exists|k: int|
                0 <= k < inputs.len() && (#[trigger] inputs[k]) is Current
                    && inputs[k]->Current_now.since(now) > MAIN_DRY_THRESHOLD)
        }),
{
    let start = Input::Current {
        current: Reading::AtLeastThreshold,
        received,
        now,
        checked,
        performed,
    };
    law_completed_cycle_is_noted(
        monitor,
        Reading::AtLeastThreshold,
        received,
        now,
        checked,
        performed,
    );
    law_input_keeps_consistency(monitor, start);
    let actions = monitor.reading_actions(Reading::AtLeastThreshold, now, checked);
    if monitor.starts_main_dry(Reading::AtLeastThreshold, checked) {
        assert(actions[0] == Action::SendDiscordMessage(Notice::MainDryStart));
    }
    law_running_cycle(monitor.after_input(start), inputs);
}

/// A cycle is judged by the whole time from the reading that started it to the one that
/// ends it, whatever comes in between, and by the end of the cycle before it.
pub proof fn law_cycle_is_judged_from_start_to_end(
    monitor: DrierMonitor,
    received: Moment,
    started: Moment,
    checked: Moment,
    performed: Seq<Moment>,
    inputs: Seq<Input>,
    ended: Moment,
    judged: Moment,
)
    requires
        monitor.consistent(),
        monitor.state != DrierState::On,
        ({
            let running = monitor.after_input(
                Input::Current {
                    current: Reading::AtLeastThreshold,
                    received,
                    now: started,
                    checked,
                    performed,
                },
            );
            &&& running.all_keep_running(inputs)
            &&& running.after_all(inputs).state == DrierState::On
        }),
    ensures
        ({
            let running = monitor.after_input(
                Input::Current {
                    current: Reading::AtLeastThreshold,
                    received,
                    now: started,
                    checked,
                    performed,
                },
            );
            running.after_all(inputs).completed_cycle(Reading::BelowThreshold, ended, judged)
                == monitor.cycle_kind(ended.since(started), judged)
        }),
{
    let start = Input::Current {
        current: Reading::AtLeastThreshold,
        received,
        now: started,
        checked,
        performed,
    };
    law_completed_cycle_is_noted(
        monitor,
        Reading::AtLeastThreshold,
        received,
        started,
        checked,
        performed,
    );
    law_input_keeps_consistency(monitor, start);
    law_running_cycle(monitor.after_input(start), inputs);
}

} // verus!
