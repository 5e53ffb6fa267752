//! The decisions that bring a virtual display up: create the device, and when
//! no monitor is tracked, plug in a default one and tell the driver its modes.
//!
//! The driver is outside this library, so the sequence is a state machine:
//! each `Step` names the driver call to make next, and the outcome of that
//! call is handed back to `ensure_display_advance`. A caller keeps the
//! registry locked from the first step until a `Step::Finished` comes back,
//! which makes the emptiness check and the default attachment one atomic act.

use crate::binding::{
    Capabilities, DisplayError, DriverFunction, DEFAULT_HEIGHT, DEFAULT_REFRESH_RATE,
    DEFAULT_WIDTH,
};
use crate::registry::{generate_monitor_index, MonitorIndexRegistry};
use vstd::prelude::*;

verus! {

/// What the driver is to do next, or how the whole sequence ended.
#[derive(Debug)]
pub enum Step {
    /// Call the driver's create-device entry point.
    CreateDevice,
    /// Plug in monitor `index` at the given primary mode.
    PlugInMonitor { index: u32, width: u32, height: u32, sync: u32 },
    /// Hand the driver every mode of `default_monitor_modes()` for `index`.
    UpdateMonitorModes { index: u32 },
    /// The sequence is over with this outcome.
    Finished(Result<(), DisplayError>),
}

/// The first step of bringing the display up.
pub open spec fn begin_spec(caps: Capabilities) -> Step {
    if caps.create_device {
        Step::CreateDevice
    } else {
        Step::Finished(Err(DisplayError::Unavailable(DriverFunction::CreateDevice)))
    }
}

/// Registry and next step once the driver answered `reply` to `done`.
pub open spec fn advance_spec(
    caps: Capabilities,
    reg: Set<u32>,
    done: Step,
    reply: Result<(), anyhow::Error>,
) -> (Set<u32>, Step) {
    match reply {
        Err(e) => (reg, Step::Finished(Err(DisplayError::Driver(e)))),
        Ok(_) => match done {
            Step::CreateDevice => {
                if reg.is_empty() && caps.plug_in_monitor {
                    (
                        reg.insert(0),
                        Step::PlugInMonitor {
                            index: 0,
                            width: DEFAULT_WIDTH,
                            height: DEFAULT_HEIGHT,
                            sync: DEFAULT_REFRESH_RATE,
                        },
                    )
                } else {
                    (reg, Step::Finished(Ok(())))
                }
            },
            Step::PlugInMonitor { index, .. } => {
                if caps.update_monitor_modes {
                    (reg.insert(index), Step::UpdateMonitorModes { index })
                } else {
                    (reg.insert(index), Step::Finished(Ok(())))
                }
            },
            _ => (reg, Step::Finished(Ok(()))),
        },
    }
}

/// Starts bringing the display up: the device must be created first, and a
/// driver without that entry point ends the sequence at once.
pub fn ensure_display_begin(caps: &Capabilities) -> (r: Step)
    ensures
        r == begin_spec(*caps),
{
    match caps.require(DriverFunction::CreateDevice) {
        Ok(()) => Step::CreateDevice,
        Err(e) => Step::Finished(Err(e)),
    }
}

/// Attaches the default monitor to a device that has none: allocates the
/// index and asks for the plug-in, or, where the driver cannot plug in
/// monitors, ends successfully with nothing allocated.
fn add_default_monitor(caps: &Capabilities, registry: &mut MonitorIndexRegistry) -> (r: Step)
    requires
        old(registry).wf(),
        old(registry)@.is_empty(),
    ensures
        final(registry).wf(),
        (final(registry)@, r) == advance_spec(
            *caps,
            old(registry)@,
            Step::CreateDevice,
            Ok::<(), anyhow::Error>(()),
        ),
{
    if !caps.plug_in_monitor {
        return Step::Finished(Ok(()));
    }
    let index = generate_monitor_index(registry);
    assert(index == 0) by {
        if index > 0 {
            assert(old(registry)@.contains(0u32));
        }
    }
    Step::PlugInMonitor {
        index,
        width: DEFAULT_WIDTH,
        height: DEFAULT_HEIGHT,
        sync: DEFAULT_REFRESH_RATE,
    }
}

/// Takes the driver's answer `reply` to the step `done` and decides the next
/// step. A driver failure ends the sequence with that very error. A monitor
/// is recorded once its plug-in succeeded, and stays recorded whatever the
/// mode update answers; an index whose plug-in failed stays allocated.
pub fn ensure_display_advance(
    caps: &Capabilities,
    registry: &mut MonitorIndexRegistry,
    done: &Step,
    reply: Result<(), anyhow::Error>,
) -> (r: Step)
    requires
        old(registry).wf(),
        !(done is Finished),
    ensures
        final(registry).wf(),
        (final(registry)@, r) == advance_spec(*caps, old(registry)@, *done, reply),
{
    match reply {
        Err(e) => Step::Finished(Err(DisplayError::Driver(e))),
        Ok(()) => match done {
            Step::CreateDevice => {
                if registry.is_empty() {
                    add_default_monitor(caps, registry)
                } else {
                    Step::Finished(Ok(()))
                }
            },
            Step::PlugInMonitor { index, .. } => {
                registry.insert(*index);
                if caps.update_monitor_modes {
                    Step::UpdateMonitorModes { index: *index }
                } else {
                    Step::Finished(Ok(()))
                }
            },
            _ => Step::Finished(Ok(())),
        },
    }
}

/// Takes the driver's answer to unplugging monitor `index`: on success the
/// index is returned to the registry, on failure nothing changes and the
/// driver's error is reported.
pub fn finish_plug_out(
    registry: &mut MonitorIndexRegistry,
    index: u32,
    reply: Result<(), anyhow::Error>,
) -> (r: Result<(), DisplayError>)
    requires
        old(registry).wf(),
    ensures
        final(registry).wf(),
        reply is Ok ==> final(registry)@ == old(registry)@.remove(index) && r is Ok,
        reply matches Err(e) ==> final(registry)@ == old(registry)@ && r == Err::<(), DisplayError>(
            DisplayError::Driver(e),
        ),
{
    match reply {
        Ok(()) => {
            registry.remove(index);
            Ok(())
        },
        Err(e) => Err(DisplayError::Driver(e)),
    }
}

/// Registry, last step and number of plug-in calls after the driver answered
/// `replies`, one answer for each step, from `step` on.
pub open spec fn drive(
    caps: Capabilities,
    reg: Set<u32>,
    step: Step,
    replies: Seq<Result<(), anyhow::Error>>,
) -> (Set<u32>, Step, nat)
    decreases replies.len(),
{
    if step is Finished || replies.len() == 0 {
        (reg, step, 0)
    } else {
        let next = advance_spec(caps, reg, step, replies[0]);
        let rest = drive(caps, next.0, next.1, replies.drop_first());
        (rest.0, rest.1, if step is PlugInMonitor { rest.2 + 1 } else { rest.2 })
    }
}

/// A whole sequence of bringing the display up, from its first step.
pub open spec fn run(
    caps: Capabilities,
    reg: Set<u32>,
    replies: Seq<Result<(), anyhow::Error>>,
) -> (Set<u32>, Step, nat) {
    drive(caps, reg, begin_spec(caps), replies)
}

/// Every driver call answers with success.
pub open spec fn all_succeed(replies: Seq<Result<(), anyhow::Error>>) -> bool {
    forall|k: int| 0 <= k < replies.len() ==> (#[trigger] replies[k]) is Ok
}

/// Without a create-device entry point the sequence fails at once, naming it,
/// and allocates nothing.
pub proof fn lemma_missing_create_device(
    caps: Capabilities,
    reg: Set<u32>,
    replies: Seq<Result<(), anyhow::Error>>,
)
    requires
        !caps.create_device,
    ensures
        run(caps, reg, replies) == (
            reg,
            Step::Finished(Err(DisplayError::Unavailable(DriverFunction::CreateDevice))),
            0nat,
        ),
{
    reveal_with_fuel(drive, 2);
}

/// On an empty registry, with a driver that plugs in monitors and whose calls
/// all succeed, the sequence succeeds after one plug-in and records index 0.
pub proof fn lemma_first_run_attaches_one(caps: Capabilities, replies: Seq<Result<(), anyhow::Error>>)
    requires
        caps.create_device,
        caps.plug_in_monitor,
        replies.len() >= 3,
        all_succeed(replies),
    ensures
        run(caps, Set::empty(), replies) == (set![0u32], Step::Finished(Ok(())), 1nat),
{
    reveal_with_fuel(drive, 4);
    let r1 = replies.drop_first();
    let r2 = r1.drop_first();
    assert(replies[0] is Ok);
    assert(r1[0] == replies[1] && replies[1] is Ok);
    assert(r2[0] == replies[2] && replies[2] is Ok);
}

/// Once any monitor is recorded, a successful sequence attaches nothing and
/// leaves the registry as it was.
pub proof fn lemma_later_run_attaches_none(
    caps: Capabilities,
    reg: Set<u32>,
    replies: Seq<Result<(), anyhow::Error>>,
)
    requires
        caps.create_device,
        !reg.is_empty(),
        replies.len() >= 1,
        all_succeed(replies),
    ensures
        run(caps, reg, replies) == (reg, Step::Finished(Ok(())), 0nat),
{
    reveal_with_fuel(drive, 2);
    assert(replies[0] is Ok);
}

/// A driver that cannot plug in monitors still brings the display up, and
/// nothing is allocated.
pub proof fn lemma_no_plug_in_still_succeeds(caps: Capabilities, replies: Seq<Result<(), anyhow::Error>>)
    requires
        caps.create_device,
        !caps.plug_in_monitor,
        replies.len() >= 1,
        all_succeed(replies),
    ensures
        run(caps, Set::empty(), replies) == (Set::<u32>::empty(), Step::Finished(Ok(())), 0nat),
{
    reveal_with_fuel(drive, 2);
    assert(replies[0] is Ok);
}

/// Two sequences run one after the other (as the registry lock orders two
/// concurrent callers) on an empty registry plug in exactly one monitor.
pub proof fn lemma_two_runs_plug_in_once(
    caps: Capabilities,
    first: Seq<Result<(), anyhow::Error>>,
    second: Seq<Result<(), anyhow::Error>>,
)
    requires
        caps.create_device,
        caps.plug_in_monitor,
        first.len() >= 3,
        second.len() >= 3,
        all_succeed(first),
        all_succeed(second),
    ensures
        run(caps, Set::empty(), first).2 + run(caps, run(caps, Set::empty(), first).0, second).2
            == 1,
        run(caps, run(caps, Set::empty(), first).0, second).0 == set![0u32],
{
    lemma_first_run_attaches_one(caps, first);
    assert(set![0u32].contains(0u32));
    lemma_later_run_attaches_none(caps, set![0u32], second);
}

/// A failed mode update does not undo the attachment: the sequence reports the
/// driver's error and index 0 stays recorded.
pub proof fn lemma_failed_update_keeps_monitor(
    caps: Capabilities,
    e: anyhow::Error,
    replies: Seq<Result<(), anyhow::Error>>,
)
    requires
        caps.create_device,
        caps.plug_in_monitor,
        caps.update_monitor_modes,
        replies.len() >= 3,
        replies[0] is Ok,
        replies[1] is Ok,
        replies[2] == Err::<(), anyhow::Error>(e),
    ensures
        run(caps, Set::empty(), replies) == (
            set![0u32],
            Step::Finished(Err(DisplayError::Driver(e))),
            1nat,
        ),
{
    reveal_with_fuel(drive, 4);
    let r1 = replies.drop_first();
    let r2 = r1.drop_first();
    assert(r1[0] == replies[1]);
    assert(r2[0] == replies[2]);
}

/// A failed plug-in reports the driver's error and leaves its index allocated.
pub proof fn lemma_failed_plug_in_keeps_index(
    caps: Capabilities,
    e: anyhow::Error,
    replies: Seq<Result<(), anyhow::Error>>,
)
    requires
        caps.create_device,
        caps.plug_in_monitor,
        replies.len() >= 2,
        replies[0] is Ok,
        replies[1] == Err::<(), anyhow::Error>(e),
    ensures
        run(caps, Set::empty(), replies) == (
            set![0u32],
            Step::Finished(Err(DisplayError::Driver(e))),
            1nat,
        ),
{
    reveal_with_fuel(drive, 3);
    let r1 = replies.drop_first();
    assert(r1[0] == replies[1]);
}

} // verus!
