//! Orderly shutdown of the bridge.
//!
//! The [`Coordinator`] owns the cancellation flag and keeps account of what is
//! still running: the search for the vehicle and the attached sensors. It is
//! `Running` until the first interrupt, `ShuttingDown` while anything is still
//! running after that, and `Stopped` once nothing is.

use crate::attachment::AttachError;
use vstd::prelude::*;

verus! {

/// The phases of the bridge's life, in the order they are passed through.
#[derive(Debug, Clone, Copy, PartialEq, Eq)]
pub enum LifecyclePhase {
    Running,
    ShuttingDown,
    Stopped,
}

impl LifecyclePhase {
    /// Position of the phase in the order `Running`, `ShuttingDown`, `Stopped`.
    pub open spec fn rank(self) -> int {
        match self {
            LifecyclePhase::Running => 0,
            LifecyclePhase::ShuttingDown => 1,
            LifecyclePhase::Stopped => 2,
        }
    }
}

/// What the caller reports to the coordinator.
#[derive(Debug, Clone, Copy, PartialEq, Eq)]
pub enum LifecycleEvent {
    /// The process was asked to stop.
    Interrupt,
    /// The search for the vehicle has ended, with either outcome.
    LocatorFinished,
    /// A sensor with this resource id is about to be attached.
    AttachRequested(u16),
    /// The sensor with this resource id has been detached, or could not be
    /// attached after all.
    SensorDetached(u16),
}

/// What the coordinator asks of the caller.
#[derive(Debug, Clone, PartialEq, Eq)]
pub enum LifecycleAction {
    /// Go on.
    Proceed,
    /// Do not attach the sensor.
    Refuse(AttachError),
    /// Shutdown has begun: detach the sensors with these resource ids, in this
    /// order, and report each once it is detached.
    Detach(Vec<u16>),
    /// Nothing is running any more: the process may exit.
    Exit,
}

/// Mathematical content of a [`LifecycleAction`].
pub enum LifecycleActionView {
    Proceed,
    Refuse(AttachError),
    Detach(Seq<u16>),
    Exit,
}

impl View for LifecycleAction {
    type V = LifecycleActionView;

    open spec fn view(&self) -> LifecycleActionView {
        match self {
            LifecycleAction::Proceed => LifecycleActionView::Proceed,
            LifecycleAction::Refuse(error) => LifecycleActionView::Refuse(*error),
            LifecycleAction::Detach(sensors) => LifecycleActionView::Detach(sensors@),
            LifecycleAction::Exit => LifecycleActionView::Exit,
        }
    }
}

/// Keeper of the cancellation flag and of the account of what is running.
#[derive(Debug)]
pub struct Coordinator {
    cancelled: bool,
    locating: bool,
    sensors: Vec<u16>,
}

/// Mathematical content of a [`Coordinator`]: the cancellation flag, whether
/// the search for the vehicle is still running, and the resource ids of the
/// attached sensors in the order they were attached.
pub struct CoordinatorView {
    pub cancelled: bool,
    pub locating: bool,
    pub sensors: Seq<u16>,
}

impl CoordinatorView {
    /// No resource id is attached twice.
    pub open spec fn wf(self) -> bool {
        self.sensors.no_duplicates()
    }

    /// Whether nothing is running.
    pub open spec fn idle(self) -> bool {
        !self.locating && self.sensors.len() == 0
    }

    /// The phase the bridge is in.
    pub open spec fn phase(self) -> LifecyclePhase {
        if !self.cancelled {
            LifecyclePhase::Running
        } else if self.idle() {
            LifecyclePhase::Stopped
        } else {
            LifecyclePhase::ShuttingDown
        }
    }

    /// What is asked of the caller when nothing else is: to exit once the
    /// bridge has stopped, and to go on before that.
    pub open spec fn rest(self) -> LifecycleActionView {
        if self.phase() is Stopped {
            LifecycleActionView::Exit
        } else {
            LifecycleActionView::Proceed
        }
    }

    /// The coordinator after an event, and the action that answers it.
    ///
    /// The first interrupt sets the flag and asks for every attached sensor
    /// to be detached; a later one changes nothing. A sensor is admitted while
    /// the flag is clear and its resource id is free. The end of the search
    /// and the detaching of a sensor are taken off the account.
    pub open spec fn next(self, event: LifecycleEvent) -> (CoordinatorView, LifecycleActionView) {
        match event {
            LifecycleEvent::Interrupt => if self.cancelled {
                (self, self.rest())
            } else {
                let stopping = CoordinatorView {
                    cancelled: true,
                    locating: self.locating,
                    sensors: self.sensors,
                };
                if stopping.idle() {
                    (stopping, LifecycleActionView::Exit)
                } else {
                    (stopping, LifecycleActionView::Detach(self.sensors))
                }
            },
            LifecycleEvent::LocatorFinished => {
                let after = CoordinatorView {
                    cancelled: self.cancelled,
                    locating: false,
                    sensors: self.sensors,
                };
                (after, after.rest())
            },
            LifecycleEvent::AttachRequested(resource_id) => if self.cancelled {
                (self, LifecycleActionView::Refuse(AttachError::ShuttingDown))
            } else if self.sensors.contains(resource_id) {
                (self, LifecycleActionView::Refuse(AttachError::ResourceInUse))
            } else {
                (
                    CoordinatorView {
                        cancelled: self.cancelled,
                        locating: self.locating,
                        sensors: self.sensors.push(resource_id),
                    },
                    LifecycleActionView::Proceed,
                )
            },
            LifecycleEvent::SensorDetached(resource_id) => {
                let after = CoordinatorView {
                    cancelled: self.cancelled,
                    locating: self.locating,
                    sensors: self.sensors.remove_value(resource_id),
                };
                (after, after.rest())
            },
        }
    }

    /// The coordinator after a sequence of events, taken in order.
    pub open spec fn run(self, events: Seq<LifecycleEvent>) -> CoordinatorView
        decreases events.len(),
    {
        if events.len() == 0 {
            self
        } else {
            self.run(events.drop_last()).next(events.last()).0
        }
    }

    /// The events that report the attached sensors as detached, one by one in
    /// the order they were attached.
    pub open spec fn teardown(self) -> Seq<LifecycleEvent> {
        Seq::new(self.sensors.len(), |i: int| LifecycleEvent::SensorDetached(self.sensors[i]))
    }
}

impl View for Coordinator {
    type V = CoordinatorView;

    closed spec fn view(&self) -> CoordinatorView {
        CoordinatorView {
            cancelled: self.cancelled,
            locating: self.locating,
            sensors: self.sensors@,
        }
    }
}

impl Coordinator {
    #[verifier::type_invariant]
    spec fn distinct_resources(self) -> bool {
        self.sensors@.no_duplicates()
    }
}

/// Position of the first occurrence of a resource id among the sensors.
fn position_of(sensors: &Vec<u16>, resource_id: u16) -> (position: Option<usize>)
    ensures
        match position {
            Some(index) => sensors@.index_of_first(resource_id) == Some(index as int),
            None => sensors@.index_of_first(resource_id) is None,
        },
{
    let mut index: usize = 0;
    while index < sensors.len()
        invariant
            index <= sensors.len(),
            forall|seen: int| 0 <= seen < index ==> sensors@[seen] != resource_id,
        decreases sensors.len() - index,
    {
        if sensors[index] == resource_id {
            proof {
                sensors@.index_of_first_ensures(resource_id);
            }
            return Some(index);
        }
        index += 1;
    }
    proof {
        sensors@.index_of_first_ensures(resource_id);
    }
    None
}

/// A copy of the resource ids.
fn copy_of(sensors: &Vec<u16>) -> (copy: Vec<u16>)
    ensures
        copy@ == sensors@,
{
    let mut copy: Vec<u16> = Vec::new();
    let mut index: usize = 0;
    while index < sensors.len()
        invariant
            index <= sensors.len(),
            copy@ == sensors@.take(index as int),
        decreases sensors.len() - index,
    {
        copy.push(sensors[index]);
        index += 1;
    }
    copy
}

/// Taking one value out of a sequence without duplicates leaves no duplicates.
proof fn lemma_remove_value_keeps_distinct(sensors: Seq<u16>, resource_id: u16)
    requires
        sensors.no_duplicates(),
    ensures
        sensors.remove_value(resource_id).no_duplicates(),
{
    sensors.index_of_first_ensures(resource_id);
    if let Some(index) = sensors.index_of_first(resource_id) {
        sensors.remove_ensures(index);
    }
}

impl Coordinator {
    /// The coordinator at startup: the flag is clear, the search for the
    /// vehicle is running, and no sensor is attached.
    pub fn new() -> (coordinator: Self)
        ensures
            coordinator@ == (CoordinatorView {
                cancelled: false,
                locating: true,
                sensors: Seq::<u16>::empty(),
            }),
            coordinator@.wf(),
    {
        Coordinator { cancelled: false, locating: true, sensors: Vec::new() }
    }

    /// The cancellation flag: whether shutdown has been signalled.
    pub fn is_cancelled(&self) -> (cancelled: bool)
        ensures
            cancelled == self@.cancelled,
    {
        self.cancelled
    }

    /// The phase the bridge is in.
    pub fn phase(&self) -> (phase: LifecyclePhase)
        ensures
            phase == self@.phase(),
    {
        if !self.cancelled {
            LifecyclePhase::Running
        } else if !self.locating && self.sensors.len() == 0 {
            LifecyclePhase::Stopped
        } else {
            LifecyclePhase::ShuttingDown
        }
    }

    /// The resource ids of the attached sensors, in the order they were
    /// attached.
    pub fn attached(&self) -> (sensors: Vec<u16>)
        ensures
            sensors@ == self@.sensors,
    {
        copy_of(&self.sensors)
    }

    fn rest(&self) -> (action: LifecycleAction)
        ensures
            action@ == self@.rest(),
    {
        match self.phase() {
            LifecyclePhase::Stopped => LifecycleAction::Exit,
            _ => LifecycleAction::Proceed,
        }
    }

    /// Takes one event and answers with the next action.
    pub fn step(&mut self, event: LifecycleEvent) -> (action: LifecycleAction)
        ensures
            old(self)@.wf(),
            final(self)@.wf(),
            final(self)@ == old(self)@.next(event).0,
            action@ == old(self)@.next(event).1,
    {
        proof {
            use_type_invariant(&*self);
        }
        match event {
            LifecycleEvent::Interrupt => {
                if self.cancelled {
                    self.rest()
                } else {
                    self.cancelled = true;
                    if !self.locating && self.sensors.len() == 0 {
                        LifecycleAction::Exit
                    } else {
                        LifecycleAction::Detach(copy_of(&self.sensors))
                    }
                }
            },
            LifecycleEvent::LocatorFinished => {
                self.locating = false;
                self.rest()
            },
            LifecycleEvent::AttachRequested(resource_id) => {
                if self.cancelled {
                    LifecycleAction::Refuse(AttachError::ShuttingDown)
                } else {
                    proof {
                        self.sensors@.index_of_first_ensures(resource_id);
                    }
                    match position_of(&self.sensors, resource_id) {
                        Some(_) => LifecycleAction::Refuse(AttachError::ResourceInUse),
                        None => {
                            let mut sensors = copy_of(&self.sensors);
                            sensors.push(resource_id);
                            proof {
                                lemma_push_keeps_distinct(self.sensors@, resource_id);
                            }
                            self.sensors = sensors;
                            LifecycleAction::Proceed
                        },
                    }
                }
            },
            LifecycleEvent::SensorDetached(resource_id) => {
                proof {
                    lemma_remove_value_keeps_distinct(self.sensors@, resource_id);
                }
                match position_of(&self.sensors, resource_id) {
                    Some(index) => {
                        proof {
                            self.sensors@.index_of_first_ensures(resource_id);
                        }
                        let mut sensors = copy_of(&self.sensors);
                        sensors.remove(index);
                        self.sensors = sensors;
                    },
                    None => {},
                }
                self.rest()
            },
        }
    }
}

/// Adding a value that is not yet there to a sequence without duplicates
/// leaves no duplicates.
proof fn lemma_push_keeps_distinct(sensors: Seq<u16>, resource_id: u16)
    requires
        sensors.no_duplicates(),
        !sensors.contains(resource_id),
    ensures
        sensors.push(resource_id).no_duplicates(),
{
}

/// The cancellation flag is set by the first interrupt and by nothing else,
/// and once set it stays set.
pub proof fn law_flag_is_set_once(state: CoordinatorView, event: LifecycleEvent)
    ensures
        state.next(event).0.cancelled == (state.cancelled || event is Interrupt),
        state.cancelled && event is Interrupt ==> state.next(event).0 == state,
{
}

/// Whatever is reported after the flag has been set, it stays set.
pub proof fn law_flag_is_never_reset(state: CoordinatorView, events: Seq<LifecycleEvent>)
    requires
        state.cancelled,
    ensures
        state.run(events).cancelled,
    decreases events.len(),
{
    if events.len() > 0 {
        law_flag_is_never_reset(state, events.drop_last());
    }
}

/// No two attached sensors ever share a resource id.
pub proof fn law_attached_resources_stay_distinct(state: CoordinatorView, event: LifecycleEvent)
    requires
        state.wf(),
    ensures
        state.next(event).0.wf(),
{
    match event {
        LifecycleEvent::AttachRequested(resource_id) => {
            if !state.cancelled && !state.sensors.contains(resource_id) {
                lemma_push_keeps_distinct(state.sensors, resource_id);
            }
        },
        LifecycleEvent::SensorDetached(resource_id) => {
            lemma_remove_value_keeps_distinct(state.sensors, resource_id);
        },
        _ => {},
    }
}

/// The bridge leaves `Running` on an interrupt and on nothing else.
pub proof fn law_only_an_interrupt_ends_running(state: CoordinatorView, event: LifecycleEvent)
    requires
        state.phase() is Running,
    ensures
        state.next(event).0.phase() is Running <==> !(event is Interrupt),
{
}

/// The phases are passed through in one direction: no event takes the bridge
/// back from `Stopped` to `ShuttingDown` or from either to `Running`.
pub proof fn law_phase_never_goes_back(state: CoordinatorView, event: LifecycleEvent)
    ensures
        state.phase().rank() <= state.next(event).0.phase().rank(),
{
    if state.phase() is Stopped {
        match event {
            LifecycleEvent::SensorDetached(resource_id) => {
                state.sensors.index_of_first_ensures(resource_id);
            },
            _ => {},
        }
    }
}

/// Once shutdown has been signalled no sensor is admitted.
pub proof fn law_no_sensor_is_attached_during_shutdown(state: CoordinatorView, resource_id: u16)
    requires
        state.cancelled,
    ensures
        state.next(LifecycleEvent::AttachRequested(resource_id)) == (
            state,
            LifecycleActionView::Refuse(AttachError::ShuttingDown),
        ),
{
}

/// After the first `reported` of the teardown events the sensors that are
/// still attached are those that were attached later.
proof fn lemma_teardown_prefix(state: CoordinatorView, reported: int)
    requires
        0 <= reported <= state.sensors.len(),
    ensures
        state.run(state.teardown().take(reported)) == (CoordinatorView {
            cancelled: state.cancelled,
            locating: state.locating,
            sensors: state.sensors.skip(reported),
        }),
    decreases reported,
{
    let events = state.teardown().take(reported);
    if reported == 0 {
        assert(state.sensors.skip(0) == state.sensors);
    } else {
        lemma_teardown_prefix(state, reported - 1);
        assert(events.drop_last() == state.teardown().take(reported - 1));
        let before = state.sensors.skip(reported - 1);
        let resource_id = state.sensors[reported - 1];
        assert(before[0] == resource_id);
        before.index_of_first_ensures(resource_id);
        assert(before.remove(0) == state.sensors.skip(reported));
    }
}

/// Shutdown comes to an end: when the sensors named by the interrupt's
/// `Detach` action have been reported as detached, in that order, none is
/// attached any more, and once the search for the vehicle has ended as well
/// the bridge is `Stopped`.
pub proof fn law_shutdown_reaches_stopped(state: CoordinatorView)
    requires
        state.cancelled,
    ensures
        state.run(state.teardown()).sensors.len() == 0,
        state.run(state.teardown()).locating == state.locating,
        state.run(state.teardown()).next(LifecycleEvent::LocatorFinished).0.phase() is Stopped,
        !state.locating ==> state.run(state.teardown()).phase() is Stopped,
{
    lemma_teardown_prefix(state, state.sensors.len() as int);
    assert(state.teardown().take(state.sensors.len() as int) == state.teardown());
}

} // verus!
