//! Finding the ego vehicle among the simulated actors.
//!
//! The simulator is polled by the caller. Each pass hands this module a
//! snapshot of the actors with whatever attributes could be read, and the
//! [`Locator`] answers with what to do next: scan again, sleep one poll
//! interval, or stop with the vehicle's handle or with [`NotFound`].

use vstd::prelude::*;

verus! {

/// Name of the attribute that carries an actor's role.
pub const ROLE_ATTRIBUTE: &'static str = "role_name";

/// Role marker of the ego vehicle unless another one is configured.
pub const DEFAULT_ROLE_MARKER: &'static str = "ego_vehicle_role";

/// Milliseconds between two passes unless another interval is configured.
pub const DEFAULT_POLL_INTERVAL_MS: u64 = 1_000;

/// One attribute of a simulated actor.
#[derive(Debug, Clone, PartialEq, Eq)]
pub struct Attribute {
    pub name: String,
    pub value: String,
}

impl DeepView for Attribute {
    type V = (Seq<char>, Seq<char>);

    open spec fn deep_view(&self) -> (Seq<char>, Seq<char>) {
        (self.name@, self.value@)
    }
}

/// What one pass saw of one actor. `attributes` is `None` when reading them
/// failed; such an actor is skipped.
#[derive(Debug, Clone, PartialEq, Eq)]
pub struct ActorSnapshot {
    pub id: u32,
    pub attributes: Option<Vec<Attribute>>,
}

/// Mathematical content of an [`ActorSnapshot`]: the id and, where they could
/// be read, the (name, value) pairs in the order the simulator gave them.
pub struct ActorView {
    pub id: u32,
    pub attributes: Option<Seq<(Seq<char>, Seq<char>)>>,
}

impl DeepView for ActorSnapshot {
    type V = ActorView;

    open spec fn deep_view(&self) -> ActorView {
        ActorView { id: self.id, attributes: self.attributes.deep_view() }
    }
}

/// Reference to the located vehicle: the simulator's numeric id of the actor.
#[derive(Debug, Clone, Copy, PartialEq, Eq)]
pub struct ActorHandle {
    pub id: u32,
}

/// The search was cancelled before any actor carried the role marker.
#[derive(Debug, Clone, Copy, PartialEq, Eq)]
pub struct NotFound {}

impl NotFound {
    /// Text under which the condition is reported.
    pub fn message(&self) -> (text: String)
        ensures
            text@ == "Ego vehicle not found"@,
    {
        "Ego vehicle not found".to_string()
    }
}

/// Whether the actor's attributes could be read and hold the role attribute
/// with exactly the marker as its value.
pub open spec fn is_target(actor: ActorView, marker: Seq<char>) -> bool {
    match actor.attributes {
        Some(attributes) => attributes.contains((ROLE_ATTRIBUTE@, marker)),
        None => false,
    }
}

/// Whether `index` is the position of the first target in enumeration order.
pub open spec fn is_first_target(actors: Seq<ActorView>, marker: Seq<char>, index: int) -> bool {
    &&& 0 <= index < actors.len()
    &&& is_target(actors[index], marker)
    &&& forall|earlier: int| 0 <= earlier < index ==> !is_target(#[trigger] actors[earlier], marker)
}

/// The handle of the first target of a snapshot, if it has one.
pub open spec fn located(actors: Seq<ActorView>, marker: Seq<char>) -> Option<ActorHandle> {
    if exists|index: int| is_first_target(actors, marker, index) {
        let index = choose|index: int| is_first_target(actors, marker, index);
        Some(ActorHandle { id: actors[index].id })
    } else {
        None
    }
}

/// Two positions that are both the first target are the same position.
pub proof fn lemma_first_target_unique(
    actors: Seq<ActorView>,
    marker: Seq<char>,
    first: int,
    second: int,
)
    requires
        is_first_target(actors, marker, first),
        is_first_target(actors, marker, second),
    ensures
        first == second,
{
}

/// Whether the attribute list holds the role attribute with the marker as its
/// value.
pub fn has_role(attributes: &Vec<Attribute>, marker: &String) -> (found: bool)
    ensures
        found == attributes.deep_view().contains((ROLE_ATTRIBUTE@, marker@)),
{
    let role_attribute = ROLE_ATTRIBUTE.to_string();
    let ghost pairs = attributes.deep_view();
    let mut position: usize = 0;
    while position < attributes.len()
        invariant
            position <= attributes.len(),
            pairs == attributes.deep_view(),
            role_attribute@ == ROLE_ATTRIBUTE@,
            forall|seen: int| 0 <= seen < position ==> pairs[seen] != (ROLE_ATTRIBUTE@, marker@),
        decreases attributes.len() - position,
    {
        let attribute = &attributes[position];
        if attribute.name == role_attribute && attribute.value == *marker {
            assert(pairs[position as int] == (ROLE_ATTRIBUTE@, marker@));
            return true;
        }
        position += 1;
    }
    false
}

/// Scans one snapshot for the first actor, in enumeration order, whose role
/// attribute equals the marker. Actors whose attributes could not be read are
/// passed over.
pub fn locate_in_snapshot(actors: &Vec<ActorSnapshot>, role_marker: &str) -> (handle: Option<
    ActorHandle,
>)
    ensures
        handle == located(actors.deep_view(), role_marker@),
{
    let marker = role_marker.to_string();
    let ghost views = actors.deep_view();
    let mut position: usize = 0;
    while position < actors.len()
        invariant
            position <= actors.len(),
            views == actors.deep_view(),
            marker@ == role_marker@,
            forall|seen: int| 0 <= seen < position ==> !is_target(#[trigger] views[seen], marker@),
        decreases actors.len() - position,
    {
        let actor = &actors[position];
        let matches = match &actor.attributes {
            Some(attributes) => has_role(attributes, &marker),
            None => false,
        };
        if matches {
            proof {
                let chosen = choose|index: int| is_first_target(views, marker@, index);
                lemma_first_target_unique(views, marker@, position as int, chosen);
            }
            return Some(ActorHandle { id: actor.id });
        }
        position += 1;
    }
    None
}

/// Where a search stands.
#[derive(Debug, Clone, Copy, PartialEq, Eq)]
pub enum LocatorPhase {
    /// Between two passes: the cancellation flag is consulted next.
    Idle,
    /// A snapshot has been asked for.
    Scanning,
    /// The vehicle was found; the search is over.
    Located(ActorHandle),
    /// The search was cancelled before the vehicle was found; it is over.
    Cancelled,
}

/// What the caller reports to the locator.
#[derive(Debug, Clone)]
pub enum LocatorEvent {
    /// The search starts, or the sleep that was asked for has ended.
    Resume,
    /// The actors the simulator currently lists, in its order.
    Snapshot(Vec<ActorSnapshot>),
}

/// Mathematical content of a [`LocatorEvent`].
pub enum LocatorEventView {
    Resume,
    Snapshot(Seq<ActorView>),
}

impl DeepView for LocatorEvent {
    type V = LocatorEventView;

    open spec fn deep_view(&self) -> LocatorEventView {
        match self {
            LocatorEvent::Resume => LocatorEventView::Resume,
            LocatorEvent::Snapshot(actors) => LocatorEventView::Snapshot(actors.deep_view()),
        }
    }
}

/// What the locator asks of the caller.
#[derive(Debug, Clone, Copy, PartialEq, Eq)]
pub enum LocatorAction {
    /// Synchronise with the simulator's tick as far as that succeeds, list the
    /// actors, read their attributes, and report them as a snapshot.
    Scan,
    /// Sleep this many milliseconds, then report `Resume`.
    Sleep(u64),
    /// The search is over, with this outcome.
    Finish(Result<ActorHandle, NotFound>),
}

/// The search for the actor that carries a role marker.
#[derive(Debug, Clone)]
pub struct Locator {
    role_marker: String,
    poll_interval_ms: u64,
    phase: LocatorPhase,
}

/// Mathematical content of a [`Locator`].
pub struct LocatorView {
    pub role_marker: Seq<char>,
    pub poll_interval_ms: u64,
    pub phase: LocatorPhase,
}

/// One input to a search: the cancellation flag as it was read when the event
/// was reported, and the event.
pub struct LocatorInput {
    pub cancelled: bool,
    pub event: LocatorEventView,
}

impl LocatorView {
    /// Whether the search is over.
    pub open spec fn finished(self) -> bool {
        self.phase is Located || self.phase is Cancelled
    }

    /// The phase after one input and the action that answers it.
    ///
    /// A finished search stays as it is and repeats its outcome. A snapshot
    /// that was asked for ends the search if it holds a target; if it holds
    /// none, the search ends as cancelled when the flag is set and otherwise
    /// sleeps one poll interval. Every other input consults the flag: when it
    /// is set the search ends as cancelled, otherwise a snapshot is asked for.
    pub open spec fn next(self, cancelled: bool, event: LocatorEventView) -> (
        LocatorPhase,
        LocatorAction,
    ) {
        match self.phase {
            LocatorPhase::Located(handle) => (self.phase, LocatorAction::Finish(Ok(handle))),
            LocatorPhase::Cancelled => (self.phase, LocatorAction::Finish(Err(NotFound {  }))),
            LocatorPhase::Scanning => match event {
                LocatorEventView::Snapshot(actors) => match located(actors, self.role_marker) {
                    Some(handle) => (
                        LocatorPhase::Located(handle),
                        LocatorAction::Finish(Ok(handle)),
                    ),
                    None => if cancelled {
                        (LocatorPhase::Cancelled, LocatorAction::Finish(Err(NotFound {  })))
                    } else {
                        (LocatorPhase::Idle, LocatorAction::Sleep(self.poll_interval_ms))
                    },
                },
                LocatorEventView::Resume => self.consult(cancelled),
            },
            LocatorPhase::Idle => self.consult(cancelled),
        }
    }

    /// What the flag decides at the head of a pass.
    pub open spec fn consult(self, cancelled: bool) -> (LocatorPhase, LocatorAction) {
        if cancelled {
            (LocatorPhase::Cancelled, LocatorAction::Finish(Err(NotFound {  })))
        } else {
            (LocatorPhase::Scanning, LocatorAction::Scan)
        }
    }

    /// The search after one input.
    pub open spec fn after(self, input: LocatorInput) -> LocatorView {
        LocatorView {
            role_marker: self.role_marker,
            poll_interval_ms: self.poll_interval_ms,
            phase: self.next(input.cancelled, input.event).0,
        }
    }

    /// The search after a sequence of inputs, taken in order.
    pub open spec fn run(self, inputs: Seq<LocatorInput>) -> LocatorView
        decreases inputs.len(),
    {
        if inputs.len() == 0 {
            self
        } else {
            self.run(inputs.drop_last()).after(inputs.last())
        }
    }
}

impl View for Locator {
    type V = LocatorView;

    closed spec fn view(&self) -> LocatorView {
        LocatorView {
            role_marker: self.role_marker@,
            poll_interval_ms: self.poll_interval_ms,
            phase: self.phase,
        }
    }
}

impl Locator {
    /// A search for the actor whose role attribute equals `role_marker`, with
    /// `poll_interval_ms` milliseconds of sleep between passes.
    pub fn new(role_marker: &str, poll_interval_ms: u64) -> (locator: Self)
        ensures
            locator@ == (LocatorView {
                role_marker: role_marker@,
                poll_interval_ms,
                phase: LocatorPhase::Idle,
            }),
    {
        Locator {
            role_marker: role_marker.to_string(),
            poll_interval_ms,
            phase: LocatorPhase::Idle,
        }
    }

    /// A search with the default role marker and poll interval.
    pub fn with_defaults() -> (locator: Self)
        ensures
            locator@ == (LocatorView {
                role_marker: DEFAULT_ROLE_MARKER@,
                poll_interval_ms: DEFAULT_POLL_INTERVAL_MS,
                phase: LocatorPhase::Idle,
            }),
    {
        Locator::new(DEFAULT_ROLE_MARKER, DEFAULT_POLL_INTERVAL_MS)
    }

    /// The phase the search is in.
    pub fn phase(&self) -> (phase: LocatorPhase)
        ensures
            phase == self@.phase,
    {
        self.phase
    }

    /// Milliseconds slept between two passes.
    pub fn poll_interval_ms(&self) -> (interval: u64)
        ensures
            interval == self@.poll_interval_ms,
    {
        self.poll_interval_ms
    }

    /// The outcome, once the search is over.
    pub fn outcome(&self) -> (outcome: Option<Result<ActorHandle, NotFound>>)
        ensures
            outcome == match self@.phase {
                LocatorPhase::Located(handle) => Some(Ok::<ActorHandle, NotFound>(handle)),
                LocatorPhase::Cancelled => Some(Err::<ActorHandle, NotFound>(NotFound {  })),
                _ => None,
            },
    {
        match self.phase {
            LocatorPhase::Located(handle) => Some(Ok(handle)),
            LocatorPhase::Cancelled => Some(Err(NotFound {  })),
            _ => None,
        }
    }

    /// Takes one input and answers with the next action. `cancelled` is the
    /// cancellation flag as the caller read it when it reports the event.
    pub fn step(&mut self, cancelled: bool, event: LocatorEvent) -> (action: LocatorAction)
        ensures
            final(self)@ == old(self)@.after(
                LocatorInput { cancelled, event: event.deep_view() },
            ),
            action == old(self)@.next(cancelled, event.deep_view()).1,
    {
        match self.phase {
            LocatorPhase::Located(handle) => LocatorAction::Finish(Ok(handle)),
            LocatorPhase::Cancelled => LocatorAction::Finish(Err(NotFound {  })),
            LocatorPhase::Scanning => match event {
                LocatorEvent::Snapshot(actors) => {
                    match locate_in_snapshot(&actors, self.role_marker.as_str()) {
                        Some(handle) => {
                            self.phase = LocatorPhase::Located(handle);
                            LocatorAction::Finish(Ok(handle))
                        },
                        None => {
                            if cancelled {
                                self.phase = LocatorPhase::Cancelled;
                                LocatorAction::Finish(Err(NotFound {  }))
                            } else {
                                self.phase = LocatorPhase::Idle;
                                LocatorAction::Sleep(self.poll_interval_ms)
                            }
                        },
                    }
                },
                LocatorEvent::Resume => self.consult(cancelled),
            },
            LocatorPhase::Idle => self.consult(cancelled),
        }
    }

    fn consult(&mut self, cancelled: bool) -> (action: LocatorAction)
        ensures
            final(self)@ == (LocatorView {
                phase: old(self)@.consult(cancelled).0,
                ..old(self)@
            }),
            action == old(self)@.consult(cancelled).1,
    {
        if cancelled {
            self.phase = LocatorPhase::Cancelled;
            LocatorAction::Finish(Err(NotFound {  }))
        } else {
            self.phase = LocatorPhase::Scanning;
            LocatorAction::Scan
        }
    }
}

/// An actor that is a target has a first target at or before it.
proof fn lemma_target_has_first(actors: Seq<ActorView>, marker: Seq<char>, index: int)
    requires
        0 <= index < actors.len(),
        is_target(actors[index], marker),
    ensures
        exists|first: int| is_first_target(actors, marker, first),
    decreases index,
{
    if exists|earlier: int| 0 <= earlier < index && is_target(#[trigger] actors[earlier], marker) {
        let earlier = choose|earlier: int|
            0 <= earlier < index && is_target(#[trigger] actors[earlier], marker);
        lemma_target_has_first(actors, marker, earlier);
    } else {
        assert(is_first_target(actors, marker, index));
    }
}

/// A snapshot gives the handle of the first actor, in enumeration order, whose
/// role attribute equals the marker, and gives none exactly when no actor
/// carries the marker.
pub proof fn law_first_match_in_enumeration_order(actors: Seq<ActorView>, marker: Seq<char>)
    ensures
        match located(actors, marker) {
            Some(handle) => exists|index: int|
                is_first_target(actors, marker, index) && actors[index].id == handle.id,
            None => forall|index: int|
                0 <= index < actors.len() ==> !is_target(#[trigger] actors[index], marker),
        },
{
    if located(actors, marker) is None {
        assert forall|index: int| 0 <= index < actors.len() implies !is_target(
            #[trigger] actors[index],
            marker,
        ) by {
            if is_target(actors[index], marker) {
                lemma_target_has_first(actors, marker, index);
            }
        }
    }
}

/// A search ends with a handle only on a snapshot it asked for, and the
/// handle is that snapshot's first match, whatever the flag says.
pub proof fn law_handle_comes_from_snapshot(
    state: LocatorView,
    cancelled: bool,
    event: LocatorEventView,
)
    requires
        !state.finished(),
    ensures
        match state.next(cancelled, event).0 {
            LocatorPhase::Located(handle) => state.phase is Scanning && match event {
                LocatorEventView::Snapshot(actors) => located(actors, state.role_marker) == Some(
                    handle,
                ),
                LocatorEventView::Resume => false,
            },
            _ => true,
        },
        state.phase is Scanning ==> match event {
            LocatorEventView::Snapshot(actors) => match located(actors, state.role_marker) {
                Some(handle) => state.next(cancelled, event) == (
                    LocatorPhase::Located(handle),
                    LocatorAction::Finish(Ok(handle)),
                ),
                None => true,
            },
            LocatorEventView::Resume => true,
        },
{
}

/// While the flag is read as clear and no snapshot holds a target, the search
/// goes on: no sequence of such inputs ends it.
pub proof fn law_no_outcome_without_match(start: LocatorView, inputs: Seq<LocatorInput>)
    requires
        !start.finished(),
        forall|k: int|
            0 <= k < inputs.len() ==> {
                &&& !(#[trigger] inputs[k]).cancelled
                &&& match inputs[k].event {
                    LocatorEventView::Snapshot(actors) => located(actors, start.role_marker)
                        is None,
                    LocatorEventView::Resume => true,
                }
            },
    ensures
        !start.run(inputs).finished(),
        start.run(inputs).role_marker == start.role_marker,
    decreases inputs.len(),
{
    if inputs.len() > 0 {
        law_no_outcome_without_match(start, inputs.drop_last());
    }
}

/// A step that reads the flag as set ends the search at once: the answer is
/// the outcome, never a scan or a sleep, and the outcome is `NotFound` unless
/// the step's own snapshot holds a target or the vehicle was found before.
pub proof fn law_cancellation_ends_search(state: LocatorView, event: LocatorEventView)
    ensures
        state.after(LocatorInput { cancelled: true, event }).finished(),
        state.next(true, event).1 is Finish,
        state.next(true, event).0 is Located || state.next(true, event) == (
            LocatorPhase::Cancelled,
            LocatorAction::Finish(Err::<ActorHandle, NotFound>(NotFound {  })),
        ),
{
}

/// Whenever the flag is set, the search is over as soon as the first input
/// that reads it as set has been taken, whatever came before.
pub proof fn law_search_ends_with_first_cancelled_input(
    start: LocatorView,
    inputs: Seq<LocatorInput>,
    first_cancelled: int,
)
    requires
        0 <= first_cancelled < inputs.len(),
        inputs[first_cancelled].cancelled,
    ensures
        start.run(inputs.take(first_cancelled + 1)).finished(),
{
    let taken = inputs.take(first_cancelled + 1);
    law_cancellation_ends_search(start.run(taken.drop_last()), taken.last().event);
}

/// A sleep is asked for only while the flag is read as clear, lasts exactly
/// one poll interval, and is followed by a step that consults the flag before
/// anything else: if the flag was set in the meantime, that step ends the
/// search with `NotFound`.
pub proof fn law_wait_is_one_poll_interval(
    state: LocatorView,
    cancelled: bool,
    event: LocatorEventView,
    following: LocatorEventView,
)
    requires
        state.next(cancelled, event).1 is Sleep,
    ensures
        !cancelled,
        state.next(cancelled, event).1 == LocatorAction::Sleep(state.poll_interval_ms),
        state.after(LocatorInput { cancelled, event }).phase is Idle,
        state.after(LocatorInput { cancelled, event }).next(true, following) == (
            LocatorPhase::Cancelled,
            LocatorAction::Finish(Err::<ActorHandle, NotFound>(NotFound {  })),
        ),
{
}

/// An outcome is final: whatever is reported afterwards, the search keeps it.
pub proof fn law_outcome_is_final(state: LocatorView, inputs: Seq<LocatorInput>)
    requires
        state.finished(),
    ensures
        state.run(inputs) == state,
    decreases inputs.len(),
{
    if inputs.len() > 0 {
        law_outcome_is_final(state, inputs.drop_last());
    }
}

} // verus!
