//! The selection of the active noise generator and the active visualizer: two independent
//! wraparound counters, and the variant that each of them names.

use crate::counter::Counter;
use crate::noise::{new_noise_fn_by_index, noise_kind_at, NoiseKind, NOISE_FN_COUNT};
use crate::visualizer::{visualizer_kind_at, VisualizerKind, VISUALIZER_COUNT};
use vstd::prelude::*;

verus! {

/// A request to switch the noise generator or the visualizer.
#[derive(Clone, Copy, Debug, PartialEq, Eq, Structural)]
pub enum ModeIntent {
    NextNoise,
    PreviousNoise,
    NextVisualizer,
    PreviousVisualizer,
}

/// What has to be built anew after a switch.
#[derive(Clone, Copy, Debug, PartialEq, Eq, Structural)]
pub enum ModeChange {
    /// The noise generator is replaced by a new one of this kind.
    Noise(NoiseKind),
    /// The visualizer is replaced by a new one of this kind, with a grid of its own.
    Visualizer(VisualizerKind),
}

/// The mathematical value of a [`ModeSelector`]: the two selected indices.
pub struct ModeSelection {
    pub noise_index: nat,
    pub visualizer_index: nat,
}

impl ModeSelection {
    /// Both indices name a registered variant.
    pub open spec fn valid(self) -> bool {
        self.noise_index < NOISE_FN_COUNT && self.visualizer_index < VISUALIZER_COUNT
    }

    /// The selected noise generator.
    pub open spec fn noise_kind(self) -> NoiseKind {
        noise_kind_at(self.noise_index as int)
    }

    /// The selected visualizer.
    pub open spec fn visualizer_kind(self) -> VisualizerKind {
        visualizer_kind_at(self.visualizer_index as int)
    }

    /// The selection after a request.
    pub open spec fn applied(self, intent: ModeIntent) -> ModeSelection {
        match intent {
            ModeIntent::NextNoise => ModeSelection {
                noise_index: (self.noise_index + 1) % (NOISE_FN_COUNT as nat),
                ..self
            },
            ModeIntent::PreviousNoise => ModeSelection {
                noise_index: (self.noise_index + NOISE_FN_COUNT - 1) as nat % (
                NOISE_FN_COUNT as nat),
                ..self
            },
            ModeIntent::NextVisualizer => ModeSelection {
                visualizer_index: (self.visualizer_index + 1) % (VISUALIZER_COUNT as nat),
                ..self
            },
            ModeIntent::PreviousVisualizer => ModeSelection {
                visualizer_index: (self.visualizer_index + VISUALIZER_COUNT - 1) as nat % (
                VISUALIZER_COUNT as nat),
                ..self
            },
        }
    }

    /// What a request asks to be built: always the variant selected after it.
    pub open spec fn change(self, intent: ModeIntent) -> ModeChange {
        match intent {
            ModeIntent::NextNoise | ModeIntent::PreviousNoise => ModeChange::Noise(
                self.applied(intent).noise_kind(),
            ),
            ModeIntent::NextVisualizer | ModeIntent::PreviousVisualizer => ModeChange::Visualizer(
                self.applied(intent).visualizer_kind(),
            ),
        }
    }

    /// The selection after a sequence of requests, applied first to last.
    pub open spec fn applied_all(self, intents: Seq<ModeIntent>) -> ModeSelection
        decreases intents.len(),
    {
        if intents.len() == 0 {
            self
        } else {
            self.applied_all(intents.drop_last()).applied(intents.last())
        }
    }
}

/// The same request `times` times in a row.
pub open spec fn repeated(intent: ModeIntent, times: nat) -> Seq<ModeIntent> {
    Seq::new(times, |i: int| intent)
}

/// The selector of the active noise generator and the active visualizer.
pub struct ModeSelector {
    active_noise_index: Counter,
    active_visualizer_index: Counter,
}

impl View for ModeSelector {
    type V = ModeSelection;

    closed spec fn view(&self) -> ModeSelection {
        ModeSelection {
            noise_index: self.active_noise_index@.count,
            visualizer_index: self.active_visualizer_index@.count,
        }
    }
}

impl ModeSelector {
    #[verifier::type_invariant]
    spec fn well_formed(self) -> bool {
        &&& self.active_noise_index@.in_range()
        &&& self.active_noise_index@.min == 0
        &&& self.active_noise_index@.max == NOISE_FN_COUNT - 1
        &&& self.active_visualizer_index@.in_range()
        &&& self.active_visualizer_index@.min == 0
        &&& self.active_visualizer_index@.max == VISUALIZER_COUNT - 1
    }

    /// A selector that stands at the first noise generator and the first visualizer.
    pub fn new() -> (selector: Self)
        ensures
            selector@ == (ModeSelection { noise_index: 0, visualizer_index: 0 }),
    {
        ModeSelector {
            active_noise_index: Counter::new(0, NOISE_FN_COUNT - 1),
            active_visualizer_index: Counter::new(0, VISUALIZER_COUNT - 1),
        }
    }

    /// The index of the selected noise generator.
    pub fn active_noise_index(&self) -> (index: usize)
        ensures
            index == self@.noise_index,
            self@.valid(),
    {
        proof {
            use_type_invariant(self);
        }
        self.active_noise_index.count()
    }

    /// The index of the selected visualizer.
    pub fn active_visualizer_index(&self) -> (index: usize)
        ensures
            index == self@.visualizer_index,
            self@.valid(),
    {
        proof {
            use_type_invariant(self);
        }
        self.active_visualizer_index.count()
    }

    /// The selected noise generator.
    pub fn active_noise(&self) -> (kind: NoiseKind)
        ensures
            kind == self@.noise_kind(),
    {
        new_noise_fn_by_index(self.active_noise_index())
    }

    /// The selected visualizer.
    pub fn active_visualizer(&self) -> (kind: VisualizerKind)
        ensures
            kind == self@.visualizer_kind(),
    {
        VisualizerKind::from_index(self.active_visualizer_index())
    }

    /// Moves on to the next noise generator, from the last to the first, and names the
    /// generator to build.
    pub fn next_noise(&mut self) -> (kind: NoiseKind)
        ensures
            final(self)@ == old(self)@.applied(ModeIntent::NextNoise),
            final(self)@.valid(),
            kind == final(self)@.noise_kind(),
    {
        proof {
            use_type_invariant(&*self);
        }
        self.active_noise_index.increment();
        new_noise_fn_by_index(self.active_noise_index.count())
    }

    /// Moves back to the previous noise generator, from the first to the last, and names the
    /// generator to build.
    pub fn previous_noise(&mut self) -> (kind: NoiseKind)
        ensures
            final(self)@ == old(self)@.applied(ModeIntent::PreviousNoise),
            final(self)@.valid(),
            kind == final(self)@.noise_kind(),
    {
        proof {
            use_type_invariant(&*self);
        }
        self.active_noise_index.decrement();
        new_noise_fn_by_index(self.active_noise_index.count())
    }

    /// Moves on to the next visualizer, from the last to the first, and names the visualizer
    /// to build.
    pub fn next_visualizer(&mut self) -> (kind: VisualizerKind)
        ensures
            final(self)@ == old(self)@.applied(ModeIntent::NextVisualizer),
            final(self)@.valid(),
            kind == final(self)@.visualizer_kind(),
    {
        proof {
            use_type_invariant(&*self);
        }
        self.active_visualizer_index.increment();
        VisualizerKind::from_index(self.active_visualizer_index.count())
    }

    /// Moves back to the previous visualizer, from the first to the last, and names the
    /// visualizer to build.
    pub fn previous_visualizer(&mut self) -> (kind: VisualizerKind)
        ensures
            final(self)@ == old(self)@.applied(ModeIntent::PreviousVisualizer),
            final(self)@.valid(),
            kind == final(self)@.visualizer_kind(),
    {
        proof {
            use_type_invariant(&*self);
        }
        self.active_visualizer_index.decrement();
        VisualizerKind::from_index(self.active_visualizer_index.count())
    }

    /// Carries out a request and says what has to be built anew.
    pub fn apply(&mut self, intent: ModeIntent) -> (change: ModeChange)
        ensures
            final(self)@ == old(self)@.applied(intent),
            final(self)@.valid(),
            change == old(self)@.change(intent),
    {
        match intent {
            ModeIntent::NextNoise => ModeChange::Noise(self.next_noise()),
            ModeIntent::PreviousNoise => ModeChange::Noise(self.previous_noise()),
            ModeIntent::NextVisualizer => ModeChange::Visualizer(self.next_visualizer()),
            ModeIntent::PreviousVisualizer => ModeChange::Visualizer(self.previous_visualizer()),
        }
    }
}

/// Whatever is requested, both indices go on naming a registered variant, and what is built
/// is the variant that the selector then stands at.
pub proof fn lemma_selection_stays_valid(selection: ModeSelection, intents: Seq<ModeIntent>)
    requires
        selection.valid(),
    ensures
        selection.applied_all(intents).valid(),
        intents.len() > 0 ==> {
            let before = selection.applied_all(intents.drop_last());
            let after = selection.applied_all(intents);
            before.change(intents.last()) == ModeChange::Noise(after.noise_kind())
                || before.change(intents.last()) == ModeChange::Visualizer(
                after.visualizer_kind(),
            )
        },
    decreases intents.len(),
{
    if intents.len() > 0 {
        lemma_selection_stays_valid(selection, intents.drop_last());
    }
}

/// A request for the next or previous visualizer leaves the noise generator alone, and a
/// request for the next or previous noise generator leaves the visualizer alone.
pub proof fn lemma_selections_are_independent(selection: ModeSelection, intent: ModeIntent)
    ensures
        intent == ModeIntent::NextNoise || intent == ModeIntent::PreviousNoise
            ==> selection.applied(intent).visualizer_index == selection.visualizer_index,
        intent == ModeIntent::NextVisualizer || intent == ModeIntent::PreviousVisualizer
            ==> selection.applied(intent).noise_index == selection.noise_index,
{
}

/// After `times` requests for the next visualizer the index has moved on by `times`, around
/// the end of the range, and the noise generator is the one it was.
pub proof fn lemma_next_visualizer_repeated(selection: ModeSelection, times: nat)
    requires
        selection.valid(),
    ensures
        selection.applied_all(repeated(ModeIntent::NextVisualizer, times)) == (ModeSelection {
            visualizer_index: (selection.visualizer_index + times) % (VISUALIZER_COUNT as nat),
            ..selection
        }),
    decreases times,
{
    if times > 0 {
        let shorter = (times - 1) as nat;
        lemma_next_visualizer_repeated(selection, shorter);
        assert(repeated(ModeIntent::NextVisualizer, times).drop_last() =~= repeated(
            ModeIntent::NextVisualizer,
            shorter,
        ));
    }
}

/// After `times` requests for the next noise generator the index has moved on by `times`,
/// around the end of the catalog, and the visualizer is the one it was.
pub proof fn lemma_next_noise_repeated(selection: ModeSelection, times: nat)
    requires
        selection.valid(),
    ensures
        selection.applied_all(repeated(ModeIntent::NextNoise, times)) == (ModeSelection {
            noise_index: (selection.noise_index + times) % (NOISE_FN_COUNT as nat),
            ..selection
        }),
    decreases times,
{
    if times > 0 {
        let shorter = (times - 1) as nat;
        lemma_next_noise_repeated(selection, shorter);
        assert(repeated(ModeIntent::NextNoise, times).drop_last() =~= repeated(
            ModeIntent::NextNoise,
            shorter,
        ));
    }
}

/// Asking for the next visualizer once for every registered visualizer leads back to the
/// visualizer that was active, and the last of these requests asks for that visualizer to be
/// built anew.
pub proof fn lemma_visualizer_cycle(selection: ModeSelection)
    requires
        selection.valid(),
    ensures
        selection.applied_all(repeated(ModeIntent::NextVisualizer, VISUALIZER_COUNT as nat))
            == selection,
        selection.applied_all(
            repeated(ModeIntent::NextVisualizer, (VISUALIZER_COUNT - 1) as nat),
        ).change(ModeIntent::NextVisualizer) == ModeChange::Visualizer(
            selection.visualizer_kind(),
        ),
{
    lemma_next_visualizer_repeated(selection, VISUALIZER_COUNT as nat);
    lemma_next_visualizer_repeated(selection, (VISUALIZER_COUNT - 1) as nat);
}

/// Asking for the next noise generator once for every generator of the catalog leads back to
/// the generator that was active, and the last of these requests asks for that generator to
/// be built anew.
pub proof fn lemma_noise_cycle(selection: ModeSelection)
    requires
        selection.valid(),
    ensures
        selection.applied_all(repeated(ModeIntent::NextNoise, NOISE_FN_COUNT as nat))
            == selection,
        selection.applied_all(
            repeated(ModeIntent::NextNoise, (NOISE_FN_COUNT - 1) as nat),
        ).change(ModeIntent::NextNoise) == ModeChange::Noise(selection.noise_kind()),
{
    lemma_next_noise_repeated(selection, NOISE_FN_COUNT as nat);
    lemma_next_noise_repeated(selection, (NOISE_FN_COUNT - 1) as nat);
}

/// A request for the next variant and a request for the previous one undo each other.
pub proof fn lemma_next_and_previous_are_inverse(selection: ModeSelection)
    requires
        selection.valid(),
    ensures
        selection.applied(ModeIntent::NextNoise).applied(ModeIntent::PreviousNoise) == selection,
        selection.applied(ModeIntent::PreviousNoise).applied(ModeIntent::NextNoise) == selection,
        selection.applied(ModeIntent::NextVisualizer).applied(ModeIntent::PreviousVisualizer)
            == selection,
        selection.applied(ModeIntent::PreviousVisualizer).applied(ModeIntent::NextVisualizer)
            == selection,
{
}

} // verus!
