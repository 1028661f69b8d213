//! Adapter preference and the device that is created from the selected adapter.

use vstd::prelude::*;

verus! {

/// Which adapter the enumeration should list first.
#[derive(Clone, Copy, Debug, PartialEq, Eq, Structural)]
pub enum AdapterKind {
    /// The system chooses the order.
    Unspecified,
    /// Prefer the adapter with the lowest power consumption.
    MinimumPower,
    /// Prefer the adapter with the highest performance.
    HighPerformance,
}

impl AdapterKind {
    /// The DXGI GPU-preference code that stands for this kind.
    pub open spec fn code(self) -> int {
        match self {
            AdapterKind::Unspecified => 0,
            AdapterKind::MinimumPower => 1,
            AdapterKind::HighPerformance => 2,
        }
    }

    /// Maps the kind to the value that the enumeration call takes as its
    /// GPU preference.
    pub fn map_to_dxgi(&self) -> (preference: i32)
        ensures
            preference == self.code(),
    {
        match self {
            AdapterKind::Unspecified => 0,
            AdapterKind::MinimumPower => 1,
            AdapterKind::HighPerformance => 2,
        }
    }
}

/// Flag bit of an adapter that renders in software.
pub const ADAPTER_FLAG_SOFTWARE: u32 = 2;

/// Result code of an enumeration that has no adapter at the index asked for.
pub const NOT_FOUND: i32 = -2005270526;

/// Whether the flags of an adapter say that it renders in software.
pub open spec fn is_software(flags: u32) -> bool {
    flags & ADAPTER_FLAG_SOFTWARE != 0
}

/// What the search asks of the factory.
#[derive(Clone, Copy, Debug, PartialEq, Eq, Structural)]
pub enum Probe {
    /// The adapter at `index` of the enumeration in preference order.
    Enumerate { index: u32, preference: i32 },
    /// The software rasterizer.
    Warp,
}

/// What the factory answered to a probe.
#[derive(Clone, Copy, Debug, PartialEq, Eq, Structural)]
pub enum Probed {
    /// There is an adapter, and its description has these flags.
    Adapter { flags: u32 },
    /// The factory has no such adapter.
    Missing { code: i32 },
    /// There is an adapter, but it could not be described.
    Failed { code: i32 },
}

/// The adapter that the device is created on.
#[derive(Clone, Copy, Debug, PartialEq, Eq, Structural)]
pub enum Selection {
    /// The hardware adapter at `index` of the enumeration.
    Hardware { index: u32 },
    /// The software rasterizer, for want of a hardware adapter.
    Warp,
}

/// Why no adapter was selected. Either is fatal: there is nothing to retry.
#[derive(Clone, Copy, Debug, PartialEq, Eq, Structural)]
pub enum SelectError {
    /// There is no hardware adapter, and the software rasterizer is not
    /// available either.
    NoAdapter { code: i32 },
    /// An adapter of the enumeration could not be described.
    Undescribed { code: i32 },
}

/// Where a search for an adapter stands.
#[derive(Clone, Copy, Debug, PartialEq, Eq, Structural)]
pub enum Stage {
    /// The adapters before `index` render in software; `index` is next.
    Enumerating { index: u32 },
    /// The enumeration has no hardware adapter; the software rasterizer is
    /// next.
    FallingBack,
    /// The search has ended with an adapter.
    Selected { selection: Selection },
    /// The search has ended without one.
    Failed { error: SelectError },
}

/// A search for the first hardware adapter in preference order, with the
/// software rasterizer to fall back on. The search decides which adapter to
/// ask for; the shell asks the factory and reports the answer.
#[derive(Clone, Copy, Debug, PartialEq, Eq, Structural)]
pub struct AdapterSearch {
    pub prefer: AdapterKind,
    pub stage: Stage,
}

impl Stage {
    /// The stage that follows when the factory answers `answer`.
    pub open spec fn next(self, answer: Probed) -> Stage {
        match self {
            Stage::Enumerating { index } => match answer {
                Probed::Adapter { flags } => if !is_software(flags) {
                    Stage::Selected { selection: Selection::Hardware { index } }
                } else if index < u32::MAX {
                    Stage::Enumerating { index: (index + 1) as u32 }
                } else {
                    Stage::FallingBack
                },
                Probed::Missing { code } => Stage::FallingBack,
                Probed::Failed { code } => Stage::Failed {
                    error: SelectError::Undescribed { code },
                },
            },
            Stage::FallingBack => match answer {
                Probed::Adapter { flags } => Stage::Selected { selection: Selection::Warp },
                Probed::Missing { code } => Stage::Failed { error: SelectError::NoAdapter { code } },
                Probed::Failed { code } => Stage::Failed { error: SelectError::NoAdapter { code } },
            },
            Stage::Selected { selection } => self,
            Stage::Failed { error } => self,
        }
    }

    /// How the search ended, if it has.
    pub open spec fn verdict(self) -> Option<Result<Selection, SelectError>> {
        match self {
            Stage::Selected { selection } => Some(Ok(selection)),
            Stage::Failed { error } => Some(Err(error)),
            _ => None,
        }
    }
}

impl AdapterSearch {
    /// What is asked of the factory at this stage, if the search goes on.
    pub open spec fn question(self) -> Option<Probe> {
        match self.stage {
            Stage::Enumerating { index } => Some(
                Probe::Enumerate { index, preference: self.prefer.code() as i32 },
            ),
            Stage::FallingBack => Some(Probe::Warp),
            _ => None,
        }
    }

    /// A search that begins at the head of the enumeration.
    pub fn new(prefer: AdapterKind) -> (search: AdapterSearch)
        ensures
            search == (AdapterSearch { prefer, stage: Stage::Enumerating { index: 0 } }),
    {
        AdapterSearch { prefer, stage: Stage::Enumerating { index: 0 } }
    }

    /// What the shell is to ask the factory now; nothing when the search
    /// has ended.
    pub fn probe(&self) -> (probe: Option<Probe>)
        ensures
            probe == self.question(),
    {
        match self.stage {
            Stage::Enumerating { index } => Some(
                Probe::Enumerate { index, preference: self.prefer.map_to_dxgi() },
            ),
            Stage::FallingBack => Some(Probe::Warp),
            _ => None,
        }
    }

    /// Takes the factory's answer to the probe. A hardware adapter ends the
    /// search; a software adapter moves it to the next index; the end of
    /// the enumeration moves it to the software rasterizer; and when that
    /// is missing too the search fails.
    pub fn observe(&mut self, answer: Probed)
        ensures
            final(self).prefer == old(self).prefer,
            final(self).stage == old(self).stage.next(answer),
    {
        let stage: Stage = match self.stage {
            Stage::Enumerating { index } => match answer {
                Probed::Adapter { flags } => if flags & ADAPTER_FLAG_SOFTWARE == 0 {
                    Stage::Selected { selection: Selection::Hardware { index } }
                } else if index < u32::MAX {
                    Stage::Enumerating { index: index + 1 }
                } else {
                    Stage::FallingBack
                },
                Probed::Missing { code } => Stage::FallingBack,
                Probed::Failed { code } => Stage::Failed {
                    error: SelectError::Undescribed { code },
                },
            },
            Stage::FallingBack => match answer {
                Probed::Adapter { flags } => Stage::Selected { selection: Selection::Warp },
                Probed::Missing { code } => Stage::Failed { error: SelectError::NoAdapter { code } },
                Probed::Failed { code } => Stage::Failed { error: SelectError::NoAdapter { code } },
            },
            Stage::Selected { selection } => Stage::Selected { selection },
            Stage::Failed { error } => Stage::Failed { error },
        };
        self.stage = stage;
    }

    /// How the search ended, if it has.
    pub fn outcome(&self) -> (outcome: Option<Result<Selection, SelectError>>)
        ensures
            outcome == self.stage.verdict(),
    {
        match self.stage {
            Stage::Selected { selection } => Some(Ok(selection)),
            Stage::Failed { error } => Some(Err(error)),
            _ => None,
        }
    }
}

/// What the factory answers for the adapter at `index`, when `answers` holds
/// its answers for the head of the enumeration: past the end there is no
/// adapter.
pub open spec fn answer_at(answers: Seq<Probed>, index: int) -> Probed {
    if 0 <= index < answers.len() {
        answers[index]
    } else {
        Probed::Missing { code: NOT_FOUND }
    }
}

/// Whether the enumeration goes on after this answer: it does after a
/// software adapter, and after nothing else.
pub open spec fn passes_over(answer: Probed) -> bool {
    answer matches Probed::Adapter { flags } && is_software(flags)
}

/// What the software rasterizer is taken for when the enumeration has no
/// hardware adapter.
pub open spec fn fallback(warp: Probed) -> Result<Selection, SelectError> {
    match warp {
        Probed::Adapter { flags } => Ok(Selection::Warp),
        Probed::Missing { code } => Err(SelectError::NoAdapter { code }),
        Probed::Failed { code } => Err(SelectError::NoAdapter { code }),
    }
}

/// The index at which a search that has reached `from` stops: the first
/// index from there on whose answer is not a software adapter. No index
/// beyond the largest `u32` is ever asked for.
pub open spec fn stop_from(answers: Seq<Probed>, from: int) -> int
    decreases answers.len() - from,
{
    if 0 <= from < answers.len() && from <= u32::MAX && passes_over(answers[from]) {
        stop_from(answers, from + 1)
    } else {
        from
    }
}

/// The adapter that is selected when the search stops at `index` of the
/// enumeration: the one found there if it is a hardware adapter, else the
/// software rasterizer.
pub open spec fn selected_at(answers: Seq<Probed>, warp: Probed, index: int) -> Result<
    Selection,
    SelectError,
> {
    if index > u32::MAX {
        fallback(warp)
    } else {
        match answer_at(answers, index) {
            Probed::Adapter { flags } => if is_software(flags) {
                fallback(warp)
            } else {
                Ok(Selection::Hardware { index: index as u32 })
            },
            Probed::Missing { code } => fallback(warp),
            Probed::Failed { code } => Err(SelectError::Undescribed { code }),
        }
    }
}

/// The adapter that is selected from the factory's answers.
pub open spec fn selected(answers: Seq<Probed>, warp: Probed) -> Result<Selection, SelectError> {
    selected_at(answers, warp, stop_from(answers, 0))
}

/// The search stops at the first index whose answer is not a software
/// adapter: every adapter before it renders in software, and the answer at
/// it, if it was asked for, is something else.
pub proof fn law_search_stops_at_the_first_other_answer(answers: Seq<Probed>, from: int)
    requires
        0 <= from,
    ensures
        from <= stop_from(answers, from),
        stop_from(answers, from) <= answers.len() || stop_from(answers, from) == from,
        stop_from(answers, from) <= u32::MAX + 1 || stop_from(answers, from) == from,
        forall|i: int| from <= i < stop_from(answers, from) ==> passes_over(#[trigger] answers[i]),
        stop_from(answers, from) <= u32::MAX ==> !passes_over(
            answer_at(answers, stop_from(answers, from)),
        ),
    decreases answers.len() - from,
{
    if from < answers.len() && from <= u32::MAX && passes_over(answers[from]) {
        law_search_stops_at_the_first_other_answer(answers, from + 1);
    }
}

/// A hardware adapter is selected only if it is the first answer of the
/// enumeration that is not a software adapter. The software rasterizer is
/// selected only if it is available and the enumeration ran out, at its end
/// or at the largest index, with nothing but software adapters before.
/// The selection fails for want of an adapter only if the software
/// rasterizer is not available.
pub proof fn law_selection_prefers_the_first_hardware_adapter(answers: Seq<Probed>, warp: Probed)
    ensures
        selected(answers, warp) matches Ok(Selection::Hardware { index }) ==> {
            &&& index < answers.len()
            &&& index == stop_from(answers, 0)
            &&& answers[index as int] matches Probed::Adapter { flags } && !is_software(flags)
            &&& forall|i: int| 0 <= i < index ==> passes_over(#[trigger] answers[i])
        },
        selected(answers, warp) == Ok::<Selection, SelectError>(Selection::Warp) ==> {
            &&& warp is Adapter
            &&& stop_from(answers, 0) > u32::MAX || answer_at(answers, stop_from(answers, 0))
                is Missing
            &&& forall|i: int|
                0 <= i < stop_from(answers, 0) ==> passes_over(#[trigger] answers[i])
        },
        selected(answers, warp) matches Err(SelectError::NoAdapter { code }) ==> !(warp is Adapter),
{
    law_search_stops_at_the_first_other_answer(answers, 0);
}

/// Selects the adapter from what the factory answers: `answers` for the
/// adapters of the enumeration in preference order, from index 0 on, and
/// `warp` for the software rasterizer.
///
/// The result is the first adapter of the enumeration that does not render
/// in software. When the enumeration ends before one is found, it is the
/// software rasterizer, and without that the selection fails. An adapter
/// that could not be described ends the selection with a failure.
pub fn select_adapter(prefer: &AdapterKind, answers: &Vec<Probed>, warp: Probed) -> (result: Result<
    Selection,
    SelectError,
>)
    ensures
        result == selected(answers@, warp),
{
    let mut search: AdapterSearch = AdapterSearch::new(*prefer);
    loop
        invariant
            search.prefer == *prefer,
            match search.stage {
                Stage::Enumerating { index } => selected(answers@, warp) == selected_at(
                    answers@,
                    warp,
                    stop_from(answers@, index as int),
                ),
                Stage::FallingBack => selected(answers@, warp) == fallback(warp),
                Stage::Selected { selection } => selected(answers@, warp) == Ok::<
                    Selection,
                    SelectError,
                >(selection),
                Stage::Failed { error } => selected(answers@, warp) == Err::<
                    Selection,
                    SelectError,
                >(error),
            },
        ensures
            search.stage.verdict() is Some,
            search.stage.verdict() == Some(selected(answers@, warp)),
        decreases
            match search.stage {
                Stage::Enumerating { index } => 2 + (u32::MAX - index),
                Stage::FallingBack => 1,
                _ => 0,
            },
    {
        match search.probe() {
            None => {
                break ;
            },
            Some(Probe::Warp) => {
                search.observe(warp);
            },
            Some(Probe::Enumerate { index, preference }) => {
                let answer: Probed = if (index as usize) < answers.len() {
                    answers[index as usize]
                } else {
                    Probed::Missing { code: NOT_FOUND }
                };
                proof {
                    let here = index as int;
                    assert(answer == answer_at(answers@, here));
                    if here < answers@.len() && passes_over(answers@[here]) {
                        assert(stop_from(answers@, here) == stop_from(answers@, here + 1));
                        if index == u32::MAX {
                            assert(stop_from(answers@, here + 1) == here + 1);
                        }
                    } else {
                        assert(stop_from(answers@, here) == here);
                    }
                }
                search.observe(answer);
            },
        }
    }
    match search.outcome() {
        Some(result) => result,
        None => Err(SelectError::NoAdapter { code: NOT_FOUND }),
    }
}

/// Feature level that the device is created for: 11.0, and no other.
pub const FEATURE_LEVEL: u32 = 0xb000;

/// The logical device with its immediate context, created once from the
/// selected adapter.
#[derive(Clone, Copy, Debug, PartialEq, Eq, Structural)]
pub struct Adapter {
    /// Whether the validation layer was asked for: in debug builds only.
    pub debug_layer: bool,
}

impl Adapter {
    pub fn new(debug: bool) -> (adapter: Adapter)
        ensures
            adapter == (Adapter { debug_layer: debug }),
    {
        Adapter { debug_layer: debug }
    }
}

} // verus!
