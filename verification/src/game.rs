//! The bookkeeping of the game loop: the states of loading jobs and the
//! timings of the most recent frames.

use std::collections::VecDeque;
use vstd::prelude::*;

verus! {

/// The number of frames whose timings are kept.
pub const FRAMES_TO_TRACK: usize = 80;

/// The state of a loading job.
#[derive(Clone, Copy, PartialEq, Eq, Hash, Debug, Structural)]
pub enum LoadState {
    Idle,
    Loading,
    Applying,
    Finished,
}

/// How long the parts of one frame took, in nanoseconds, and when the frame
/// started and ended.
pub struct FrameTiming {
    pub update_durations: Vec<u64>,
    pub render_duration: u64,
    pub debug_drawing: u64,
    pub render_publish: u64,
    pub timestamp_start: u64,
    pub timestamp_end: u64,
}

/// The timings of the most recent frames, most recent first.
pub struct FrameTimings {
    timings: VecDeque<FrameTiming>,
}

impl View for FrameTimings {
    type V = Seq<FrameTiming>;

    closed spec fn view(&self) -> Seq<FrameTiming> {
        self.timings@
    }
}

/// The timings kept after recording a frame: the new frame first, and at
/// most `FRAMES_TO_TRACK` frames.
pub open spec fn recorded(kept: Seq<FrameTiming>, t: FrameTiming) -> Seq<FrameTiming> {
    let all = seq![t] + kept;
    if all.len() > FRAMES_TO_TRACK {
        all.take(FRAMES_TO_TRACK as int)
    } else {
        all
    }
}

/// The number of updates over some frames.
pub open spec fn total_updates(s: Seq<FrameTiming>) -> nat
    decreases s.len(),
{
    if s.len() == 0 {
        0
    } else {
        total_updates(s.drop_last()) + s.last().update_durations@.len()
    }
}

impl FrameTimings {
    /// At most `FRAMES_TO_TRACK` frames are kept.
    #[verifier::type_invariant]
    closed spec fn bounded(self) -> bool {
        self.timings@.len() <= FRAMES_TO_TRACK
    }

    /// No timings yet.
    pub fn new() -> (r: FrameTimings)
        ensures
            r@ == Seq::<FrameTiming>::empty(),
    {
        FrameTimings { timings: VecDeque::with_capacity(FRAMES_TO_TRACK + 1) }
    }

    /// The number of frames kept.
    pub fn len(&self) -> (r: usize)
        ensures
            r == self@.len(),
            r <= FRAMES_TO_TRACK,
    {
        broadcast use vstd::std_specs::vecdeque::group_vec_dequeue_axioms;

        proof {
            use_type_invariant(self);
        }
        self.timings.len()
    }

    /// Records the timings of a frame, forgetting the oldest frame when more
    /// than `FRAMES_TO_TRACK` would be kept.
    pub fn record(&mut self, timing: FrameTiming)
        ensures
            final(self)@ == recorded(old(self)@, timing),
    {
        broadcast use vstd::std_specs::vecdeque::group_vec_dequeue_axioms;

        proof {
            use_type_invariant(&*self);
        }
        let ghost all = seq![timing] + self.timings@;
        let mut timings = VecDeque::new();
        std::mem::swap(&mut timings, &mut self.timings);
        timings.push_front(timing);
        if timings.len() > FRAMES_TO_TRACK {
            timings.pop_back();
            assert(timings@ =~= all.take(FRAMES_TO_TRACK as int));
        }
        self.timings = timings;
    }

    /// The total number of updates over the frames kept.
    pub fn update_count(&self) -> (r: u128)
        ensures
            r == total_updates(self@),
    {
        broadcast use vstd::std_specs::vecdeque::group_vec_dequeue_axioms;

        proof {
            use_type_invariant(self);
        }
        let n = self.timings.len();
        let mut total: u128 = 0;
        let mut i: usize = 0;
        while i < n
            invariant
                i <= n,
                n == self@.len(),
                n <= FRAMES_TO_TRACK,
                total == total_updates(self@.take(i as int)),
                total <= i * 0x1_0000_0000_0000_0000,
            decreases n - i,
        {
            assert(self@.take(i + 1).drop_last() =~= self@.take(i as int));
            let k = self.timings[i].update_durations.len();
            total = total + k as u128;
            i = i + 1;
        }
        assert(self@.take(n as int) =~= self@);
        total
    }

    /// The timings of the frame recorded `i` frames before the most recent
    /// one.
    pub fn get(&self, i: usize) -> (r: &FrameTiming)
        requires
            i < self@.len(),
        ensures
            *r == self@[i as int],
    {
        broadcast use vstd::std_specs::vecdeque::group_vec_dequeue_axioms;

        &self.timings[i]
    }

    /// When the oldest frame kept started and when the most recent one
    /// ended, if any frame is kept.
    pub fn time_span(&self) -> (r: Option<(u64, u64)>)
        ensures
            self@.len() == 0 ==> r is None,
            self@.len() > 0 ==> r == Some((self@.last().timestamp_start, self@[0].timestamp_end)),
    {
        broadcast use vstd::std_specs::vecdeque::group_vec_dequeue_axioms;

        let n = self.timings.len();
        if n == 0 {
            None
        } else {
            Some((self.timings[n - 1].timestamp_start, self.timings[0].timestamp_end))
        }
    }
}

/// After any number of recorded frames at most `FRAMES_TO_TRACK` are kept,
/// the newest first, and every kept frame was recorded later than the ones
/// behind it.
pub proof fn lemma_recorded_keeps_recent(kept: Seq<FrameTiming>, t: FrameTiming)
    ensures
        recorded(kept, t).len() <= FRAMES_TO_TRACK || recorded(kept, t).len() == kept.len() + 1,
        kept.len() <= FRAMES_TO_TRACK ==> recorded(kept, t).len() <= FRAMES_TO_TRACK,
        recorded(kept, t)[0] == t,
        forall|i: int| 1 <= i < recorded(kept, t).len() ==> #[trigger] recorded(kept, t)[i] == kept[i - 1],
{
}

/// The progress of the loading jobs of a game, as `GameRunner::do_load`
/// reports it to `Game::draw_loading_screen`.
///
/// Each job has a description and a state.  A job that does part of its work
/// asynchronously counts for two steps of progress (loading, then applying);
/// a job that works synchronously counts for one.  Beginning to apply a job's
/// result and finishing it each advance the progress by one step.
pub struct LoadProgress {
    states: Vec<(String, LoadState)>,
    current: usize,
    total: usize,
}

/// The number of asynchronous jobs among some.
pub open spec fn async_count(is_async: Seq<bool>) -> nat
    decreases is_async.len(),
{
    if is_async.len() == 0 {
        0
    } else {
        async_count(is_async.drop_last()) + if is_async.last() {
            1nat
        } else {
            0nat
        }
    }
}

/// The progress steps that a job in a given state has made.
pub open spec fn steps_made(state: LoadState) -> nat {
    match state {
        LoadState::Applying => 1,
        LoadState::Finished => 2,
        _ => 0,
    }
}

/// The progress steps made by jobs in some states.
pub open spec fn total_steps_made(states: Seq<LoadState>) -> nat
    decreases states.len(),
{
    if states.len() == 0 {
        0
    } else {
        total_steps_made(states.drop_last()) + steps_made(states.last())
    }
}

proof fn lemma_async_count_bound(s: Seq<bool>)
    ensures
        async_count(s) <= s.len(),
    decreases s.len(),
{
    if s.len() > 0 {
        lemma_async_count_bound(s.drop_last());
    }
}

proof fn lemma_steps_update(states: Seq<LoadState>, i: int, st: LoadState)
    requires
        0 <= i < states.len(),
    ensures
        total_steps_made(states.update(i, st)) + steps_made(states[i]) == total_steps_made(states)
            + steps_made(st),
    decreases states.len(),
{
    let t = states.update(i, st);
    if i == states.len() - 1 {
        assert(t.drop_last() =~= states.drop_last());
    } else {
        assert(t.drop_last() =~= states.drop_last().update(i, st));
        lemma_steps_update(states.drop_last(), i, st);
    }
}

proof fn lemma_steps_bound(states: Seq<LoadState>)
    ensures
        total_steps_made(states) <= 2 * states.len(),
    decreases states.len(),
{
    if states.len() > 0 {
        lemma_steps_bound(states.drop_last());
    }
}

proof fn lemma_all_idle(states: Seq<LoadState>)
    requires
        forall|i: int| 0 <= i < states.len() ==> #[trigger] states[i] == LoadState::Idle,
    ensures
        total_steps_made(states) == 0,
    decreases states.len(),
{
    if states.len() > 0 {
        lemma_all_idle(states.drop_last());
    }
}

/// When every job is finished, every job has made its two steps.
pub proof fn lemma_all_finished(states: Seq<LoadState>)
    requires
        forall|i: int| 0 <= i < states.len() ==> #[trigger] states[i] == LoadState::Finished,
    ensures
        total_steps_made(states) == 2 * states.len(),
    decreases states.len(),
{
    if states.len() > 0 {
        lemma_all_finished(states.drop_last());
    }
}

impl LoadProgress {
    /// The states of the jobs, in the order they were added.
    pub closed spec fn states(&self) -> Seq<LoadState> {
        Seq::new(self.states@.len(), |i: int| self.states@[i].1)
    }

    /// The descriptions of the jobs.
    pub closed spec fn descriptions(&self) -> Seq<Seq<char>> {
        Seq::new(self.states@.len(), |i: int| self.states@[i].0@)
    }

    /// The progress made so far.
    pub closed spec fn current_spec(&self) -> nat {
        self.current as nat
    }

    /// The progress at which loading counts as complete.
    pub closed spec fn total_spec(&self) -> nat {
        self.total as nat
    }

    /// The progress made is the sum of the steps that the jobs made.
    pub closed spec fn wf(&self) -> bool {
        &&& self.current as nat == total_steps_made(self.states())
        &&& self.states@.len() <= usize::MAX / 2
    }

    /// The progress of jobs with the given descriptions, all idle;
    /// `is_async` tells which jobs do part of their work asynchronously.
    pub fn new(descriptions: Vec<String>, is_async: Vec<bool>) -> (r: LoadProgress)
        requires
            descriptions@.len() == is_async@.len(),
            descriptions@.len() <= usize::MAX / 2,
        ensures
            r.wf(),
            r.descriptions() == descriptions@.map_values(|d: String| d@),
            r.states() == Seq::new(descriptions@.len(), |i: int| LoadState::Idle),
            r.current_spec() == 0,
            r.total_spec() == descriptions@.len() + async_count(is_async@),
    {
        let n = descriptions.len();
        let mut n_async: usize = 0;
        let mut i: usize = 0;
        while i < n
            invariant
                i <= n,
                n == is_async@.len(),
                n <= usize::MAX / 2,
                n_async == async_count(is_async@.take(i as int)),
                n_async <= i,
            decreases n - i,
        {
            assert(is_async@.take(i + 1).drop_last() =~= is_async@.take(i as int));
            if is_async[i] {
                n_async = n_async + 1;
            }
            i = i + 1;
        }
        assert(is_async@.take(n as int) =~= is_async@);

        let mut states: Vec<(String, LoadState)> = Vec::new();
        let mut descriptions = descriptions;
        let ghost descs = descriptions@;
        let mut pending: Vec<(String, LoadState)> = Vec::new();
        while descriptions.len() > 0
            invariant
                descriptions@ == descs.take(descriptions@.len() as int),
                descriptions@.len() <= n,
                n == descs.len(),
                pending@.len() == n - descriptions@.len(),
                forall|j: int| 0 <= j < pending@.len() ==> #[trigger] pending@[j] == (descs[n - 1 - j], LoadState::Idle),
            decreases descriptions@.len(),
        {
            let ghost k = descriptions@.len();
            let d = descriptions.pop().unwrap();
            proof {
                assert(d == descs[k - 1]);
            }
            pending.push((d, LoadState::Idle));
            proof {
                assert(descriptions@ =~= descs.take(descriptions@.len() as int));
            }
        }
        while pending.len() > 0
            invariant
                pending@.len() + states@.len() == n,
                n == descs.len(),
                forall|j: int| 0 <= j < pending@.len() ==> #[trigger] pending@[j] == (descs[n - 1 - j], LoadState::Idle),
                forall|j: int| 0 <= j < states@.len() ==> #[trigger] states@[j] == (descs[j], LoadState::Idle),
            decreases pending@.len(),
        {
            let ghost before = pending@;
            let e = pending.pop().unwrap();
            proof {
                assert(e == before[before.len() - 1]);
                assert forall|j: int| 0 <= j < pending@.len() implies #[trigger] pending@[j] == (descs[n - 1 - j], LoadState::Idle) by {
                    assert(pending@[j] == before[j]);
                }
            }
            states.push(e);
        }
        let r = LoadProgress { states, current: 0, total: n + n_async };
        proof {
            assert(r.states() =~= Seq::new(n as nat, |i: int| LoadState::Idle));
            assert(r.descriptions() =~= descs.map_values(|d: String| d@));
            lemma_all_idle(r.states());
        }
        r
    }

    /// The progress made so far and the progress at which loading is
    /// complete.
    pub fn progress(&self) -> (r: (usize, usize))
        ensures
            r.0 == self.current_spec(),
            r.1 == self.total_spec(),
    {
        (self.current, self.total)
    }

    /// The number of jobs.
    pub fn len(&self) -> (r: usize)
        ensures
            r == self.states().len(),
    {
        self.states.len()
    }

    /// The description and the state of the job at `idx`.
    pub fn get(&self, idx: usize) -> (r: (&str, LoadState))
        requires
            idx < self.states().len(),
        ensures
            r.0@ == self.descriptions()[idx as int],
            r.1 == self.states()[idx as int],
    {
        (self.states[idx].0.as_str(), self.states[idx].1)
    }

    fn set_state(&mut self, idx: usize, state: LoadState)
        requires
            old(self).wf(),
            idx < old(self).states().len(),
            steps_made(old(self).states()[idx as int]) <= steps_made(state),
            steps_made(state) <= steps_made(old(self).states()[idx as int]) + 1,
        ensures
            final(self).wf(),
            final(self).states() == old(self).states().update(idx as int, state),
            final(self).descriptions() == old(self).descriptions(),
            final(self).total_spec() == old(self).total_spec(),
            final(self).current_spec() == old(self).current_spec() + steps_made(state) - steps_made(
                old(self).states()[idx as int],
            ),
    {
        proof {
            lemma_steps_update(self.states(), idx as int, state);
            lemma_steps_bound(self.states());
            lemma_steps_bound(self.states().update(idx as int, state));
        }
        let advance = steps_made_exec(state) - steps_made_exec(self.states[idx].1);
        let ghost old_states = old(self).states();
        let (d, _) = self.states.remove(idx);
        self.states.insert(idx, (d, state));
        self.current = self.current + advance;
        proof {
            assert(self.states() =~= old_states.update(idx as int, state));
            assert(self.descriptions() =~= old(self).descriptions());
        }
    }

    /// Marks the job at `idx` as loading in the background.
    pub fn start_loading(&mut self, idx: usize)
        requires
            old(self).wf(),
            idx < old(self).states().len(),
            old(self).states()[idx as int] == LoadState::Idle,
        ensures
            final(self).wf(),
            final(self).states() == old(self).states().update(idx as int, LoadState::Loading),
            final(self).descriptions() == old(self).descriptions(),
            final(self).current_spec() == old(self).current_spec(),
            final(self).total_spec() == old(self).total_spec(),
    {
        self.set_state(idx, LoadState::Loading);
    }

    /// Marks the job at `idx` as applying its result, one step of progress.
    pub fn begin_apply(&mut self, idx: usize)
        requires
            old(self).wf(),
            idx < old(self).states().len(),
            old(self).states()[idx as int] == LoadState::Idle || old(self).states()[idx as int]
                == LoadState::Loading,
        ensures
            final(self).wf(),
            final(self).states() == old(self).states().update(idx as int, LoadState::Applying),
            final(self).descriptions() == old(self).descriptions(),
            final(self).current_spec() == old(self).current_spec() + 1,
            final(self).total_spec() == old(self).total_spec(),
    {
        self.set_state(idx, LoadState::Applying);
    }

    /// Marks the job at `idx` as finished, one more step of progress.
    pub fn finish(&mut self, idx: usize)
        requires
            old(self).wf(),
            idx < old(self).states().len(),
            old(self).states()[idx as int] == LoadState::Applying,
        ensures
            final(self).wf(),
            final(self).states() == old(self).states().update(idx as int, LoadState::Finished),
            final(self).descriptions() == old(self).descriptions(),
            final(self).current_spec() == old(self).current_spec() + 1,
            final(self).total_spec() == old(self).total_spec(),
    {
        self.set_state(idx, LoadState::Finished);
    }
}

/// The number of progress steps a job in this state has made.
fn steps_made_exec(state: LoadState) -> (r: usize)
    ensures
        r == steps_made(state),
{
    match state {
        LoadState::Applying => 1,
        LoadState::Finished => 2,
        _ => 0,
    }
}

/// The progress made always equals the steps the jobs made, so when every
/// job has finished the progress is twice the number of jobs; this equals
/// the total exactly when every job was asynchronous.
pub proof fn lemma_finished_progress(states: Seq<LoadState>, is_async: Seq<bool>)
    requires
        states.len() == is_async.len(),
        forall|i: int| 0 <= i < states.len() ==> #[trigger] states[i] == LoadState::Finished,
    ensures
        total_steps_made(states) == 2 * states.len(),
        total_steps_made(states) == states.len() + async_count(is_async) <==> async_count(is_async)
            == is_async.len(),
{
    lemma_all_finished(states);
    lemma_async_count_bound(is_async);
}

} // verus!
