//! A progress snapshot shared between the side that receives progress
//! reports and the side that draws them.
use vstd::prelude::*;

verus! {

/// Progress state together with a flag saying whether it changed since the
/// drawing side last took a snapshot.
///
/// The reporting side calls [`SharedProgress::apply`]; the drawing side calls
/// [`SharedProgress::read_if_dirty`] once per tick to pick up the latest
/// state, or [`SharedProgress::read`] to take it regardless.
pub struct SharedProgress<State> {
    state: State,
    /// The flag, and (as a ghost record) what each update since the last
    /// snapshot returned about whether it changed the state.
    flag: (bool, Ghost<Seq<bool>>),
}

impl<State> SharedProgress<State> {
    #[verifier::type_invariant]
    spec fn flag_records_changes(self) -> bool {
        self.flag.0 == self.flag.1@.contains(true)
    }
}

impl<State: Clone> SharedProgress<State> {
    /// The state held.
    pub closed spec fn current(self) -> State {
        self.state
    }

    /// Whether the state changed since the last snapshot was taken.
    pub closed spec fn is_dirty(self) -> bool {
        self.flag.0
    }

    /// What each update since the last snapshot (or since the start)
    /// returned about whether it changed the state, in order.
    pub closed spec fn pending(self) -> Seq<bool> {
        self.flag.1@
    }

    /// Starts from `initial`, with nothing new to report.
    pub fn new(initial: State) -> (r: Self)
        ensures
            r.current() == initial,
            !r.is_dirty(),
            r.pending() == Seq::<bool>::empty(),
    {
        SharedProgress { state: initial, flag: (false, Ghost(Seq::empty())) }
    }

    /// Runs `update` on the state. `update` returns the new state and whether
    /// it changed in a way worth drawing; only then is the state flagged as
    /// new. A `false` answer keeps the new state and leaves the flag as it
    /// was.
    pub fn apply<F: FnOnce(&State) -> (State, bool)>(&mut self, update: F)
        requires
            call_requires(update, (&old(self).current(),)),
        ensures
            exists|r: (State, bool)|
                {
                    &&& call_ensures(update, (&old(self).current(),), r)
                    &&& (final(self).current(), final(self).pending()) == after_update(
                        (old(self).current(), old(self).pending()),
                        r,
                    )
                    &&& final(self).is_dirty() == (old(self).is_dirty() || r.1)
                },
    {
        proof {
            use_type_invariant(&*self);
        }
        let result = update(&self.state);
        let ghost answer = result;
        let (next, changed) = result;
        self.state = next;
        let ghost pending = self.flag.1@.push(changed);
        assert(pending.contains(true) == (self.flag.0 || changed)) by {
            if changed {
                assert(pending[pending.len() - 1] == true);
            }
            if self.flag.1@.contains(true) {
                let i = choose|i: int| 0 <= i < self.flag.1@.len() && self.flag.1@[i] == true;
                assert(pending[i] == true);
            }
            if pending.contains(true) {
                let i = choose|i: int| 0 <= i < pending.len() && pending[i] == true;
                if i < self.flag.1@.len() {
                    assert(self.flag.1@[i] == true);
                }
            }
        }
        self.flag = (self.flag.0 || changed, Ghost(pending));
        assert(call_ensures(update, (&old(self).current(),), answer));
        assert(self.current() == answer.0);
        assert(self.pending() == old(self).pending().push(answer.1));
        assert((self.current(), self.pending()) == after_update(
            (old(self).current(), old(self).pending()),
            answer,
        ));
        assert(self.is_dirty() == (old(self).is_dirty() || answer.1));
    }

    /// Takes a snapshot when some update since the last snapshot reported a
    /// change, and starts a new record; `None` when none did.
    pub fn read_if_dirty(&mut self) -> (r: Option<State>)
        ensures
            final(self).current() == old(self).current(),
            !final(self).is_dirty(),
            final(self).pending() == Seq::<bool>::empty(),
            match r {
                Some(s) => old(self).pending().contains(true) && cloned(old(self).current(), s),
                None => !old(self).pending().contains(true),
            },
            r is Some <==> old(self).is_dirty(),
    {
        proof {
            use_type_invariant(&*self);
        }
        if self.flag.0 {
            self.flag = (false, Ghost(Seq::empty()));
            Some(self.state.clone())
        } else {
            self.flag = (false, Ghost(Seq::empty()));
            None
        }
    }

    /// Takes a snapshot, whether or not the state changed. It borrows the
    /// progress without changing it: the state, the flag and the record of
    /// answers stay as they were, so a `read_if_dirty` after it answers as
    /// it would have before it.
    pub fn read(&self) -> (r: State)
        ensures
            cloned(self.current(), r),
    {
        self.state.clone()
    }
}

/// One update's effect on the state and the record of answers: the state
/// becomes what the update returned, and its answer joins the record.
pub open spec fn after_update<State>(before: (State, Seq<bool>), answer: (State, bool)) -> (
    State,
    Seq<bool>,
) {
    (answer.0, before.1.push(answer.1))
}

/// The effect of updates that returned `answers`, in order.
pub open spec fn after_updates<State>(before: (State, Seq<bool>), answers: Seq<(State, bool)>) -> (
    State,
    Seq<bool>,
)
    decreases answers.len(),
{
    if answers.len() == 0 {
        before
    } else {
        after_update(after_updates(before, answers.drop_last()), answers.last())
    }
}

/// After updates that returned `answers`, starting from state `start` with
/// nothing to report (as after `new` or `read_if_dirty`): the state is the
/// one the last update returned (`start` if there was none), the record
/// holds the answers in order, and so the next `read_if_dirty` offers a
/// snapshot exactly when some update answered that it changed the state.
pub proof fn lemma_updates_since_snapshot<State>(start: State, answers: Seq<(State, bool)>)
    ensures
        after_updates((start, Seq::<bool>::empty()), answers).0 == (if answers.len() == 0 {
            start
        } else {
            answers.last().0
        }),
        after_updates((start, Seq::<bool>::empty()), answers).1 == answers.map_values(
            |a: (State, bool)| a.1,
        ),
        after_updates((start, Seq::<bool>::empty()), answers).1.contains(true) <==> exists|i: int|
            0 <= i < answers.len() && (#[trigger] answers[i]).1,
    decreases answers.len(),
{
    let record = after_updates((start, Seq::<bool>::empty()), answers).1;
    let flags = answers.map_values(|a: (State, bool)| a.1);
    if answers.len() > 0 {
        lemma_updates_since_snapshot(start, answers.drop_last());
        assert(answers.drop_last().map_values(|a: (State, bool)| a.1) =~= flags.drop_last());
        assert(record =~= flags);
    } else {
        assert(record =~= flags);
    }
    if record.contains(true) {
        let i = choose|i: int| 0 <= i < record.len() && record[i] == true;
        assert(answers[i].1);
    }
    if exists|i: int| 0 <= i < answers.len() && (#[trigger] answers[i]).1 {
        let i = choose|i: int| 0 <= i < answers.len() && (#[trigger] answers[i]).1;
        assert(record[i] == true);
    }
}

} // verus!
