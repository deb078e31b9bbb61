//! The generic runtime: a model trait, a shareable handle holding the
//! committed state together with the FIFO queue of pending actions, and the
//! update step that drains the queue one action at a time.

use vstd::prelude::*;

verus! {

/// Trait representing a model in the Elm style: a state type together with a
/// pure, total transition function over its actions.
pub trait TeaModel: Sized {
    /// The type of actions that can be processed by this model.
    type Action;

    /// The declared initial state of the model.
    spec fn spec_init() -> Self;

    /// The mathematical transition function: the state that applying `action`
    /// to `self` commits. It is total: every (state, action) pair yields a
    /// state, invalid requests included.
    spec fn spec_update(self, action: Self::Action) -> Self;

    /// Produces the initial state.
    fn init() -> (s: Self)
        ensures
            s == Self::spec_init(),
    ;

    /// Updates the model state based on the provided action.
    fn update(&mut self, action: Self::Action)
        ensures
            *final(self) == (*old(self)).spec_update(action),
    ;
}

/// The state reached by applying `actions` to `s` in order, oldest first:
/// the left fold of the transition function over the action sequence.
pub open spec fn fold_actions<T: TeaModel>(s: T, actions: Seq<T::Action>) -> T
    decreases actions.len(),
{
    if actions.len() == 0 {
        s
    } else {
        fold_actions(s.spec_update(actions[0]), actions.drop_first())
    }
}

/// The sequence of states committed while applying `actions` to `s` in
/// order: its `i`-th entry is the state committed right after the `i`-th
/// action was applied.
pub open spec fn committed_states<T: TeaModel>(s: T, actions: Seq<T::Action>) -> Seq<T>
    decreases actions.len(),
{
    if actions.len() == 0 {
        Seq::empty()
    } else {
        seq![s.spec_update(actions[0])]
            + committed_states(s.spec_update(actions[0]), actions.drop_first())
    }
}

/// Determinism law: the outcome of applying an action sequence depends on
/// nothing but the starting state and the actions, so replaying an equal
/// sequence from an equal state always reaches an equal final state.
pub proof fn lemma_deterministic_replay<T: TeaModel>(
    s1: T,
    s2: T,
    actions1: Seq<T::Action>,
    actions2: Seq<T::Action>,
)
    requires
        s1 == s2,
        actions1 == actions2,
    ensures
        fold_actions(s1, actions1) == fold_actions(s2, actions2),
{
}

/// Each committed state is determined solely by the previous committed state
/// and the one action applied to it: extending an action sequence by one
/// action transforms the state it had reached by exactly that action.
pub proof fn lemma_fold_push<T: TeaModel>(s: T, actions: Seq<T::Action>, action: T::Action)
    ensures
        fold_actions(s, actions.push(action)) == fold_actions(s, actions).spec_update(action),
    decreases actions.len(),
{
    if actions.len() == 0 {
        assert(actions.push(action)[0] == action);
        assert(actions.push(action).drop_first() =~= Seq::<T::Action>::empty());
        assert(fold_actions(s.spec_update(action), Seq::<T::Action>::empty())
            == s.spec_update(action));
        assert(fold_actions(s, actions) == s);
    } else {
        assert(actions.push(action)[0] == actions[0]);
        assert(actions.push(action).drop_first() =~= actions.drop_first().push(action));
        lemma_fold_push(s.spec_update(actions[0]), actions.drop_first(), action);
        assert(fold_actions(s, actions.push(action))
            == fold_actions(s.spec_update(actions[0]), actions.drop_first().push(action)));
        assert(fold_actions(s, actions)
            == fold_actions(s.spec_update(actions[0]), actions.drop_first()));
    }
}

/// One committed state is produced per action applied.
pub proof fn lemma_committed_states_len<T: TeaModel>(s: T, actions: Seq<T::Action>)
    ensures
        committed_states(s, actions).len() == actions.len(),
    decreases actions.len(),
{
    if actions.len() > 0 {
        lemma_committed_states_len(s.spec_update(actions[0]), actions.drop_first());
    }
}

/// FIFO law: for one producer sending `actions` in order, the `i`-th
/// committed state equals the left fold of the transition function over the
/// first `i + 1` actions, so the whole committed sequence is the sequence of
/// folds over the prefixes.
pub proof fn lemma_fifo<T: TeaModel>(s: T, actions: Seq<T::Action>, i: int)
    requires
        0 <= i < actions.len(),
    ensures
        committed_states(s, actions).len() == actions.len(),
        committed_states(s, actions)[i] == fold_actions(s, actions.take(i + 1)),
    decreases i,
{
    lemma_committed_states_len(s, actions);
    if i == 0 {
        assert(actions.take(1)[0] == actions[0]);
        assert(actions.take(1).drop_first() =~= Seq::<T::Action>::empty());
        assert(fold_actions(s, actions.take(1))
            == fold_actions(s.spec_update(actions[0]), Seq::<T::Action>::empty()));
        assert(fold_actions(s.spec_update(actions[0]), Seq::<T::Action>::empty())
            == s.spec_update(actions[0]));
        assert(committed_states(s, actions)[0] == s.spec_update(actions[0]));
    } else {
        lemma_fifo(s.spec_update(actions[0]), actions.drop_first(), i - 1);
        assert(committed_states(s, actions)[i]
            == committed_states(s.spec_update(actions[0]), actions.drop_first())[i - 1]);
        assert(actions.take(i + 1)[0] == actions[0]);
        assert(actions.take(i + 1).drop_first() =~= actions.drop_first().take(i));
        assert(fold_actions(s, actions.take(i + 1))
            == fold_actions(s.spec_update(actions[0]), actions.drop_first().take(i)));
    }
}

/// A handle that holds the state of a model together with the queue of
/// actions sent to it but not yet applied, oldest first.
pub struct TeaModelSignal<T: TeaModel> {
    state: T,
    queue: Vec<T::Action>,
}

impl<T: TeaModel> TeaModelSignal<T> {
    /// The latest committed state: the value every read observes.
    pub closed spec fn committed(self) -> T {
        self.state
    }

    /// The actions sent but not yet applied, oldest first.
    pub closed spec fn pending(self) -> Seq<T::Action> {
        self.queue@
    }

    /// Returns a reference to the current committed state. Never observes a
    /// partially applied update: the value is one produced by a completed
    /// chain of transitions.
    pub fn read(&self) -> (s: &T)
        ensures
            *s == self.committed(),
    {
        &self.state
    }

    /// Sends an action for processing: enqueues it behind every action sent
    /// earlier and returns at once, leaving the committed state untouched.
    pub fn send(&mut self, action: T::Action)
        ensures
            final(self).committed() == old(self).committed(),
            final(self).pending() == old(self).pending().push(action),
    {
        self.queue.push(action);
    }

    /// One turn of the update loop: dequeues the oldest pending action, if
    /// any, applies the transition function to the committed state, and
    /// commits the result before any further action is looked at.
    pub fn step(&mut self) -> (stepped: bool)
        ensures
            stepped == (old(self).pending().len() > 0),
            !stepped ==> *final(self) == *old(self),
            stepped ==> final(self).committed()
                == old(self).committed().spec_update(old(self).pending()[0]),
            stepped ==> final(self).pending() == old(self).pending().drop_first(),
    {
        if self.queue.len() == 0 {
            return false;
        }
        let action = self.queue.remove(0);
        self.state.update(action);
        proof {
            assert(self.queue@ =~= old(self).queue@.drop_first());
        }
        true
    }

    /// Runs the update loop until the queue is empty: every pending action is
    /// applied exactly once, in the order sent, and the final committed state
    /// is the left fold of the transition function over the queue.
    pub fn drain(&mut self)
        ensures
            final(self).committed() == fold_actions(old(self).committed(), old(self).pending()),
            final(self).pending() == Seq::<T::Action>::empty(),
    {
        while self.queue.len() > 0
            invariant
                fold_actions(self.committed(), self.pending())
                    == fold_actions(old(self).committed(), old(self).pending()),
            decreases self.queue.len(),
        {
            self.step();
        }
        proof {
            assert(self.pending() =~= Seq::<T::Action>::empty());
        }
    }
}

/// Creates a new `TeaModelSignal` holding the model's declared initial state
/// and an empty action queue.
pub fn use_tea_model<T: TeaModel>() -> (signal: TeaModelSignal<T>)
    ensures
        signal.committed() == T::spec_init(),
        signal.pending() == Seq::<T::Action>::empty(),
{
    let signal = TeaModelSignal { state: T::init(), queue: Vec::new() };
    proof {
        assert(signal.pending() =~= Seq::<T::Action>::empty());
    }
    signal
}

} // verus!
