//! The state store: the single owner of the authoritative editor state. It
//! queues dispatched actions and effects, applies them one at a time in FIFO
//! arrival order against the latest committed state, and records every
//! committed state in order, so that a subscriber replaying the record sees
//! the initial state first and then exactly one snapshot per applied action —
//! no drops, no duplicates, no reordering. Actions emitted by an effect join
//! the same queue behind what is already pending.

use vstd::prelude::*;

use crate::action::Action;
use crate::action::ActionModel;
use crate::action::Effect;
use crate::mode::apply_action_spec;
use crate::mode::state_wf;
use crate::mode::State;
use crate::mode::StateModel;

verus! {

/// One queued request: an action to apply or an effect to run.
pub enum Pending {
    Act(Action),
    Eff(Effect),
}

/// The mathematical value of a [`Pending`] entry.
#[verifier::ext_equal]
pub enum PendingModel {
    Act(ActionModel),
    Eff(Effect),
}

impl View for Pending {
    type V = PendingModel;

    open spec fn view(&self) -> PendingModel {
        match self {
            Pending::Act(a) => PendingModel::Act(a@),
            Pending::Eff(e) => PendingModel::Eff(*e),
        }
    }
}

/// What one processing step did: nothing was pending, an action was applied
/// (with the new committed snapshot), or an effect ran (with the bytes it
/// wrote).
pub enum StepOutcome {
    Idle,
    Applied(State),
    Wrote(String),
}

/// The queue entries one `dispatch` call adds: the action, if any, then the
/// effect, if any.
pub open spec fn dispatch_entries(action: Option<Action>, effect: Option<Effect>) -> Seq<
    PendingModel,
> {
    (match action {
        Some(a) => seq![PendingModel::Act(a@)],
        None => Seq::<PendingModel>::empty(),
    }) + (match effect {
        Some(e) => seq![PendingModel::Eff(e)],
        None => Seq::<PendingModel>::empty(),
    })
}

/// What draining a queue does to a committed state: the final state, the
/// committed snapshots in commit order (one per applied action), and the
/// outputs written (one per effect, each the content at the time the effect
/// ran).
pub open spec fn drain_spec(s: StateModel, q: Seq<PendingModel>) -> (StateModel, Seq<StateModel>, Seq<Seq<char>>)
    decreases q.len(),
{
    if q.len() <= 0 {
        (s, Seq::<StateModel>::empty(), Seq::<Seq<char>>::empty())
    } else {
        match q[0] {
            PendingModel::Act(a) => {
                let s1 = apply_action_spec(s, a);
                let rest = drain_spec(s1, q.skip(1));
                (rest.0, seq![s1] + rest.1, rest.2)
            },
            PendingModel::Eff(_) => {
                let rest = drain_spec(s, q.skip(1));
                (rest.0, rest.1, seq![s.content] + rest.2)
            },
        }
    }
}

/// Applies a sequence of actions through the reducer, in order.
pub open spec fn apply_actions_spec(s: StateModel, acts: Seq<ActionModel>) -> StateModel
    decreases acts.len(),
{
    if acts.len() <= 0 {
        s
    } else {
        apply_actions_spec(apply_action_spec(s, acts[0]), acts.skip(1))
    }
}

/// The number of actions in a queue.
pub open spec fn action_count(q: Seq<PendingModel>) -> int
    decreases q.len(),
{
    if q.len() <= 0 {
        0
    } else {
        (if q[0] is Act {
            1int
        } else {
            0int
        }) + action_count(q.skip(1))
    }
}

/// Draining a queue commits exactly one snapshot per action in it: no drops,
/// no duplicates. Together with `Store::new` — whose record starts with the
/// initial state alone — a subscriber that attaches before any dispatch and
/// replays the record sees the initial state first, then one snapshot per
/// applied action.
pub proof fn lemma_one_snapshot_per_action(s: StateModel, q: Seq<PendingModel>)
    ensures
        drain_spec(s, q).1.len() == action_count(q),
    decreases q.len(),
{
    if q.len() > 0 {
        match q[0] {
            PendingModel::Act(a) => {
                lemma_one_snapshot_per_action(apply_action_spec(s, a), q.skip(1));
            },
            PendingModel::Eff(_) => {
                lemma_one_snapshot_per_action(s, q.skip(1));
            },
        }
    }
}

/// Round trip through the output: queueing a sequence of actions and then a
/// `Print` writes exactly the document content those actions produce — the
/// serialized state at the time the print runs.
pub proof fn lemma_print_round_trip(s: StateModel, acts: Seq<ActionModel>)
    ensures
        drain_spec(
            s,
            acts.map_values(|a: ActionModel| PendingModel::Act(a)).push(
                PendingModel::Eff(Effect::Print),
            ),
        ).2 =~= seq![apply_actions_spec(s, acts).content],
    decreases acts.len(),
{
    let q = acts.map_values(|a: ActionModel| PendingModel::Act(a)).push(
        PendingModel::Eff(Effect::Print),
    );
    if acts.len() == 0 {
        assert(q =~= seq![PendingModel::Eff(Effect::Print)]);
        assert(q.skip(1) =~= Seq::<PendingModel>::empty());
        assert(apply_actions_spec(s, acts) == s);
        assert(drain_spec(s, q.skip(1)).2 =~= Seq::<Seq<char>>::empty());
        assert(seq![s.content] + Seq::<Seq<char>>::empty() =~= seq![s.content]);
        assert(drain_spec(s, q).2 =~= seq![s.content]);
    } else {
        let s1 = apply_action_spec(s, acts[0]);
        lemma_print_round_trip(s1, acts.skip(1));
        assert(q[0] == PendingModel::Act(acts[0]));
        assert(q.skip(1) =~= acts.skip(1).map_values(|a: ActionModel| PendingModel::Act(a)).push(
            PendingModel::Eff(Effect::Print),
        ));
        assert(drain_spec(s, q).2 =~= drain_spec(s1, q.skip(1)).2);
        assert(apply_actions_spec(s, acts) == apply_actions_spec(s1, acts.skip(1)));
    }
}

/// The store. `committed` is the latest state, `pending` the FIFO queue of
/// requests not yet processed, and `history` the record of every committed
/// state, the initial one first.
pub struct Store {
    state: State,
    queue: Vec<Pending>,
    history: Ghost<Seq<StateModel>>,
}

impl Store {
    /// The most recently committed state.
    pub closed spec fn committed(&self) -> StateModel {
        self.state@
    }

    /// The queued requests, in arrival order.
    pub closed spec fn pending(&self) -> Seq<PendingModel> {
        self.queue@.map_values(|p: Pending| p@)
    }

    /// Every committed state, in commit order, the initial state first.
    pub closed spec fn history(&self) -> Seq<StateModel> {
        self.history@
    }

    /// The committed state is well-formed and is the last recorded one.
    pub open spec fn wf(&self) -> bool {
        &&& state_wf(self.committed())
        &&& self.history().len() >= 1
        &&& self.history().last() == self.committed()
    }

    /// A store owning `initial` as its committed state; the record holds that
    /// state alone, and nothing is pending.
    pub fn new(initial: State) -> (st: Store)
        requires
            initial.wf(),
        ensures
            st.wf(),
            st.committed() == initial@,
            st.history() =~= seq![initial@],
            st.pending() =~= Seq::<PendingModel>::empty(),
    {
        let ghost h = seq![initial@];
        let st = Store { state: initial, queue: Vec::new(), history: Ghost(h) };
        proof {
            assert(st.pending() =~= Seq::<PendingModel>::empty());
        }
        st
    }

    /// A snapshot of the most recently committed state. Never touches the
    /// queue or the record.
    pub fn get_state(&self) -> (s: State)
        ensures
            s@ == self.committed(),
    {
        self.state.snapshot()
    }

    /// Enqueues at most one action and at most one effect, the action first,
    /// behind everything already pending. Nothing is applied yet.
    pub fn dispatch(&mut self, action: Option<Action>, effect: Option<Effect>)
        requires
            old(self).wf(),
        ensures
            final (self).wf(),
            final (self).committed() == old(self).committed(),
            final (self).history() == old(self).history(),
            final (self).pending() =~= old(self).pending() + dispatch_entries(action, effect),
    {
        let ghost entries = dispatch_entries(action, effect);
        match action {
            Some(a) => {
                self.queue.push(Pending::Act(a));
            },
            None => {},
        }
        match effect {
            Some(e) => {
                self.queue.push(Pending::Eff(e));
            },
            None => {},
        }
        proof {
            assert(self.pending() =~= old(self).pending() + entries);
        }
    }

    /// Processes the front of the queue, if any: applies an action to the
    /// committed state and records and returns the new snapshot, or runs an
    /// effect against the committed state and returns what it wrote (its
    /// emitted follow-up actions join the back of the queue; `Print` emits
    /// none). Exactly one snapshot is recorded per applied action, and none
    /// for an effect.
    pub fn step(&mut self) -> (r: StepOutcome)
        requires
            old(self).wf(),
        ensures
            final (self).wf(),
            old(self).pending().len() == 0 ==> {
                &&& r is Idle
                &&& final (self).committed() == old(self).committed()
                &&& final (self).history() == old(self).history()
                &&& final (self).pending() =~= old(self).pending()
            },
            old(self).pending().len() > 0 ==> {
                &&& final (self).pending() =~= old(self).pending().skip(1)
                &&& match old(self).pending()[0] {
                    PendingModel::Act(a) => {
                        &&& final (self).committed() == apply_action_spec(
                            old(self).committed(),
                            a,
                        )
                        &&& final (self).history() =~= old(self).history().push(
                            final (self).committed(),
                        )
                        &&& (r matches StepOutcome::Applied(snap) && snap@ == final (self).committed())
                    },
                    PendingModel::Eff(_) => {
                        &&& final (self).committed() == old(self).committed()
                        &&& final (self).history() == old(self).history()
                        &&& (r matches StepOutcome::Wrote(out) && out@ == old(self).committed().content)
                    },
                }
            },
    {
        if self.queue.len() == 0 {
            return StepOutcome::Idle;
        }
        let entry = self.queue.remove(0);
        proof {
            assert(self.pending() =~= old(self).pending().skip(1));
        }
        match entry {
            Pending::Act(a) => {
                self.state.apply_action(&a);
                proof {
                    self.history@ = self.history@.push(self.state@);
                }
                StepOutcome::Applied(self.state.snapshot())
            },
            Pending::Eff(e) => {
                let out_actions = self.state.apply_effect(&e);
                let out = out_actions.0;
                let mut emitted = out_actions.1;
                // Follow-up actions an effect emits join the same queue, in
                // order, behind what is already pending.
                while emitted.len() > 0
                    invariant
                        emitted@.len() == 0,
                        self.pending() =~= old(self).pending().skip(1),
                        self.committed() == old(self).committed(),
                        self.history() == old(self).history(),
                        self.wf(),
                    decreases emitted@.len(),
                {
                    let a = emitted.remove(0);
                    self.queue.push(Pending::Act(a));
                }
                StepOutcome::Wrote(out)
            },
        }
    }

    /// Drains the queue: applies everything pending, in order, and returns
    /// the committed snapshots (one per applied action, in commit order) and
    /// the outputs written (one per effect). Exactly [`drain_spec`].
    pub fn run_pending(&mut self) -> (r: (Vec<State>, Vec<String>))
        requires
            old(self).wf(),
        ensures
            final (self).wf(),
            final (self).pending().len() == 0,
            final (self).committed() == drain_spec(old(self).committed(), old(self).pending()).0,
            r.0@.map_values(|s: State| s@) =~= drain_spec(
                old(self).committed(),
                old(self).pending(),
            ).1,
            r.1@.map_values(|o: String| o@) =~= drain_spec(
                old(self).committed(),
                old(self).pending(),
            ).2,
            final (self).history() =~= old(self).history() + drain_spec(
                old(self).committed(),
                old(self).pending(),
            ).1,
    {
        let ghost target = drain_spec(old(self).committed(), old(self).pending());
        let mut snaps: Vec<State> = Vec::new();
        let mut outs: Vec<String> = Vec::new();
        while self.queue.len() > 0
            invariant
                self.wf(),
                self.queue.len() == self.pending().len(),
                target == drain_spec(old(self).committed(), old(self).pending()),
                target.0 == drain_spec(self.committed(), self.pending()).0,
                target.1 =~= snaps@.map_values(|s: State| s@) + drain_spec(
                    self.committed(),
                    self.pending(),
                ).1,
                target.2 =~= outs@.map_values(|o: String| o@) + drain_spec(
                    self.committed(),
                    self.pending(),
                ).2,
                self.history() =~= old(self).history() + snaps@.map_values(|s: State| s@),
            decreases self.pending().len(),
        {
            let ghost pend = self.pending();
            let ghost committed = self.committed();
            let outcome = self.step();
            match outcome {
                StepOutcome::Applied(snap) => {
                    proof {
                        assert(drain_spec(committed, pend).1 =~= seq![self.committed()]
                            + drain_spec(self.committed(), self.pending()).1);
                        assert(snaps@.push(snap).map_values(|s: State| s@) =~= snaps@.map_values(
                            |s: State| s@,
                        ).push(snap@));
                    }
                    snaps.push(snap);
                },
                StepOutcome::Wrote(out) => {
                    proof {
                        assert(drain_spec(committed, pend).2 =~= seq![committed.content]
                            + drain_spec(self.committed(), self.pending()).2);
                        assert(outs@.push(out).map_values(|o: String| o@) =~= outs@.map_values(
                            |o: String| o@,
                        ).push(out@));
                    }
                    outs.push(out);
                },
                StepOutcome::Idle => {
                    proof {
                        assert(false);
                    }
                },
            }
        }
        (snaps, outs)
    }
}

} // verus!
