use vstd::prelude::*;
use std::collections::VecDeque;

verus! {

/// One step of experience: the state at time t, the action taken there, and the
/// reward received for it.
pub struct Transition<S, R> {
    pub s: S,
    pub a_idx: i64,
    pub r: R,
}

/// What an n-step update learns from: the oldest stored transition, and the
/// rewards of the transitions after it, oldest first.
pub struct NStepBatch<S, R> {
    pub oldest: Transition<S, R>,
    pub later_rewards: Vec<R>,
}

/// The transitions stored after a step with reward `r_t`: the previous state and
/// action, where both are known, enter the buffer with that reward.
pub open spec fn pushed_buffer<S, R>(
    buffer: Seq<Transition<S, R>>,
    s_prev: Option<S>,
    a_prev: Option<i64>,
    r_t: R,
) -> Seq<Transition<S, R>> {
    match (s_prev, a_prev) {
        (Some(s), Some(a)) => buffer.push(Transition { s, a_idx: a, r: r_t }),
        _ => buffer,
    }
}

/// A step learns when a transition entered the buffer and the buffer then holds
/// at least `n_step` transitions.
pub open spec fn step_learns<S, R>(
    buffer: Seq<Transition<S, R>>,
    s_prev: Option<S>,
    a_prev: Option<i64>,
    r_t: R,
    n_step: nat,
) -> bool {
    s_prev is Some && a_prev is Some && pushed_buffer(buffer, s_prev, a_prev, r_t).len() >= n_step
}

/// The transitions waiting after a step with reward `r_t`: the oldest leaves
/// when the step learns.
pub open spec fn buffer_after<S, R>(
    buffer: Seq<Transition<S, R>>,
    s_prev: Option<S>,
    a_prev: Option<i64>,
    r_t: R,
    n_step: nat,
) -> Seq<Transition<S, R>> {
    let pushed = pushed_buffer(buffer, s_prev, a_prev, r_t);
    if step_learns(buffer, s_prev, a_prev, r_t, n_step) {
        pushed.drop_first()
    } else {
        pushed
    }
}

/// The waiting transitions, previous state and previous action after the steps
/// `steps` (state, action, reward), starting from an empty memory.
pub open spec fn sarsa_run<S, R>(steps: Seq<(S, i64, R)>, n_step: nat) -> (
    Seq<Transition<S, R>>,
    Option<S>,
    Option<i64>,
)
    decreases steps.len(),
{
    if steps.len() == 0 {
        (Seq::empty(), None, None)
    } else {
        let (b, sp, ap) = sarsa_run(steps.drop_last(), n_step);
        let (s, a, r) = steps.last();
        (buffer_after(b, sp, ap, r, n_step), Some(s), Some(a))
    }
}

/// Whether the last of the steps `steps`, run from an empty memory, learns.
pub open spec fn last_step_learns<S, R>(steps: Seq<(S, i64, R)>, n_step: nat) -> bool {
    let (b, sp, ap) = sarsa_run(steps.drop_last(), n_step);
    step_learns(b, sp, ap, steps.last().2, n_step)
}

/// The rewards of a list of transitions, in order.
pub open spec fn rewards_of<S, R>(ts: Seq<Transition<S, R>>) -> Seq<R> {
    ts.map_values(|t: Transition<S, R>| t.r)
}

/// The experience memory of an n-step SARSA agent: the last state and action,
/// and the transitions that wait for enough later rewards.
pub struct SarsaMemory<S, R> {
    buffer: VecDeque<Transition<S, R>>,
    s_prev: Option<S>,
    a_prev_idx: Option<i64>,
    n_step: usize,
}

impl<S, R: Copy> SarsaMemory<S, R> {
    /// The transitions waiting, oldest first.
    pub closed spec fn buffer(&self) -> Seq<Transition<S, R>> {
        self.buffer@
    }

    /// The state of the previous step.
    pub closed spec fn prev_state(&self) -> Option<S> {
        self.s_prev
    }

    /// The action of the previous step.
    pub closed spec fn prev_action(&self) -> Option<i64> {
        self.a_prev_idx
    }

    /// The number of rewards an update waits for.
    pub closed spec fn horizon(&self) -> nat {
        self.n_step as nat
    }

    /// An empty memory for updates over `n_step` rewards.
    pub fn new(n_step: usize) -> (m: Self)
        ensures
            m.buffer() == Seq::<Transition<S, R>>::empty(),
            m.prev_state() is None,
            m.prev_action() is None,
            m.horizon() == n_step,
    {
        SarsaMemory { buffer: VecDeque::new(), s_prev: None, a_prev_idx: None, n_step }
    }

    /// Records that the agent reached the state `s_t`, receiving `r_t` for its
    /// previous action, and took the action `a_t_idx`. The previous state and
    /// action enter the buffer with `r_t`; when the buffer then holds `n_step`
    /// transitions or more, the oldest leaves it and is returned with the rewards
    /// of those after it, for an update towards their discounted return.
    pub fn update(&mut self, s_t: S, a_t_idx: i64, r_t: R) -> (r: Option<NStepBatch<S, R>>)
        ensures
            final(self).prev_state() == Some(s_t),
            final(self).prev_action() == Some(a_t_idx),
            final(self).horizon() == old(self).horizon(),
            ({
                let pushed = pushed_buffer(
                    old(self).buffer(),
                    old(self).prev_state(),
                    old(self).prev_action(),
                    r_t,
                );
                if step_learns(
                    old(self).buffer(),
                    old(self).prev_state(),
                    old(self).prev_action(),
                    r_t,
                    old(self).horizon(),
                ) {
                    &&& r is Some
                    &&& r->0.oldest == pushed[0]
                    &&& r->0.later_rewards@ == rewards_of(pushed.drop_first())
                } else {
                    r is None
                }
            }),
            final(self).buffer() == buffer_after(
                old(self).buffer(),
                old(self).prev_state(),
                old(self).prev_action(),
                r_t,
                old(self).horizon(),
            ),
    {
        let mut batch: Option<NStepBatch<S, R>> = None;
        let prev_s = self.s_prev.take();
        match (prev_s, self.a_prev_idx) {
            (Some(s), Some(a)) => {
                self.buffer.push_back(Transition { s, a_idx: a, r: r_t });
                if self.buffer.len() >= self.n_step {
                    let ghost pushed = self.buffer@;
                    match self.buffer.pop_front() {
                        Some(oldest) => {
                            assert(self.buffer@ =~= pushed.drop_first());
                            let mut later_rewards: Vec<R> = Vec::new();
                            let n = self.buffer.len();
                            let mut i: usize = 0;
                            while i < n
                                invariant
                                    n == self.buffer@.len(),
                                    i <= n,
                                    later_rewards@ =~= rewards_of(self.buffer@.take(i as int)),
                                decreases n - i,
                            {
                                let r = self.buffer[i].r;
                                later_rewards.push(r);
                                assert(self.buffer@.take(i + 1) =~= self.buffer@.take(i as int).push(
                                    self.buffer@[i as int],
                                ));
                                i += 1;
                            }
                            assert(self.buffer@.take(n as int) =~= self.buffer@);
                            batch = Some(NStepBatch { oldest, later_rewards });
                        },
                        None => {},
                    }
                }
            },
            _ => {},
        }
        self.s_prev = Some(s_t);
        self.a_prev_idx = Some(a_t_idx);
        batch
    }

    /// Forgets the episode: the buffer and the previous state and action.
    pub fn finish_episode(&mut self)
        ensures
            final(self).buffer() == Seq::<Transition<S, R>>::empty(),
            final(self).prev_state() is None,
            final(self).prev_action() is None,
            final(self).horizon() == old(self).horizon(),
    {
        self.buffer.clear();
        self.s_prev = None;
        self.a_prev_idx = None;
    }

    /// The state of the previous step, if any.
    pub fn s_prev(&self) -> (s: Option<&S>)
        ensures
            match s {
                Some(x) => self.prev_state() == Some(*x),
                None => self.prev_state() is None,
            },
    {
        match &self.s_prev {
            Some(x) => Some(x),
            None => None,
        }
    }

    /// The action of the previous step, if any.
    pub fn a_prev_idx(&self) -> (a: Option<i64>)
        ensures
            a == self.prev_action(),
    {
        self.a_prev_idx
    }

    /// The number of transitions waiting.
    pub fn buffered(&self) -> (n: usize)
        ensures
            n == self.buffer().len(),
    {
        self.buffer.len()
    }
}

/// With a horizon of at least one step, an update leaves fewer transitions
/// waiting than the horizon whenever there were fewer before: every transition
/// that completes the horizon is learnt from at once.
pub proof fn law_buffer_stays_below_horizon<S, R>(
    buffer: Seq<Transition<S, R>>,
    s_prev: Option<S>,
    a_prev: Option<i64>,
    r_t: R,
    n_step: nat,
)
    requires
        n_step >= 1,
        buffer.len() < n_step,
    ensures
        ({
            let pushed = pushed_buffer(buffer, s_prev, a_prev, r_t);
            let after = if step_learns(buffer, s_prev, a_prev, r_t, n_step) {
                pushed.drop_first()
            } else {
                pushed
            };
            after.len() < n_step
        }),
{
}

/// A step right after the episode was forgotten learns nothing, whatever the
/// horizon: there is no previous state to store.
pub proof fn law_first_step_learns_nothing<S, R>(r_t: R, n_step: nat)
    ensures
        !step_learns(Seq::<Transition<S, R>>::empty(), None::<S>, None::<i64>, r_t, n_step),
        pushed_buffer(Seq::<Transition<S, R>>::empty(), None::<S>, None::<i64>, r_t) == Seq::<
            Transition<S, R>,
        >::empty(),
{
}

/// From an empty memory (a new one, or one whose episode was just forgotten),
/// with a horizon of n >= 1 steps: the k-th step learns exactly when k > n, after
/// it min(k - 1, n - 1) transitions wait, and the previous state and action are
/// those of the k-th step.
pub proof fn law_n_step_run<S, R>(steps: Seq<(S, i64, R)>, n_step: nat)
    requires
        n_step >= 1,
        steps.len() >= 1,
    ensures
        last_step_learns(steps, n_step) <==> steps.len() > n_step,
        sarsa_run(steps, n_step).0.len() == (if steps.len() - 1 < n_step - 1 {
            steps.len() - 1
        } else {
            n_step - 1
        }),
        sarsa_run(steps, n_step).1 == Some(steps.last().0),
        sarsa_run(steps, n_step).2 == Some(steps.last().1),
    decreases steps.len(),
{
    if steps.len() > 1 {
        law_n_step_run(steps.drop_last(), n_step);
        assert(steps.drop_last().last() == steps[steps.len() - 2]);
    } else {
        assert(steps.drop_last().len() == 0);
    }
}

} // verus!
