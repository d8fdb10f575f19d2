use vstd::prelude::*;

verus! {

/// Number of features in the state vector handed to the learning agent.
pub const STATE_DIM: i64 = 15;

/// Direction of the last bitrate move, as the agent's action index encodes it:
/// 0 lowers the bitrate, 1 holds it, 2 raises it; any other index counts as a hold
/// for the momentum but as a switch for the step counter.
pub open spec fn momentum_of(a_t_idx: i64) -> int {
    if a_t_idx == 0 {
        -1
    } else if a_t_idx == 2 {
        1
    } else {
        0
    }
}

/// The part of the streaming environment that remembers the agent's recent moves.
pub struct ActionHistory {
    /// Direction of the last move: -1, 0 or 1.
    pub action_momentum: i32,
    /// Number of steps since the bitrate last changed.
    pub last_switch_steps: i32,
}

impl ActionHistory {
    pub fn new() -> (h: Self)
        ensures
            h.action_momentum == 0,
            h.last_switch_steps == 0,
    {
        ActionHistory { action_momentum: 0, last_switch_steps: 0 }
    }

    /// Records the action just taken.
    pub fn update_last_action(&mut self, a_t_idx: i64)
        requires
            a_t_idx == 1 ==> old(self).last_switch_steps < i32::MAX,
        ensures
            final(self).action_momentum == momentum_of(a_t_idx),
            final(self).last_switch_steps == switch_steps_after(old(self).last_switch_steps as int, a_t_idx),
            -1 <= final(self).action_momentum <= 1,
    {
        self.action_momentum = if a_t_idx == 0 {
            -1
        } else if a_t_idx == 1 {
            0
        } else if a_t_idx == 2 {
            1
        } else {
            0
        };
        if a_t_idx != 1 {
            self.last_switch_steps = 0;
        } else {
            self.last_switch_steps = self.last_switch_steps + 1;
        }
    }
}

/// Whether one optional ladder level comes before another, absent levels first.
pub open spec fn level_before(a: Option<usize>, b: Option<usize>) -> bool {
    match (a, b) {
        (None, Some(_)) => true,
        (Some(x), Some(y)) => x < y,
        _ => false,
    }
}

/// How the bitrate level changed between two snapshots.
#[derive(Clone, Copy, Debug, PartialEq, Eq)]
pub enum SwitchKind {
    /// The level stayed the same.
    NoSwitch,
    /// The level went down.
    Down,
    /// The level went up.
    Up,
}

/// Compares the level of the previous snapshot with the current one: no switch
/// when they are equal, a switch down when the current one comes first (an
/// absent level coming before any level), a switch up otherwise.
pub fn classify_switch(prev_idx: Option<usize>, cur_idx: Option<usize>) -> (k: SwitchKind)
    ensures
        k == (if prev_idx == cur_idx {
            SwitchKind::NoSwitch
        } else if level_before(cur_idx, prev_idx) {
            SwitchKind::Down
        } else {
            SwitchKind::Up
        }),
        match (prev_idx, cur_idx) {
            (Some(x), Some(y)) => {
                &&& (k == SwitchKind::NoSwitch) == (x == y)
                &&& (k == SwitchKind::Down) == (y < x)
                &&& (k == SwitchKind::Up) == (x < y)
            },
            _ => true,
        },
        prev_idx is None && cur_idx is Some ==> k == SwitchKind::Up,
        prev_idx is Some && cur_idx is None ==> k == SwitchKind::Down,
        prev_idx is None && cur_idx is None ==> k == SwitchKind::NoSwitch,
{
    let same = match (prev_idx, cur_idx) {
        (None, None) => true,
        (Some(x), Some(y)) => x == y,
        _ => false,
    };
    if same {
        return SwitchKind::NoSwitch;
    }
    let before = match (cur_idx, prev_idx) {
        (None, Some(_)) => true,
        (Some(x), Some(y)) => x < y,
        _ => false,
    };
    if before {
        SwitchKind::Down
    } else {
        SwitchKind::Up
    }
}

/// The step counter after the action `a_t_idx`: back to 0 on any action but a
/// hold, one more on a hold.
pub open spec fn switch_steps_after(steps: int, a_t_idx: i64) -> int {
    if a_t_idx != 1 {
        0
    } else {
        steps + 1
    }
}

/// The step counter after the actions `actions`, in order.
pub open spec fn switch_steps_run(steps: int, actions: Seq<i64>) -> int
    decreases actions.len(),
{
    if actions.len() == 0 {
        steps
    } else {
        switch_steps_after(switch_steps_run(steps, actions.drop_last()), actions.last())
    }
}

/// After any action that is not a hold and then `holds` holds, the step counter
/// counts exactly the holds, whatever it was before.
pub proof fn law_steps_count_holds_since_switch(steps: int, a_switch: i64, holds: nat)
    requires
        a_switch != 1,
    ensures
        switch_steps_run(steps, seq![a_switch] + Seq::new(holds, |i: int| 1i64)) == holds,
    decreases holds,
{
    let actions = seq![a_switch] + Seq::new(holds, |i: int| 1i64);
    if holds > 0 {
        law_steps_count_holds_since_switch(steps, a_switch, (holds - 1) as nat);
        assert(actions.drop_last() =~= seq![a_switch] + Seq::new((holds - 1) as nat, |i: int| 1i64));
    } else {
        assert(actions.drop_last() =~= Seq::<i64>::empty());
    }
}

/// How the level change between two snapshots is classified, for all levels:
/// equal levels are no switch, a lower level a switch down, a higher level a
/// switch up; a level appearing counts as up and a level disappearing as down.
pub proof fn law_switch_direction(x: usize, y: usize)
    ensures
        (y == x) == (level_before(Some(y), Some(x)) == false && level_before(Some(x), Some(y))
            == false),
        level_before(Some(y), Some(x)) == (y < x),
        level_before(None, Some(x)),
        !level_before(Some(x), None),
        !level_before(None::<usize>, None::<usize>),
{
}

/// The direction recorded for each action: lowering is -1, raising 1, and
/// holding or any other index 0; the step counter restarts on every action but
/// a hold and grows by one on a hold.
pub proof fn law_momentum_and_steps(a_t_idx: i64, steps: int)
    ensures
        momentum_of(0) == -1,
        momentum_of(2) == 1,
        momentum_of(1) == 0,
        a_t_idx != 0 && a_t_idx != 2 ==> momentum_of(a_t_idx) == 0,
        switch_steps_after(steps, 1) == steps + 1,
        a_t_idx != 1 ==> switch_steps_after(steps, a_t_idx) == 0,
{
}

} // verus!
