use vstd::prelude::*;
use std::collections::VecDeque;

verus! {

/// The contents of a history of capacity `max_len` after `item` is added: the
/// oldest entry leaves first when the history is full.
pub open spec fn bounded_push<T>(s: Seq<T>, max_len: nat, item: T) -> Seq<T> {
    if s.len() >= max_len && s.len() > 0 {
        s.drop_first().push(item)
    } else {
        s.push(item)
    }
}

/// The most recent `cap` entries of `xs` (all of them when there are fewer).
pub open spec fn most_recent<T>(xs: Seq<T>, cap: nat) -> Seq<T> {
    if xs.len() <= cap {
        xs
    } else {
        xs.skip(xs.len() - cap)
    }
}

/// The contents of an empty history of capacity `max_len` after each of `xs`
/// was added, in order.
pub open spec fn bounded_run<T>(max_len: nat, xs: Seq<T>) -> Seq<T>
    decreases xs.len(),
{
    if xs.len() == 0 {
        Seq::empty()
    } else {
        bounded_push(bounded_run(max_len, xs.drop_last()), max_len, xs.last())
    }
}

/// A first-in first-out history that keeps at most a fixed number of entries
/// (at least one once an entry was added).
pub struct BoundedHistory<T> {
    items: VecDeque<T>,
    max_len: usize,
}

impl<T> BoundedHistory<T> {
    /// The entries, oldest first.
    pub closed spec fn view(&self) -> Seq<T> {
        self.items@
    }

    /// The capacity.
    pub closed spec fn capacity(&self) -> nat {
        self.max_len as nat
    }

    /// A history of capacity `max_history_size`, or 10 where none is given.
    pub fn new(max_history_size: Option<usize>) -> (h: Self)
        ensures
            h@ == Seq::<T>::empty(),
            h.capacity() == (match max_history_size {
                Some(n) => n as nat,
                None => 10,
            }),
    {
        let max_len = match max_history_size {
            Some(n) => n,
            None => 10,
        };
        BoundedHistory { items: VecDeque::new(), max_len }
    }

    /// A full history holding `items`, its capacity their number: each entry
    /// added afterwards pushes the oldest one out.
    pub fn from_items(items: VecDeque<T>) -> (h: Self)
        ensures
            h@ == items@,
            h.capacity() == items@.len(),
    {
        let max_len = items.len();
        BoundedHistory { items, max_len }
    }

    /// Adds an entry at the end, first dropping the oldest one when the history
    /// holds its capacity or more.
    pub fn push(&mut self, item: T)
        ensures
            final(self)@ == bounded_push(old(self)@, old(self).capacity(), item),
            final(self).capacity() == old(self).capacity(),
    {
        if self.items.len() >= self.max_len {
            let _ = self.items.pop_front();
        }
        self.items.push_back(item);
        proof {
            if old(self)@.len() >= old(self).capacity() && old(self)@.len() > 0 {
                assert(old(self)@.subrange(1, old(self)@.len() as int) =~= old(self)@.drop_first());
            }
        }
    }

    /// Removes every entry.
    pub fn clear(&mut self)
        ensures
            final(self)@ == Seq::<T>::empty(),
            final(self).capacity() == old(self).capacity(),
    {
        self.items.clear();
    }

    /// The number of entries.
    pub fn len(&self) -> (n: usize)
        ensures
            n == self@.len(),
    {
        self.items.len()
    }

    /// The entries, oldest first.
    pub fn items(&self) -> (q: &VecDeque<T>)
        ensures
            q@ == self@,
    {
        &self.items
    }
}

/// A full history (as many entries as its capacity, at least one) stays full
/// when an entry is added: the oldest leaves and the new one comes last.
pub proof fn law_full_history_stays_full<T>(s: Seq<T>, max_len: nat, item: T)
    requires
        max_len >= 1,
        s.len() == max_len,
    ensures
        bounded_push(s, max_len, item).len() == max_len,
        bounded_push(s, max_len, item) == s.drop_first().push(item),
{
}

/// A history fed entry after entry from empty holds exactly the most recent
/// entries, as many as its capacity (one where the capacity is 0).
pub proof fn law_history_holds_most_recent<T>(max_len: nat, xs: Seq<T>)
    ensures
        bounded_run(max_len, xs) == most_recent(xs, if max_len == 0 {
            1
        } else {
            max_len
        }),
    decreases xs.len(),
{
    let cap: nat = if max_len == 0 {
        1
    } else {
        max_len
    };
    if xs.len() > 0 {
        law_history_holds_most_recent(max_len, xs.drop_last());
        let prev = most_recent(xs.drop_last(), cap);
        if xs.drop_last().len() <= cap {
            if xs.len() <= cap {
                assert(xs.drop_last().push(xs.last()) =~= xs);
            } else {
                assert(prev.drop_first().push(xs.last()) =~= xs.skip(xs.len() - cap));
            }
        } else {
            assert(prev.len() == cap);
            assert(prev.drop_first().push(xs.last()) =~= xs.skip(xs.len() - cap));
        }
    }
}

/// The first position in `s` whose timestamp is `t`, if any.
pub open spec fn first_with_timestamp(s: Seq<(u128, usize)>, t: u128) -> Option<int> {
    if exists|i: int| 0 <= i < s.len() && s[i].0 == t {
        Some(choose|i: int| 0 <= i < s.len() && s[i].0 == t && forall|j: int| 0 <= j < i ==> s[j].0 != t)
    } else {
        None
    }
}

/// Limits of the decoder latency limiter: the latency, in milliseconds, above
/// which a frame oversteps, and the number of frames in a row that must overstep
/// before the bitrate ceiling comes down.
#[derive(Clone, Copy, Debug, PartialEq, Eq)]
pub struct DecoderLatencyLimit {
    pub max_decoder_latency_ms: u64,
    pub latency_overstep_frames: usize,
}

/// What the latencies of one frame lead to.
#[derive(Clone, Copy, Debug, PartialEq, Eq)]
pub enum FrameLatencyOutcome {
    /// The network latency was zero: the report is ignored.
    Ignored,
    /// The report was taken: the size in bits of the encoded frame with that
    /// timestamp where it was still waiting, and whether the decoder latency
    /// oversteps reached the limit with this frame.
    Recorded { frame_bits: Option<usize>, limit_reached: bool },
}

/// The frame sizes waiting for their network latency and the count of frames in
/// a row whose decoder latency was too high.
pub struct BitrateFeedback {
    packet_sizes_bits_history: VecDeque<(u128, usize)>,
    decoder_latency_overstep_count: usize,
}

/// The overstep count after a frame and whether it reached the limit.
pub open spec fn overstep_step(
    count: nat,
    limit: Option<DecoderLatencyLimit>,
    decoder_latency_ns: u128,
) -> (nat, bool) {
    match limit {
        None => (count, false),
        Some(l) => if decoder_latency_ns > l.max_decoder_latency_ms * 1_000_000 {
            if count + 1 == l.latency_overstep_frames {
                (0, true)
            } else {
                (count + 1, false)
            }
        } else {
            (0, false)
        },
    }
}

/// How the overstep count moves, for every count and latency: without a limiter
/// it stays; a frame within the limit resets it to 0 and never reaches the
/// limit; a frame above the limit adds one, and reaches the limit exactly when
/// that makes the configured number of frames, which restarts the count at 0.
pub proof fn law_overstep_counting(count: nat, l: DecoderLatencyLimit, decoder_latency_ns: u128)
    ensures
        overstep_step(count, None, decoder_latency_ns) == (count, false),
        decoder_latency_ns <= l.max_decoder_latency_ms * 1_000_000 ==> overstep_step(
            count,
            Some(l),
            decoder_latency_ns,
        ) == (0nat, false),
        decoder_latency_ns > l.max_decoder_latency_ms * 1_000_000 ==> overstep_step(
            count,
            Some(l),
            decoder_latency_ns,
        ).1 == (count + 1 == l.latency_overstep_frames),
        decoder_latency_ns > l.max_decoder_latency_ms * 1_000_000 ==> overstep_step(
            count,
            Some(l),
            decoder_latency_ns,
        ).0 == (if count + 1 == l.latency_overstep_frames {
            0
        } else {
            count + 1
        }),
{
}

impl BitrateFeedback {
    /// The encoded frames waiting, oldest first: timestamp in nanoseconds and size
    /// in bits.
    pub closed spec fn pending(&self) -> Seq<(u128, usize)> {
        self.packet_sizes_bits_history@
    }

    /// The number of frames in a row whose decoder latency was too high.
    pub closed spec fn overstep_count(&self) -> nat {
        self.decoder_latency_overstep_count as nat
    }

    pub fn new() -> (f: Self)
        ensures
            f.pending() == Seq::<(u128, usize)>::empty(),
            f.overstep_count() == 0,
    {
        BitrateFeedback { packet_sizes_bits_history: VecDeque::new(), decoder_latency_overstep_count: 0 }
    }

    /// The number of frames in a row whose decoder latency was too high.
    pub fn decoder_latency_overstep_count(&self) -> (n: usize)
        ensures
            n == self.overstep_count(),
    {
        self.decoder_latency_overstep_count
    }

    /// Records an encoded frame of `size_bytes` bytes with its timestamp.
    pub fn report_frame_encoded(&mut self, timestamp_ns: u128, size_bytes: usize)
        requires
            size_bytes * 8 <= usize::MAX,
        ensures
            final(self).pending() == old(self).pending().push((timestamp_ns, (size_bytes * 8) as usize)),
            final(self).overstep_count() == old(self).overstep_count(),
    {
        self.packet_sizes_bits_history.push_back((timestamp_ns, size_bytes * 8));
    }

    /// Takes the latencies of the frame with timestamp `timestamp_ns`: unless the
    /// network latency is zero, drops the waiting frames up to and including the
    /// first with that timestamp and returns its size, and counts a decoder
    /// latency above the limit.
    pub fn report_frame_latencies(
        &mut self,
        limit: Option<DecoderLatencyLimit>,
        timestamp_ns: u128,
        network_latency_ns: u128,
        decoder_latency_ns: u128,
    ) -> (r: FrameLatencyOutcome)
        requires
            network_latency_ns != 0 && limit is Some && decoder_latency_ns
                > limit->0.max_decoder_latency_ms * 1_000_000 ==> old(self).overstep_count() < usize::MAX,
        ensures
            network_latency_ns == 0 ==> {
                &&& r == FrameLatencyOutcome::Ignored
                &&& final(self).pending() == old(self).pending()
                &&& final(self).overstep_count() == old(self).overstep_count()
            },
            network_latency_ns != 0 ==> {
                let (c, reached) = overstep_step(old(self).overstep_count(), limit, decoder_latency_ns);
                &&& r matches FrameLatencyOutcome::Recorded { frame_bits, limit_reached }
                &&& limit_reached == reached
                &&& final(self).overstep_count() == c
                &&& match first_with_timestamp(old(self).pending(), timestamp_ns) {
                    Some(i) => {
                        &&& frame_bits == Some(old(self).pending()[i].1)
                        &&& final(self).pending() == old(self).pending().skip(i + 1)
                    },
                    None => {
                        &&& frame_bits is None
                        &&& final(self).pending() == Seq::<(u128, usize)>::empty()
                    },
                }
            },
    {
        if network_latency_ns == 0 {
            return FrameLatencyOutcome::Ignored;
        }
        let ghost old_pending = self.pending();
        let mut frame_bits: Option<usize> = None;
        let ghost mut dropped: int = 0;
        loop
            invariant_except_break
                frame_bits is None,
                0 <= dropped <= old_pending.len(),
                self.pending() == old_pending.skip(dropped),
                forall|j: int| 0 <= j < dropped ==> old_pending[j].0 != timestamp_ns,
            invariant
                self.overstep_count() == old(self).overstep_count(),
                network_latency_ns != 0,
                limit is Some && decoder_latency_ns > limit->0.max_decoder_latency_ms * 1_000_000
                    ==> old(self).overstep_count() < usize::MAX,
            ensures
                match first_with_timestamp(old_pending, timestamp_ns) {
                    Some(i) => frame_bits == Some(old_pending[i].1) && self.pending() == old_pending.skip(i + 1),
                    None => frame_bits is None && self.pending() == Seq::<(u128, usize)>::empty(),
                },
            decreases self.pending().len(),
        {
            match self.packet_sizes_bits_history.pop_front() {
                Some((t, size_bits)) => {
                    proof {
                        assert(old_pending.skip(dropped)[0] == old_pending[dropped]);
                        assert(old_pending.skip(dropped).subrange(1, old_pending.skip(dropped).len() as int)
                            =~= old_pending.skip(dropped + 1));
                    }
                    if t == timestamp_ns {
                        frame_bits = Some(size_bits);
                        proof {
                            let i = dropped;
                            assert(0 <= i < old_pending.len() && old_pending[i].0 == timestamp_ns);
                            let k = choose|k: int|
                                0 <= k < old_pending.len() && old_pending[k].0 == timestamp_ns && forall|j: int|
                                    0 <= j < k ==> old_pending[j].0 != timestamp_ns;
                            assert(k == i) by {
                                if k < i {
                                    assert(old_pending[k].0 != timestamp_ns);
                                } else if i < k {
                                    assert(old_pending[i].0 != timestamp_ns);
                                }
                            }
                        }
                        break;
                    }
                    proof {
                        dropped = dropped + 1;
                    }
                },
                None => {
                    proof {
                        assert(dropped == old_pending.len());
                        assert(!exists|i: int| 0 <= i < old_pending.len() && old_pending[i].0 == timestamp_ns);
                        assert(self.pending() =~= Seq::<(u128, usize)>::empty());
                    }
                    break;
                },
            }
        }
        let mut limit_reached = false;
        if let Some(l) = limit {
            if decoder_latency_ns > l.max_decoder_latency_ms as u128 * 1_000_000 {
                self.decoder_latency_overstep_count = self.decoder_latency_overstep_count + 1;
                if self.decoder_latency_overstep_count == l.latency_overstep_frames {
                    limit_reached = true;
                    self.decoder_latency_overstep_count = 0;
                }
            } else {
                self.decoder_latency_overstep_count = 0;
            }
        }
        FrameLatencyOutcome::Recorded { frame_bits, limit_reached }
    }
}

/// The actions the agent may take from level `current_idx` of a ladder of
/// `ladder_len` levels (index 0 lowers the bitrate, 1 holds it, 2 raises it):
/// no lowering from the lowest level, no raising from the highest one (a level
/// that is both counts as the lowest), and, with shielding on, no raising while
/// the network is in an emergency. Holding is always allowed.
pub open spec fn action_mask_spec(
    current_idx: usize,
    ladder_len: usize,
    shielding: bool,
    is_emergency: bool,
) -> Seq<bool> {
    seq![
        current_idx != 0,
        true,
        !(current_idx != 0 && current_idx == ladder_len - 1) && !(shielding && is_emergency),
    ]
}

/// The actions allowed from level `current_idx`, as `action_mask_spec` says.
pub fn get_action_mask(current_idx: usize, ladder_len: usize, shielding: bool, is_emergency: bool) -> (mask:
    Vec<bool>)
    requires
        current_idx == 0 || ladder_len >= 1,
    ensures
        mask@ == action_mask_spec(current_idx, ladder_len, shielding, is_emergency),
        mask@.len() == 3,
        mask@[0] == (current_idx != 0),
        mask@[1],
        current_idx + 1 < ladder_len && !is_emergency ==> mask@[2],
        shielding && is_emergency ==> !mask@[2],
        !mask@[2] ==> (current_idx != 0 && current_idx + 1 == ladder_len) || (shielding
            && is_emergency),
{
    let mut mask = vec![true, true, true];
    if current_idx == 0 {
        mask.set(0, false);
    } else if current_idx == ladder_len - 1 {
        mask.set(2, false);
    }
    if shielding {
        if is_emergency {
            mask.set(2, false);
        }
    }
    assert(mask@ =~= action_mask_spec(current_idx, ladder_len, shielding, is_emergency));
    mask
}

/// The level that the action `a_t_idx` leads to from `current_idx`, kept within
/// a ladder of `ladder_len` levels: one down (not below 0), the same, one up;
/// any other action holds.
pub open spec fn next_index_spec(current_idx: usize, a_t_idx: i64, ladder_len: usize) -> int {
    let raw: int = if a_t_idx == 0 {
        if current_idx == 0 {
            0
        } else {
            current_idx - 1
        }
    } else if a_t_idx == 2 {
        current_idx + 1
    } else {
        current_idx as int
    };
    if raw > ladder_len - 1 {
        ladder_len - 1
    } else {
        raw
    }
}

/// Applies the action `a_t_idx` to the bitrate level `current_idx`.
pub fn next_bitrate_index(current_idx: usize, a_t_idx: i64, ladder_len: usize) -> (r: usize)
    requires
        ladder_len >= 1,
        a_t_idx == 2 ==> current_idx < usize::MAX,
    ensures
        r == next_index_spec(current_idx, a_t_idx, ladder_len),
        r < ladder_len,
{
    let raw: usize = if a_t_idx == 0 {
        current_idx.saturating_sub(1)
    } else if a_t_idx == 1 {
        current_idx
    } else if a_t_idx == 2 {
        current_idx + 1
    } else {
        current_idx
    };
    if raw > ladder_len - 1 {
        ladder_len - 1
    } else {
        raw
    }
}

/// Any action that the mask allows from a level of the ladder moves exactly one
/// level down, stays, or moves exactly one level up, and stays on the ladder
/// (but for raising from the only level of a one-level ladder, which stays).
pub proof fn law_allowed_action_moves_one_level(
    current_idx: usize,
    ladder_len: usize,
    shielding: bool,
    is_emergency: bool,
    a_t_idx: i64,
)
    requires
        current_idx < ladder_len,
        0 <= a_t_idx < 3,
        action_mask_spec(current_idx, ladder_len, shielding, is_emergency)[a_t_idx as int],
        !(a_t_idx == 2 && ladder_len == 1),
    ensures
        next_index_spec(current_idx, a_t_idx, ladder_len) == current_idx + a_t_idx - 1,
        0 <= next_index_spec(current_idx, a_t_idx, ladder_len) < ladder_len,
{
}

/// With shielding on and the network in an emergency, no allowed action raises
/// the bitrate: the agent may only hold or lower it, and stays on the ladder.
pub proof fn law_shielding_never_raises_in_emergency(
    current_idx: usize,
    ladder_len: usize,
    a_t_idx: i64,
)
    requires
        current_idx < ladder_len,
        0 <= a_t_idx < 3,
        action_mask_spec(current_idx, ladder_len, true, true)[a_t_idx as int],
    ensures
        a_t_idx != 2,
        next_index_spec(current_idx, a_t_idx, ladder_len) <= current_idx,
        0 <= next_index_spec(current_idx, a_t_idx, ladder_len),
{
}

/// Any action that the mask allows changes the bitrate level by at most one and
/// stays on the ladder, also on a ladder of a single level.
pub proof fn law_allowed_action_moves_at_most_one_level(
    current_idx: usize,
    ladder_len: usize,
    shielding: bool,
    is_emergency: bool,
    a_t_idx: i64,
)
    requires
        current_idx < ladder_len,
        0 <= a_t_idx < 3,
        action_mask_spec(current_idx, ladder_len, shielding, is_emergency)[a_t_idx as int],
    ensures
        current_idx - 1 <= next_index_spec(current_idx, a_t_idx, ladder_len) <= current_idx + 1,
        0 <= next_index_spec(current_idx, a_t_idx, ladder_len) < ladder_len,
        shielding && is_emergency ==> next_index_spec(current_idx, a_t_idx, ladder_len) <= current_idx,
{
}

/// What the mask says, for every level and ladder: lowering is refused exactly
/// at the lowest level; holding is always allowed; below the top of the ladder
/// and with no emergency, raising is allowed whether or not shielding is on;
/// raising is refused only at the top level (when it is not also the lowest) or
/// when shielding is on during an emergency, and always then.
pub proof fn law_action_mask_refuses_only_what_it_must(
    current_idx: usize,
    ladder_len: usize,
    shielding: bool,
    is_emergency: bool,
)
    requires
        current_idx < ladder_len,
    ensures
        action_mask_spec(current_idx, ladder_len, shielding, is_emergency).len() == 3,
        action_mask_spec(current_idx, ladder_len, shielding, is_emergency)[0] == (current_idx != 0),
        action_mask_spec(current_idx, ladder_len, shielding, is_emergency)[1],
        current_idx + 1 < ladder_len && !is_emergency ==> action_mask_spec(
            current_idx,
            ladder_len,
            shielding,
            is_emergency,
        )[2],
        current_idx + 1 < ladder_len && !shielding ==> action_mask_spec(
            current_idx,
            ladder_len,
            shielding,
            is_emergency,
        )[2],
        shielding && is_emergency ==> !action_mask_spec(
            current_idx,
            ladder_len,
            shielding,
            is_emergency,
        )[2],
        !action_mask_spec(current_idx, ladder_len, shielding, is_emergency)[2] ==> (current_idx
            != 0 && current_idx + 1 == ladder_len) || (shielding && is_emergency),
        action_mask_spec(current_idx, ladder_len, true, false) == action_mask_spec(
            current_idx,
            ladder_len,
            false,
            false,
        ),
{
}

/// How the NestVR heuristic moves the bitrate in one step.
#[derive(Clone, Copy, Debug, PartialEq, Eq)]
pub enum BitrateAdjustment {
    Decrease,
    Hold,
    Increase,
}

/// The NestVR rule: lower the bitrate when too few frames arrive; otherwise,
/// when the round trip is too long, lower it if the random draw says so, and
/// when it is short enough, raise it if the random draw says so.
pub open spec fn nest_vr_rule(
    nfr_below_threshold: bool,
    rtt_above_threshold: bool,
    rtt_draw_hit: bool,
    increase_draw_hit: bool,
) -> BitrateAdjustment {
    if nfr_below_threshold {
        BitrateAdjustment::Decrease
    } else if rtt_above_threshold {
        if rtt_draw_hit {
            BitrateAdjustment::Decrease
        } else {
            BitrateAdjustment::Hold
        }
    } else if increase_draw_hit {
        BitrateAdjustment::Increase
    } else {
        BitrateAdjustment::Hold
    }
}

/// Decides the NestVR step from the comparisons of the interval statistics with
/// the profile's thresholds and of the two random draws with its probabilities.
pub fn nest_vr_adjustment(
    nfr_below_threshold: bool,
    rtt_above_threshold: bool,
    rtt_draw_hit: bool,
    increase_draw_hit: bool,
) -> (r: BitrateAdjustment)
    ensures
        r == nest_vr_rule(nfr_below_threshold, rtt_above_threshold, rtt_draw_hit, increase_draw_hit),
        nfr_below_threshold ==> r == BitrateAdjustment::Decrease,
        !nfr_below_threshold && rtt_above_threshold ==> r == (if rtt_draw_hit {
            BitrateAdjustment::Decrease
        } else {
            BitrateAdjustment::Hold
        }),
        !nfr_below_threshold && !rtt_above_threshold ==> r == (if increase_draw_hit {
            BitrateAdjustment::Increase
        } else {
            BitrateAdjustment::Hold
        }),
{
    if nfr_below_threshold {
        BitrateAdjustment::Decrease
    } else {
        if rtt_above_threshold {
            if rtt_draw_hit {
                BitrateAdjustment::Decrease
            } else {
                BitrateAdjustment::Hold
            }
        } else {
            if increase_draw_hit {
                BitrateAdjustment::Increase
            } else {
                BitrateAdjustment::Hold
            }
        }
    }
}

/// The NestVR step for every outcome of the comparisons and draws: too few
/// frames always lower the bitrate; with enough frames and a long round trip the
/// bitrate is lowered exactly when the round-trip draw hits and is never raised;
/// with enough frames and a short round trip it is raised exactly when the
/// increase draw hits, whatever the round-trip draw, and never lowered.
pub proof fn law_nest_vr_step(
    nfr_below_threshold: bool,
    rtt_above_threshold: bool,
    rtt_draw_hit: bool,
    increase_draw_hit: bool,
)
    ensures
        nfr_below_threshold ==> nest_vr_rule(
            nfr_below_threshold,
            rtt_above_threshold,
            rtt_draw_hit,
            increase_draw_hit,
        ) == BitrateAdjustment::Decrease,
        !nfr_below_threshold && rtt_above_threshold ==> (nest_vr_rule(
            nfr_below_threshold,
            rtt_above_threshold,
            rtt_draw_hit,
            increase_draw_hit,
        ) == BitrateAdjustment::Decrease) == rtt_draw_hit,
        !nfr_below_threshold && rtt_above_threshold ==> nest_vr_rule(
            nfr_below_threshold,
            rtt_above_threshold,
            rtt_draw_hit,
            increase_draw_hit,
        ) != BitrateAdjustment::Increase,
        !nfr_below_threshold && !rtt_above_threshold ==> (nest_vr_rule(
            nfr_below_threshold,
            rtt_above_threshold,
            rtt_draw_hit,
            increase_draw_hit,
        ) == BitrateAdjustment::Increase) == increase_draw_hit,
        !nfr_below_threshold && !rtt_above_threshold ==> nest_vr_rule(
            nfr_below_threshold,
            rtt_above_threshold,
            rtt_draw_hit,
            increase_draw_hit,
        ) != BitrateAdjustment::Decrease,
        !nfr_below_threshold && !rtt_above_threshold ==> nest_vr_rule(
            false,
            false,
            rtt_draw_hit,
            increase_draw_hit,
        ) == nest_vr_rule(false, false, !rtt_draw_hit, increase_draw_hit),
{
}

} // verus!
