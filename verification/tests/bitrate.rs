use alvr_bravr::bitrate::{
    get_action_mask, nest_vr_adjustment, next_bitrate_index, BitrateAdjustment, BitrateFeedback,
    BoundedHistory, DecoderLatencyLimit, FrameLatencyOutcome,
};
use std::collections::VecDeque;

fn contents(h: &BoundedHistory<u32>) -> Vec<u32> {
    h.items().iter().copied().collect()
}

#[test]
fn history_defaults_to_ten_and_keeps_most_recent() {
    let mut h: BoundedHistory<u32> = BoundedHistory::new(None);
    for i in 0..25 {
        h.push(i);
    }
    assert_eq!(contents(&h), (15..25).collect::<Vec<u32>>());
}

#[test]
fn history_with_capacity_three() {
    let mut h: BoundedHistory<u32> = BoundedHistory::new(Some(3));
    h.push(1);
    h.push(2);
    assert_eq!(contents(&h), vec![1, 2]);
    h.push(3);
    h.push(4);
    assert_eq!(contents(&h), vec![2, 3, 4]);
    h.clear();
    assert_eq!(h.len(), 0);
    h.push(5);
    assert_eq!(contents(&h), vec![5]);
}

#[test]
fn history_of_capacity_zero_keeps_the_last_entry() {
    let mut h: BoundedHistory<u32> = BoundedHistory::new(Some(0));
    h.push(1);
    h.push(2);
    assert_eq!(contents(&h), vec![2]);
}

#[test]
fn full_history_slides() {
    let mut h = BoundedHistory::from_items(VecDeque::from(vec![0u32, 0, 0]));
    h.push(7);
    assert_eq!(contents(&h), vec![0, 0, 7]);
    h.push(8);
    h.push(9);
    h.push(10);
    assert_eq!(contents(&h), vec![8, 9, 10]);
}

const LIMIT: Option<DecoderLatencyLimit> =
    Some(DecoderLatencyLimit { max_decoder_latency_ms: 20, latency_overstep_frames: 2 });

#[test]
fn frame_sizes_are_matched_by_timestamp() {
    let mut f = BitrateFeedback::new();
    f.report_frame_encoded(1, 100);
    f.report_frame_encoded(2, 200);
    f.report_frame_encoded(3, 300);
    let r = f.report_frame_latencies(None, 2, 5_000_000, 0);
    assert_eq!(r, FrameLatencyOutcome::Recorded { frame_bits: Some(1_600), limit_reached: false });
    let r = f.report_frame_latencies(None, 3, 5_000_000, 0);
    assert_eq!(r, FrameLatencyOutcome::Recorded { frame_bits: Some(2_400), limit_reached: false });
}

#[test]
fn unknown_timestamp_drains_waiting_frames() {
    let mut f = BitrateFeedback::new();
    f.report_frame_encoded(1, 100);
    f.report_frame_encoded(2, 200);
    let r = f.report_frame_latencies(None, 9, 1, 0);
    assert_eq!(r, FrameLatencyOutcome::Recorded { frame_bits: None, limit_reached: false });
    let r = f.report_frame_latencies(None, 2, 1, 0);
    assert_eq!(r, FrameLatencyOutcome::Recorded { frame_bits: None, limit_reached: false });
}

#[test]
fn zero_network_latency_is_ignored() {
    let mut f = BitrateFeedback::new();
    f.report_frame_encoded(1, 100);
    assert_eq!(f.report_frame_latencies(LIMIT, 1, 0, 50_000_000), FrameLatencyOutcome::Ignored);
    assert_eq!(f.decoder_latency_overstep_count(), 0);
    let r = f.report_frame_latencies(None, 1, 1, 0);
    assert_eq!(r, FrameLatencyOutcome::Recorded { frame_bits: Some(800), limit_reached: false });
}

#[test]
fn decoder_limit_needs_consecutive_oversteps() {
    let mut f = BitrateFeedback::new();
    let over = 20_000_001;
    let at_limit = 20_000_000;
    let r = f.report_frame_latencies(LIMIT, 0, 1, over);
    assert_eq!(r, FrameLatencyOutcome::Recorded { frame_bits: None, limit_reached: false });
    assert_eq!(f.decoder_latency_overstep_count(), 1);
    // a frame at the limit resets the count
    f.report_frame_latencies(LIMIT, 0, 1, at_limit);
    assert_eq!(f.decoder_latency_overstep_count(), 0);
    f.report_frame_latencies(LIMIT, 0, 1, over);
    let r = f.report_frame_latencies(LIMIT, 0, 1, over);
    assert_eq!(r, FrameLatencyOutcome::Recorded { frame_bits: None, limit_reached: true });
    assert_eq!(f.decoder_latency_overstep_count(), 0);
    // without the limiter the count stays
    f.report_frame_latencies(LIMIT, 0, 1, over);
    f.report_frame_latencies(None, 0, 1, over);
    assert_eq!(f.decoder_latency_overstep_count(), 1);
}

#[test]
fn action_masks() {
    assert_eq!(get_action_mask(0, 5, false, false), vec![false, true, true]);
    assert_eq!(get_action_mask(2, 5, false, false), vec![true, true, true]);
    assert_eq!(get_action_mask(4, 5, false, false), vec![true, true, false]);
    assert_eq!(get_action_mask(2, 5, true, true), vec![true, true, false]);
    assert_eq!(get_action_mask(2, 5, false, true), vec![true, true, true]);
    assert_eq!(get_action_mask(0, 1, false, false), vec![false, true, true]);
}

#[test]
fn next_levels() {
    assert_eq!(next_bitrate_index(2, 0, 5), 1);
    assert_eq!(next_bitrate_index(0, 0, 5), 0);
    assert_eq!(next_bitrate_index(2, 1, 5), 2);
    assert_eq!(next_bitrate_index(2, 2, 5), 3);
    assert_eq!(next_bitrate_index(4, 2, 5), 4);
    assert_eq!(next_bitrate_index(2, 7, 5), 2);
    assert_eq!(next_bitrate_index(9, 1, 5), 4);
}

#[test]
fn masked_actions_move_one_level() {
    for len in 2..6usize {
        for idx in 0..len {
            let mask = get_action_mask(idx, len, false, false);
            for a in 0..3i64 {
                if mask[a as usize] {
                    assert_eq!(next_bitrate_index(idx, a, len) as i64, idx as i64 + a - 1);
                }
            }
        }
    }
}

#[test]
fn nest_vr_rule() {
    assert_eq!(nest_vr_adjustment(true, false, false, true), BitrateAdjustment::Decrease);
    assert_eq!(nest_vr_adjustment(false, true, true, true), BitrateAdjustment::Decrease);
    assert_eq!(nest_vr_adjustment(false, true, false, true), BitrateAdjustment::Hold);
    assert_eq!(nest_vr_adjustment(false, false, false, true), BitrateAdjustment::Increase);
    assert_eq!(nest_vr_adjustment(false, false, true, false), BitrateAdjustment::Hold);
}

#[test]
fn shielding_never_raises_in_an_emergency() {
    for len in 1..6usize {
        for idx in 0..len {
            let mask = get_action_mask(idx, len, true, true);
            assert!(!mask[2]);
            assert!(mask[1]);
            for a in 0..3i64 {
                if mask[a as usize] {
                    assert!(next_bitrate_index(idx, a, len) <= idx);
                }
            }
        }
    }
}

#[test]
fn full_history_keeps_its_length() {
    let mut h = BoundedHistory::from_items(VecDeque::from(vec![0u32; 1000]));
    for i in 0..2500 {
        h.push(i);
        assert_eq!(h.len(), 1000);
    }
    assert_eq!(h.items()[999], 2499);
    assert_eq!(h.items()[0], 1500);
}

#[test]
fn one_level_ladder_never_moves() {
    for a in 0..3i64 {
        if get_action_mask(0, 1, false, false)[a as usize] {
            assert_eq!(next_bitrate_index(0, a, 1), 0);
        }
    }
}
