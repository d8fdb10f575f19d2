use alvr_bravr::sarsa_agent::SarsaMemory;

#[test]
fn first_step_only_remembers() {
    let mut m: SarsaMemory<&str, f32> = SarsaMemory::new(2);
    assert!(m.update("s0", 1, 0.5).is_none());
    assert_eq!(m.buffered(), 0);
}

#[test]
fn n_step_batches() {
    let mut m: SarsaMemory<u32, f32> = SarsaMemory::new(3);
    assert!(m.update(0, 0, 0.0).is_none());
    assert!(m.update(1, 1, 1.0).is_none());
    assert!(m.update(2, 2, 2.0).is_none());
    assert_eq!(m.buffered(), 2);
    let b = m.update(3, 1, 3.0).unwrap();
    assert_eq!(b.oldest.s, 0);
    assert_eq!(b.oldest.a_idx, 0);
    assert_eq!(b.oldest.r, 1.0);
    assert_eq!(b.later_rewards, vec![2.0, 3.0]);
    assert_eq!(m.buffered(), 2);
    let b = m.update(4, 0, 4.0).unwrap();
    assert_eq!((b.oldest.s, b.oldest.a_idx, b.oldest.r), (1, 1, 2.0));
    assert_eq!(b.later_rewards, vec![3.0, 4.0]);
}

#[test]
fn one_step_horizon_learns_every_step() {
    let mut m: SarsaMemory<u32, i32> = SarsaMemory::new(1);
    assert!(m.update(0, 2, 0).is_none());
    let b = m.update(1, 1, 7).unwrap();
    assert_eq!((b.oldest.s, b.oldest.a_idx, b.oldest.r), (0, 2, 7));
    assert!(b.later_rewards.is_empty());
    assert_eq!(m.buffered(), 0);
}

#[test]
fn finishing_an_episode_forgets_everything() {
    let mut m: SarsaMemory<u32, i32> = SarsaMemory::new(4);
    m.update(0, 0, 0);
    m.update(1, 0, 1);
    m.update(2, 0, 2);
    assert_eq!(m.buffered(), 2);
    m.finish_episode();
    assert_eq!(m.buffered(), 0);
    assert!(m.update(3, 1, 3).is_none());
    assert_eq!(m.buffered(), 0);
}

#[test]
fn kth_step_learns_exactly_after_the_horizon() {
    for n in 1..5usize {
        let mut m: SarsaMemory<usize, i32> = SarsaMemory::new(n);
        for k in 1..12usize {
            let learned = m.update(k, 1, k as i32).is_some();
            assert_eq!(learned, k > n);
            assert_eq!(m.buffered(), std::cmp::min(k - 1, n - 1));
            assert_eq!(m.s_prev(), Some(&k));
            assert_eq!(m.a_prev_idx(), Some(1));
        }
        m.finish_episode();
        assert!(m.update(0, 0, 0).is_none());
        assert_eq!(m.buffered(), 0);
    }
}
