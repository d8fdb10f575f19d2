use alvr_bravr::ap_stats::{APStats, Client, Interface, IpAddress, RxStats, TxStats};
use alvr_bravr::ap_telemetry::{
    AirtimeSample, ChannelBusy, FairnessObservation, WifiTelemetry,
};
use std::collections::VecDeque;

const ME: IpAddress = IpAddress::V4(0x0a00_0002);
const OTHER: IpAddress = IpAddress::V4(0x0a00_0003);

fn vr_client(ip: &str, addr: IpAddress, tx_us: u64, rx_us: u64, now_ms: u64, mcs: u64) -> Client {
    Client {
        ip: ip.to_string(),
        parsed_ip: Some(addr),
        is_vr: Some(true),
        current_time_ms: Some(now_ms),
        tx: TxStats { duration: Some(tx_us), mcs: Some(mcs), ..TxStats::default() },
        rx: RxStats { duration: Some(rx_us), ..RxStats::default() },
        ..Client::default()
    }
}

fn report(busy: u64, active: u64, clients: Vec<Client>) -> APStats {
    APStats {
        interfaces: vec![Interface {
            interface: "wlan0".to_string(),
            ch_busy_time_ms: Some(busy),
            ch_active_time_ms: Some(active),
            clients,
            ..Interface::default()
        }],
    }
}

fn telemetry() -> WifiTelemetry {
    WifiTelemetry::new(ME, "10.0.0.2".to_string())
}

#[test]
fn empty_window_gives_nothing() {
    let mut t = telemetry();
    assert!(t.process(&VecDeque::new()).is_none());
}

#[test]
fn raw_usage_needs_a_previous_record() {
    let mut t = telemetry();
    let ip = "10.0.0.9".to_string();
    assert_eq!(t.calculate_client_raw_usage(&ip, 1_000, 500, 100), None);
    assert_eq!(
        t.calculate_client_raw_usage(&ip, 3_000, 1_500, 102),
        Some(AirtimeSample { airtime_us: 3_000, elapsed_us: 2_000 })
    );
    // same clock: no usage, the record is reset
    assert_eq!(t.calculate_client_raw_usage(&ip, 4_000, 1_500, 102), None);
    // counter went backwards: no usage
    assert_eq!(t.calculate_client_raw_usage(&ip, 10, 1_600, 110), None);
    assert_eq!(
        t.calculate_client_raw_usage(&ip, 20, 1_700, 111),
        Some(AirtimeSample { airtime_us: 110, elapsed_us: 1_000 })
    );
}

#[test]
fn raw_usage_is_exact_for_large_counters() {
    let mut t = telemetry();
    let ip = "a".to_string();
    assert_eq!(t.calculate_client_raw_usage(&ip, 0, 0, 0), None);
    assert_eq!(
        t.calculate_client_raw_usage(&ip, u64::MAX, u64::MAX, u64::MAX),
        Some(AirtimeSample {
            airtime_us: 2 * (u64::MAX as u128),
            elapsed_us: (u64::MAX as u128) * 1000,
        })
    );
}

#[test]
fn channel_and_airtime_over_two_windows() {
    let mut t = telemetry();
    let mut buffer = VecDeque::new();
    buffer.push_back(report(100, 1_000, vec![vr_client("10.0.0.2", ME, 5, 5, 10, 4)]));
    buffer.push_back(report(150, 1_100, vec![
        vr_client("10.0.0.2", ME, 10, 10, 10, 6),
        vr_client("10.0.0.3", OTHER, 10, 10, 10, 9),
    ]));
    let first = t.process(&buffer).unwrap();
    assert_eq!(first.channel.mcs_sum, 10);
    assert_eq!(first.channel.mcs_count, 2);
    // first counters seen: no growth yet
    assert_eq!(first.channel.busy, None);
    match first.fairness {
        FairnessObservation::Observed(v) => {
            assert_eq!(v.samples.len(), 2);
            assert_eq!(v.samples[0].1, None);
            assert_eq!(v.n_clients, 2);
            assert_eq!(v.mine, None);
        }
        FairnessObservation::NoInterface => panic!("interface expected"),
    }

    let mut buffer = VecDeque::new();
    buffer.push_back(report(400, 2_100, vec![
        vr_client("10.0.0.2", ME, 1_010, 510, 12, 7),
        vr_client("10.0.0.3", OTHER, 2_010, 10, 12, 8),
    ]));
    let second = t.process(&buffer).unwrap();
    assert_eq!(second.channel.mcs_sum, 7);
    assert_eq!(second.channel.mcs_count, 1);
    assert_eq!(second.channel.busy, Some(ChannelBusy { busy_delta_ms: 250, active_delta_ms: 1_000 }));
    match second.fairness {
        FairnessObservation::Observed(v) => {
            assert_eq!(v.mine, Some(AirtimeSample { airtime_us: 1_500, elapsed_us: 2_000 }));
            assert_eq!(v.samples[1].1, Some(AirtimeSample { airtime_us: 2_000, elapsed_us: 2_000 }));
            assert_eq!(v.by_client.len(), 2);
            assert_eq!(v.n_clients, 2);
        }
        FairnessObservation::NoInterface => panic!("interface expected"),
    }
}

#[test]
fn duplicate_addresses_count_once_and_last_wins() {
    let mut t = telemetry();
    let mut buffer = VecDeque::new();
    buffer.push_back(report(0, 10, vec![
        vr_client("10.0.0.2", ME, 0, 0, 1, 1),
        vr_client("10.0.0.2", ME, 100, 0, 2, 1),
    ]));
    let obs = t.process(&buffer).unwrap();
    match obs.fairness {
        FairnessObservation::Observed(v) => {
            assert_eq!(v.samples.len(), 2);
            // the second station reuses the record that the first one left
            assert_eq!(v.samples[1].1, Some(AirtimeSample { airtime_us: 100, elapsed_us: 1_000 }));
            assert_eq!(v.n_clients, 1);
            assert_eq!(v.by_client.len(), 1);
            assert_eq!(v.mine, Some(AirtimeSample { airtime_us: 100, elapsed_us: 1_000 }));
        }
        FairnessObservation::NoInterface => panic!("interface expected"),
    }
}

#[test]
fn non_vr_stations_are_skipped_and_count_is_at_least_one() {
    let mut t = telemetry();
    let mut c = vr_client("10.0.0.2", ME, 0, 0, 1, 1);
    c.is_vr = None;
    let mut buffer = VecDeque::new();
    buffer.push_back(report(0, 10, vec![c]));
    match t.process(&buffer).unwrap().fairness {
        FairnessObservation::Observed(v) => {
            assert!(v.samples.is_empty());
            assert_eq!(v.n_clients, 1);
            assert_eq!(v.mine, None);
        }
        FairnessObservation::NoInterface => panic!("interface expected"),
    }
}

#[test]
fn report_without_own_interface() {
    let mut t = telemetry();
    let mut buffer = VecDeque::new();
    buffer.push_back(report(5, 10, vec![vr_client("10.0.0.3", OTHER, 0, 0, 1, 1)]));
    let obs = t.process(&buffer).unwrap();
    assert!(matches!(obs.fairness, FairnessObservation::NoInterface));
    assert_eq!(obs.channel.busy, None);
    assert_eq!(obs.channel.mcs_count, 0);
}

#[test]
fn channel_time_that_does_not_grow_gives_no_fraction() {
    let mut t = telemetry();
    let me = vr_client("10.0.0.2", ME, 0, 0, 1, 1);
    let mut buffer = VecDeque::new();
    buffer.push_back(report(5, 10, vec![me.clone()]));
    t.process(&buffer);
    let mut buffer = VecDeque::new();
    buffer.push_back(report(9, 10, vec![me.clone()]));
    assert_eq!(t.process(&buffer).unwrap().channel.busy, None);
    let mut buffer = VecDeque::new();
    buffer.push_back(report(3, 20, vec![me]));
    assert_eq!(
        t.process(&buffer).unwrap().channel.busy,
        Some(ChannelBusy { busy_delta_ms: -6, active_delta_ms: 10 })
    );
}

#[test]
fn usage_over_consecutive_intervals_adds_up() {
    let mut split = telemetry();
    let mut whole = telemetry();
    let ip = "s".to_string();
    split.calculate_client_raw_usage(&ip, 100, 10, 5);
    whole.calculate_client_raw_usage(&ip, 100, 10, 5);
    let a = split.calculate_client_raw_usage(&ip, 400, 60, 8).unwrap();
    let b = split.calculate_client_raw_usage(&ip, 900, 70, 20).unwrap();
    let w = whole.calculate_client_raw_usage(&ip, 900, 70, 20).unwrap();
    assert_eq!(a.airtime_us + b.airtime_us, w.airtime_us);
    assert_eq!(a.elapsed_us + b.elapsed_us, w.elapsed_us);
    assert_eq!(w, AirtimeSample { airtime_us: 860, elapsed_us: 15_000 });
}
