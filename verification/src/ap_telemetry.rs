use vstd::prelude::*;
use std::collections::VecDeque;
use crate::ap_stats::{
    APStats, Client, IpAddress, found_client, found_interface, find_client_interface,
};
use crate::text_table::{TextKeyedTable, pairs_map, lemma_pairs_map_dom};

verus! {

/// The airtime counters last seen for one station.
#[derive(Clone, Copy, Debug, PartialEq, Eq)]
pub struct ClientAirtimeInfo {
    pub last_tx_us: u64,
    pub last_rx_us: u64,
    pub last_time_ms: u64,
}

/// Airtime that a station used between two reports, and the time between them,
/// both in microseconds. Their quotient is the station's share of the airtime.
#[derive(Clone, Copy, Debug, PartialEq, Eq)]
pub struct AirtimeSample {
    pub airtime_us: u128,
    pub elapsed_us: u128,
}

/// The record kept after seeing the counters `tx`, `rx` at time `now`.
pub open spec fn airtime_record(tx: u64, rx: u64, now: u64) -> ClientAirtimeInfo {
    ClientAirtimeInfo { last_tx_us: tx, last_rx_us: rx, last_time_ms: now }
}

/// What a map holds for `k`, if anything.
pub open spec fn lookup<K, V>(m: Map<K, V>, k: K) -> Option<V> {
    if m.contains_key(k) {
        Some(m[k])
    } else {
        None
    }
}

/// The airtime used since the previous record `prev`: nothing for a station seen
/// for the first time, nor when a counter went backwards or the clock did not
/// advance; otherwise the growth of both counters over the time elapsed.
pub open spec fn airtime_usage(
    prev: Option<ClientAirtimeInfo>,
    tx: u64,
    rx: u64,
    now: u64,
) -> Option<AirtimeSample> {
    match prev {
        None => None,
        Some(p) => if tx < p.last_tx_us || rx < p.last_rx_us || now <= p.last_time_ms {
            None
        } else {
            Some(
                AirtimeSample {
                    airtime_us: ((tx - p.last_tx_us) + (rx - p.last_rx_us)) as u128,
                    elapsed_us: ((now - p.last_time_ms) * 1000) as u128,
                },
            )
        },
    }
}

/// A station that the access point flags as a VR client; an absent flag means no.
pub open spec fn is_vr_client(c: Client) -> bool {
    c.is_vr == Some(true)
}

/// Runs the airtime bookkeeping over the VR stations of `clients`, in order,
/// starting from the records `hist`: the records afterwards, and for each VR
/// station its address text and the airtime it used.
pub open spec fn airtime_run(
    hist: Map<Seq<char>, ClientAirtimeInfo>,
    clients: Seq<Client>,
) -> (Map<Seq<char>, ClientAirtimeInfo>, Seq<(Seq<char>, Option<AirtimeSample>)>)
    decreases clients.len(),
{
    if clients.len() == 0 {
        (hist, Seq::empty())
    } else {
        let (h, out) = airtime_run(hist, clients.drop_last());
        let c = clients.last();
        if is_vr_client(c) {
            let tx = match c.tx.duration {
                Some(v) => v,
                None => 0,
            };
            let rx = match c.rx.duration {
                Some(v) => v,
                None => 0,
            };
            let now = match c.current_time_ms {
                Some(v) => v,
                None => 0,
            };
            (
                h.insert(c.ip@, airtime_record(tx, rx, now)),
                out.push((c.ip@, airtime_usage(lookup(h, c.ip@), tx, rx, now))),
            )
        } else {
            (h, out)
        }
    }
}

/// The counters of the channel between the last two reports: how much longer it
/// was busy, and how much longer it was active, in milliseconds.
#[derive(Clone, Copy, Debug, PartialEq, Eq)]
pub struct ChannelBusy {
    pub busy_delta_ms: i128,
    pub active_delta_ms: i128,
}

/// What a window of reports says of the radio link and the channel: the sum and
/// number of the transmit MCS indices reported for the station, and the growth of
/// the channel counters where the channel was active meanwhile.
#[derive(Clone, Copy, Debug, PartialEq, Eq)]
pub struct ChannelStats {
    pub mcs_sum: u128,
    pub mcs_count: usize,
    pub busy: Option<ChannelBusy>,
}

/// The transmit MCS index reported for the station with address `ip`.
pub open spec fn reported_mcs(ap: APStats, ip: IpAddress) -> Option<u64> {
    match found_client(ap, ip) {
        Some(c) => c.tx.mcs,
        None => None,
    }
}

/// The sum of the MCS indices reported for `ip` over the reports `s`.
pub open spec fn mcs_sum(s: Seq<APStats>, ip: IpAddress) -> int
    decreases s.len(),
{
    if s.len() == 0 {
        0
    } else {
        mcs_sum(s.drop_last(), ip) + match reported_mcs(s.last(), ip) {
            Some(m) => m as int,
            None => 0,
        }
    }
}

/// The number of reports among `s` that give an MCS index for `ip`.
pub open spec fn mcs_count(s: Seq<APStats>, ip: IpAddress) -> int
    decreases s.len(),
{
    if s.len() == 0 {
        0
    } else {
        mcs_count(s.drop_last(), ip) + if reported_mcs(s.last(), ip) is Some {
            1int
        } else {
            0
        }
    }
}

/// The channel counters of the report `ap` for the interface of `ip`, an absent
/// busy time read as 0 and an absent active time as 1.
pub open spec fn channel_counters(ap: APStats, ip: IpAddress) -> Option<(u64, u64)> {
    match found_interface(ap, ip) {
        Some(iface) => Some(
            (
                match iface.ch_busy_time_ms {
                    Some(v) => v,
                    None => 0,
                },
                match iface.ch_active_time_ms {
                    Some(v) => v,
                    None => 1,
                },
            ),
        ),
        None => None,
    }
}

/// The growth of the channel counters from the previous ones (the current ones
/// where there are none yet), where the active time grew.
pub open spec fn channel_busy(
    prev_busy: Option<u64>,
    prev_active: Option<u64>,
    busy: u64,
    active: u64,
) -> Option<ChannelBusy> {
    let pb = match prev_busy {
        Some(v) => v,
        None => busy,
    };
    let pa = match prev_active {
        Some(v) => v,
        None => active,
    };
    if active - pa > 0 {
        Some(ChannelBusy { busy_delta_ms: (busy - pb) as i128, active_delta_ms: (active - pa) as i128 })
    } else {
        None
    }
}

/// The channel growth that a window of reports gives, and the channel counters
/// remembered afterwards: those of the last report where it has the client's
/// interface, else the previous ones, with no growth.
pub open spec fn channel_update(
    prev_busy: Option<u64>,
    prev_active: Option<u64>,
    reports: Seq<APStats>,
    ip: IpAddress,
) -> (Option<ChannelBusy>, Option<u64>, Option<u64>) {
    if reports.len() > 0 && channel_counters(reports.last(), ip) is Some {
        let (b, a) = channel_counters(reports.last(), ip).unwrap();
        (channel_busy(prev_busy, prev_active, b, a), Some(b), Some(a))
    } else {
        (None, prev_busy, prev_active)
    }
}

/// The address texts and samples of a list of samples.
pub open spec fn samples_view(v: Seq<(String, Option<AirtimeSample>)>) -> Seq<
    (Seq<char>, Option<AirtimeSample>),
> {
    v.map_values(|e: (String, Option<AirtimeSample>)| (e.0@, e.1))
}

/// The airtime records after the report `latest`: those that the VR stations of
/// the client's interface leave, or the same records where the interface is not
/// in the report.
pub open spec fn fairness_history(
    hist: Map<Seq<char>, ClientAirtimeInfo>,
    latest: APStats,
    ip: IpAddress,
) -> Map<Seq<char>, ClientAirtimeInfo> {
    match found_interface(latest, ip) {
        Some(iface) => airtime_run(hist, iface.clients@).0,
        None => hist,
    }
}

/// `r` is what the report `latest` says of the airtime of the VR stations of the
/// client's interface, given the records `hist`.
pub open spec fn fairness_matches(
    r: FairnessObservation,
    hist: Map<Seq<char>, ClientAirtimeInfo>,
    latest: APStats,
    ip: IpAddress,
    ip_text: Seq<char>,
) -> bool {
    match found_interface(latest, ip) {
        None => r is NoInterface,
        Some(iface) => {
            let out = airtime_run(hist, iface.clients@).1;
            let m = pairs_map(out);
            &&& r is Observed
            &&& samples_view(r->Observed_0.samples@) == out
            &&& r->Observed_0.by_client@ == m
            &&& r->Observed_0.n_clients == (if m.dom().len() > 1 {
                m.dom().len()
            } else {
                1
            })
            &&& r->Observed_0.mine == (match lookup(m, ip_text) {
                Some(Some(s)) => Some(s),
                _ => None,
            })
        },
    }
}

/// How the VR stations of the interface shared the airtime since the last report.
pub struct VrAirtime {
    /// Every VR station of the interface, in order, with the airtime it used.
    pub samples: Vec<(String, Option<AirtimeSample>)>,
    /// One entry per distinct address: the sample of its last station.
    pub by_client: TextKeyedTable<Option<AirtimeSample>>,
    /// The number of distinct VR station addresses, at least 1.
    pub n_clients: usize,
    /// The sample of the station whose address text is the client's own.
    pub mine: Option<AirtimeSample>,
}

/// The fairness part of a report: nothing where the client's interface is not in
/// it.
pub enum FairnessObservation {
    NoInterface,
    Observed(VrAirtime),
}

/// What one window of reports gives.
pub struct WifiObservation {
    pub channel: ChannelStats,
    pub fairness: FairnessObservation,
}

/// The integer bookkeeping of the access point telemetry for one client: the
/// airtime counters of every VR station seen and the channel counters of the last
/// report.
pub struct WifiTelemetry {
    client_ip: IpAddress,
    client_ip_text: String,
    airtime_history: TextKeyedTable<ClientAirtimeInfo>,
    prev_busy_time_ms: Option<u64>,
    prev_active_time_ms: Option<u64>,
}

impl WifiTelemetry {
    /// The client's address.
    pub closed spec fn ip(&self) -> IpAddress {
        self.client_ip
    }

    /// The client's address written as text, as it is compared with station texts.
    pub closed spec fn ip_text(&self) -> Seq<char> {
        self.client_ip_text@
    }
    /// The airtime records, by station address text.
    pub closed spec fn history(&self) -> Map<Seq<char>, ClientAirtimeInfo> {
        self.airtime_history@
    }

    /// The busy time of the last report that had the client's interface.
    pub closed spec fn prev_busy(&self) -> Option<u64> {
        self.prev_busy_time_ms
    }

    /// The active time of the last report that had the client's interface.
    pub closed spec fn prev_active(&self) -> Option<u64> {
        self.prev_active_time_ms
    }

    pub fn new(client_ip: IpAddress, client_ip_text: String) -> (t: Self)
        ensures
            t.ip() == client_ip,
            t.ip_text() == client_ip_text@,
            t.history() == Map::<Seq<char>, ClientAirtimeInfo>::empty(),
            t.prev_busy() is None,
            t.prev_active() is None,
    {
        WifiTelemetry {
            client_ip,
            client_ip_text,
            airtime_history: TextKeyedTable::new(),
            prev_busy_time_ms: None,
            prev_active_time_ms: None,
        }
    }

    /// Takes the counters `tx`, `rx` of the station with address text `ip` at
    /// time `now`, remembers them, and returns the airtime it used since its
    /// previous counters.
    pub fn calculate_client_raw_usage(&mut self, ip: &String, tx: u64, rx: u64, now: u64) -> (r:
        Option<AirtimeSample>)
        ensures
            final(self).history() == old(self).history().insert(ip@, airtime_record(tx, rx, now)),
            r == airtime_usage(lookup(old(self).history(), ip@), tx, rx, now),
            final(self).ip() == old(self).ip(),
            final(self).ip_text() == old(self).ip_text(),
            final(self).prev_busy() == old(self).prev_busy(),
            final(self).prev_active() == old(self).prev_active(),
    {
        let prev = self.airtime_history.get(ip);
        let result = match prev {
            None => None,
            Some(p) => {
                if tx < p.last_tx_us || rx < p.last_rx_us || now <= p.last_time_ms {
                    None
                } else {
                    let usage: u128 = (tx - p.last_tx_us) as u128 + (rx - p.last_rx_us) as u128;
                    let elapsed: u128 = (now - p.last_time_ms) as u128 * 1000;
                    Some(AirtimeSample { airtime_us: usage, elapsed_us: elapsed })
                }
            },
        };
        self.airtime_history.insert(
            ip.clone(),
            ClientAirtimeInfo { last_tx_us: tx, last_rx_us: rx, last_time_ms: now },
        );
        result
    }

    /// Sums the transmit MCS indices reported for the client over `buffer`, and
    /// takes the channel counters of its last report, where that report has the
    /// client's interface: the growth since the previous such counters is
    /// returned where the active time grew, and the counters are remembered.
    pub fn compute_channel_stats(&mut self, buffer: &VecDeque<APStats>) -> (r: ChannelStats)
        ensures
            final(self).history() == old(self).history(),
            final(self).ip() == old(self).ip(),
            final(self).ip_text() == old(self).ip_text(),
            r.mcs_sum == mcs_sum(buffer@, old(self).ip()),
            r.mcs_count == mcs_count(buffer@, old(self).ip()),
            (r.busy, final(self).prev_busy(), final(self).prev_active()) == channel_update(
                old(self).prev_busy(),
                old(self).prev_active(),
                buffer@,
                old(self).ip(),
            ),
    {
        let n = buffer.len();
        let mut sum: u128 = 0;
        let mut count: usize = 0;
        let mut i: usize = 0;
        while i < n
            invariant
                n == buffer@.len(),
                i <= n,
                sum == mcs_sum(buffer@.take(i as int), self.ip()),
                count == mcs_count(buffer@.take(i as int), self.ip()),
                sum <= i * 0xffff_ffff_ffff_ffffu128,
                count <= i,
            decreases n - i,
        {
            let ap = &buffer[i];
            let (_, client_opt) = find_client_interface(ap, self.client_ip);
            assert(buffer@.take(i + 1).drop_last() =~= buffer@.take(i as int));
            assert(buffer@.take(i + 1).last() == buffer@[i as int]);
            if let Some(client) = client_opt {
                if let Some(mcs) = client.tx.mcs {
                    sum = sum + mcs as u128;
                    count = count + 1;
                }
            }
            i += 1;
        }
        assert(buffer@.take(n as int) =~= buffer@);
        let mut busy: Option<ChannelBusy> = None;
        if n > 0 {
            let last = &buffer[n - 1];
            let (iface_opt, _) = find_client_interface(last, self.client_ip);
            if let Some(iface) = iface_opt {
                let b: u64 = match iface.ch_busy_time_ms {
                    Some(v) => v,
                    None => 0,
                };
                let a: u64 = match iface.ch_active_time_ms {
                    Some(v) => v,
                    None => 1,
                };
                let pb: u64 = match self.prev_busy_time_ms {
                    Some(v) => v,
                    None => b,
                };
                let pa: u64 = match self.prev_active_time_ms {
                    Some(v) => v,
                    None => a,
                };
                let busy_delta: i128 = b as i128 - pb as i128;
                let active_delta: i128 = a as i128 - pa as i128;
                if active_delta > 0 {
                    busy = Some(ChannelBusy { busy_delta_ms: busy_delta, active_delta_ms: active_delta });
                }
                self.prev_busy_time_ms = Some(b);
                self.prev_active_time_ms = Some(a);
            }
        }
        ChannelStats { mcs_sum: sum, mcs_count: count, busy }
    }

    /// Takes the airtime counters of every VR station of the client's interface in
    /// the report `latest`, in order, and returns what each used since its previous
    /// counters.
    pub fn compute_fairness_and_usage(&mut self, latest: &APStats) -> (r: FairnessObservation)
        ensures
            final(self).ip() == old(self).ip(),
            final(self).ip_text() == old(self).ip_text(),
            final(self).prev_busy() == old(self).prev_busy(),
            final(self).prev_active() == old(self).prev_active(),
            final(self).history() == fairness_history(old(self).history(), *latest, old(self).ip()),
            fairness_matches(r, old(self).history(), *latest, old(self).ip(), old(self).ip_text()),
    {
        let (iface_opt, _) = find_client_interface(latest, self.client_ip);
        let iface = match iface_opt {
            Some(i) => i,
            None => return FairnessObservation::NoInterface,
        };
        let ghost hist0 = self.history();
        let mut samples: Vec<(String, Option<AirtimeSample>)> = Vec::new();
        let mut by_client: TextKeyedTable<Option<AirtimeSample>> = TextKeyedTable::new();
        let n = iface.clients.len();
        let mut k: usize = 0;
        while k < n
            invariant
                n == iface.clients@.len(),
                k <= n,
                self.ip() == old(self).ip(),
                self.ip_text() == old(self).ip_text(),
                self.prev_busy() == old(self).prev_busy(),
                self.prev_active() == old(self).prev_active(),
                airtime_run(hist0, iface.clients@.take(k as int)) == (
                    self.history(),
                    samples_view(samples@),
                ),
                by_client@ == pairs_map(samples_view(samples@)),
            decreases n - k,
        {
            let c = &iface.clients[k];
            assert(iface.clients@.take(k + 1).drop_last() =~= iface.clients@.take(k as int));
            assert(iface.clients@.take(k + 1).last() == iface.clients@[k as int]);
            let vr = match c.is_vr {
                Some(b) => b,
                None => false,
            };
            if vr {
                let tx = match c.tx.duration {
                    Some(v) => v,
                    None => 0,
                };
                let rx = match c.rx.duration {
                    Some(v) => v,
                    None => 0,
                };
                let now = match c.current_time_ms {
                    Some(v) => v,
                    None => 0,
                };
                let ghost old_samples = samples_view(samples@);
                let raw = self.calculate_client_raw_usage(&c.ip, tx, rx, now);
                samples.push((c.ip.clone(), raw));
                by_client.insert(c.ip.clone(), raw);
                assert(samples_view(samples@) =~= old_samples.push((c.ip@, raw)));
                assert(samples_view(samples@).drop_last() =~= old_samples);
            }
            k += 1;
        }
        assert(iface.clients@.take(n as int) =~= iface.clients@);
        let distinct = by_client.len();
        let n_clients = if distinct > 1 {
            distinct
        } else {
            1
        };
        let mine = match by_client.get(&self.client_ip_text) {
            Some(Some(s)) => Some(s),
            _ => None,
        };
        FairnessObservation::Observed(VrAirtime { samples, by_client, n_clients, mine })
    }

    /// Reads a window of reports, oldest first: nothing when it is empty;
    /// otherwise the channel statistics of the whole window and the airtime of the
    /// VR stations in its last report.
    pub fn process(&mut self, buffer: &VecDeque<APStats>) -> (r: Option<WifiObservation>)
        ensures
            final(self).ip() == old(self).ip(),
            final(self).ip_text() == old(self).ip_text(),
            buffer@.len() == 0 ==> {
                &&& r is None
                &&& final(self).history() == old(self).history()
                &&& final(self).prev_busy() == old(self).prev_busy()
                &&& final(self).prev_active() == old(self).prev_active()
            },
            buffer@.len() > 0 ==> {
                &&& r is Some
                &&& r->0.channel.mcs_sum == mcs_sum(buffer@, old(self).ip())
                &&& r->0.channel.mcs_count == mcs_count(buffer@, old(self).ip())
                &&& (r->0.channel.busy, final(self).prev_busy(), final(self).prev_active())
                    == channel_update(
                    old(self).prev_busy(),
                    old(self).prev_active(),
                    buffer@,
                    old(self).ip(),
                )
                &&& final(self).history() == fairness_history(
                    old(self).history(),
                    buffer@.last(),
                    old(self).ip(),
                )
                &&& fairness_matches(
                    r->0.fairness,
                    old(self).history(),
                    buffer@.last(),
                    old(self).ip(),
                    old(self).ip_text(),
                )
            },
    {
        let n = buffer.len();
        if n == 0 {
            return None;
        }
        let channel = self.compute_channel_stats(buffer);
        let fairness = self.compute_fairness_and_usage(&buffer[n - 1]);
        Some(WifiObservation { channel, fairness })
    }
}

/// The address texts of the VR stations among `clients`, in order.
pub open spec fn vr_addresses(clients: Seq<Client>) -> Seq<Seq<char>> {
    clients.filter_map(|c: Client| if is_vr_client(c) {
        Some(c.ip@)
    } else {
        None
    })
}

/// The address texts of a list of samples, in order.
pub open spec fn sample_addresses(s: Seq<(Seq<char>, Option<AirtimeSample>)>) -> Seq<Seq<char>> {
    s.map_values(|e: (Seq<char>, Option<AirtimeSample>)| e.0)
}

/// Every VR station of a report is accounted for exactly once and in order, and
/// the table by address has an entry for exactly the addresses of the VR
/// stations.
pub proof fn law_every_vr_station_accounted_once(
    hist: Map<Seq<char>, ClientAirtimeInfo>,
    clients: Seq<Client>,
)
    ensures
        sample_addresses(airtime_run(hist, clients).1) == vr_addresses(clients),
        pairs_map(airtime_run(hist, clients).1).dom() == vr_addresses(clients).to_set(),
    decreases clients.len(),
{
    let out = airtime_run(hist, clients).1;
    if clients.len() > 0 {
        law_every_vr_station_accounted_once(hist, clients.drop_last());
        let prev = airtime_run(hist, clients.drop_last()).1;
        if is_vr_client(clients.last()) {
            assert(out.drop_last() =~= prev);
            assert(sample_addresses(out) =~= sample_addresses(prev).push(clients.last().ip@));
            assert(vr_addresses(clients) =~= vr_addresses(clients.drop_last()) + seq![
                clients.last().ip@,
            ]);
        } else {
            assert(vr_addresses(clients) =~= vr_addresses(clients.drop_last()));
        }
    } else {
        assert(sample_addresses(out) =~= vr_addresses(clients));
    }
    lemma_pairs_map_dom(out);
    assert(out.map_values(|e: (Seq<char>, Option<AirtimeSample>)| e.0) =~= sample_addresses(out));
}

/// A station takes part in the airtime accounting exactly when the access point
/// flags it as VR with `Some(true)`: adding a station flagged `Some(false)` or not
/// flagged changes neither the records nor the samples, and adding a station
/// flagged `Some(true)` adds one sample, for its address, at the end.
pub proof fn law_station_sampled_iff_flagged_vr(
    hist: Map<Seq<char>, ClientAirtimeInfo>,
    clients: Seq<Client>,
    c: Client,
)
    ensures
        c.is_vr != Some(true) ==> airtime_run(hist, clients.push(c)) == airtime_run(hist, clients),
        c.is_vr == Some(true) ==> airtime_run(hist, clients.push(c)).1.len() == airtime_run(
            hist,
            clients,
        ).1.len() + 1,
        c.is_vr == Some(true) ==> airtime_run(hist, clients.push(c)).1.drop_last() == airtime_run(
            hist,
            clients,
        ).1,
        c.is_vr == Some(true) ==> airtime_run(hist, clients.push(c)).1.last().0 == c.ip@,
{
    assert(clients.push(c).drop_last() =~= clients);
    assert(clients.push(c).last() == c);
    let out = airtime_run(hist, clients).1;
    if c.is_vr == Some(true) {
        assert(airtime_run(hist, clients.push(c)).1.drop_last() =~= out);
    }
}

/// Some station of `clients` has the address text `addr` and is flagged VR
/// with `Some(true)`.
pub open spec fn flagged_vr_station(clients: Seq<Client>, addr: Seq<char>) -> bool {
    exists|j: int|
        0 <= j < clients.len() && (#[trigger] clients[j]).is_vr == Some(true) && clients[j].ip@ == addr
}

/// Every sample belongs to a station of the report flagged `Some(true)` with that
/// address, and there are as many samples as such stations.
pub proof fn law_samples_come_from_flagged_stations(
    hist: Map<Seq<char>, ClientAirtimeInfo>,
    clients: Seq<Client>,
)
    ensures
        forall|i: int|
            0 <= i < airtime_run(hist, clients).1.len() ==> flagged_vr_station(
                clients,
                #[trigger] airtime_run(hist, clients).1[i].0,
            ),
        airtime_run(hist, clients).1.len() == clients.filter_map(
            |c: Client|
                if c.is_vr == Some(true) {
                    Some(c.ip@)
                } else {
                    None
                },
        ).len(),
    decreases clients.len(),
{
    let out = airtime_run(hist, clients).1;
    if clients.len() > 0 {
        let prev_clients = clients.drop_last();
        law_samples_come_from_flagged_stations(hist, prev_clients);
        law_station_sampled_iff_flagged_vr(hist, prev_clients, clients.last());
        assert(prev_clients.push(clients.last()) =~= clients);
        let prev = airtime_run(hist, prev_clients).1;
        assert forall|i: int| 0 <= i < out.len() implies flagged_vr_station(
            clients,
            #[trigger] out[i].0,
        ) by {
            if i < prev.len() {
                assert(out[i] == prev[i]);
                assert(flagged_vr_station(prev_clients, prev[i].0));
                let j = choose|j: int|
                    0 <= j < prev_clients.len() && (#[trigger] prev_clients[j]).is_vr == Some(true)
                        && prev_clients[j].ip@ == prev[i].0;
                assert(clients[j] == prev_clients[j]);
            } else {
                if clients.last().is_vr != Some(true) {
                    assert(out == prev);
                }
                assert(out[i] == out.last());
                assert(clients[clients.len() - 1] == clients.last());
            }
        }
        let f = |c: Client|
            if c.is_vr == Some(true) {
                Some(c.ip@)
            } else {
                None
            };
        if clients.last().is_vr == Some(true) {
            assert(clients.filter_map(f) =~= prev_clients.filter_map(f) + seq![clients.last().ip@]);
        } else {
            assert(clients.filter_map(f) =~= prev_clients.filter_map(f));
        }
    } else {
        assert(out =~= Seq::<(Seq<char>, Option<AirtimeSample>)>::empty());
    }
}

/// The report window's MCS figures grow report by report: a report that gives a
/// transmit MCS for the client's station adds it to the sum and one to the
/// count; a report whose station gives no MCS, or that has no such station,
/// changes neither. An empty window has sum and count 0.
pub proof fn law_mcs_counts_only_reported_indices(s: Seq<APStats>, ap: APStats, ip: IpAddress)
    ensures
        mcs_sum(Seq::<APStats>::empty(), ip) == 0,
        mcs_count(Seq::<APStats>::empty(), ip) == 0,
        match found_client(ap, ip) {
            Some(c) => match c.tx.mcs {
                Some(m) => mcs_sum(s.push(ap), ip) == mcs_sum(s, ip) + m && mcs_count(s.push(ap), ip)
                    == mcs_count(s, ip) + 1,
                None => mcs_sum(s.push(ap), ip) == mcs_sum(s, ip) && mcs_count(s.push(ap), ip)
                    == mcs_count(s, ip),
            },
            None => mcs_sum(s.push(ap), ip) == mcs_sum(s, ip) && mcs_count(s.push(ap), ip) == mcs_count(
                s,
                ip,
            ),
        },
{
    assert(s.push(ap).drop_last() =~= s);
}

/// What the airtime usage is, for all counters: nothing for a station without a
/// record; otherwise a sample exactly when neither counter went backwards and the
/// clock advanced, holding the growth of both airtime counters, in microseconds,
/// and the milliseconds elapsed converted to microseconds; a sample always spans
/// at least a millisecond.
pub proof fn law_airtime_usage_values(p: ClientAirtimeInfo, tx: u64, rx: u64, now: u64)
    ensures
        airtime_usage(None, tx, rx, now) is None,
        airtime_usage(Some(p), tx, rx, now) is Some <==> (p.last_tx_us <= tx && p.last_rx_us <= rx
            && p.last_time_ms < now),
        airtime_usage(Some(p), tx, rx, now) is Some ==> {
            let u = airtime_usage(Some(p), tx, rx, now)->0;
            &&& u.airtime_us + p.last_tx_us + p.last_rx_us == tx + rx
            &&& u.elapsed_us == 1000 * (now - p.last_time_ms)
            &&& u.elapsed_us >= 1000
        },
{
}

/// Reporting the same counters twice in a row gives no usage the second time:
/// the record already holds them and the clock did not advance.
pub proof fn law_repeated_counters_give_no_usage(
    hist: Map<Seq<char>, ClientAirtimeInfo>,
    ip: Seq<char>,
    tx: u64,
    rx: u64,
    now: u64,
)
    ensures
        airtime_usage(lookup(hist.insert(ip, airtime_record(tx, rx, now)), ip), tx, rx, now) is None,
{
}

/// Usage is counted from cumulative counters, so nothing is lost or counted
/// twice: the usage over two consecutive intervals adds up to the usage over the
/// whole, in airtime and in time.
pub proof fn law_airtime_usage_adds_up(
    p: ClientAirtimeInfo,
    tx1: u64,
    rx1: u64,
    now1: u64,
    tx2: u64,
    rx2: u64,
    now2: u64,
)
    requires
        airtime_usage(Some(p), tx1, rx1, now1) is Some,
        airtime_usage(Some(airtime_record(tx1, rx1, now1)), tx2, rx2, now2) is Some,
    ensures
        airtime_usage(Some(p), tx2, rx2, now2) is Some,
        airtime_usage(Some(p), tx1, rx1, now1)->0.airtime_us + airtime_usage(
            Some(airtime_record(tx1, rx1, now1)),
            tx2,
            rx2,
            now2,
        )->0.airtime_us == airtime_usage(Some(p), tx2, rx2, now2)->0.airtime_us,
        airtime_usage(Some(p), tx1, rx1, now1)->0.elapsed_us + airtime_usage(
            Some(airtime_record(tx1, rx1, now1)),
            tx2,
            rx2,
            now2,
        )->0.elapsed_us == airtime_usage(Some(p), tx2, rx2, now2)->0.elapsed_us,
{
}

} // verus!
