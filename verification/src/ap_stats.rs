use vstd::prelude::*;

verus! {

/// An IP address as a plain value: the four octets of an IPv4 address in one
/// `u32`, or the sixteen bytes of an IPv6 address in one `u128`, most significant
/// byte first. Two addresses are equal when they are of the same family and hold
/// the same number.
#[derive(PartialEq, Eq, Structural, Clone, Copy, Debug)]
pub enum IpAddress {
    V4(u32),
    V6(u128),
}

/// Transmit-side counters that the access point reports for one station.
#[derive(Clone, Copy, Debug, Default, PartialEq, Eq)]
pub struct TxStats {
    pub bitrate_mbps: Option<u64>,
    pub mcs: Option<u64>,
    pub bandwidth_mhz: Option<u64>,
    pub ss: Option<u64>,
    pub packets: Option<u64>,
    pub bytes: Option<u64>,
    pub retries: Option<u64>,
    pub failed: Option<u64>,
    /// Cumulative airtime spent transmitting to the station, in microseconds.
    pub duration: Option<u64>,
}

/// Receive-side counters that the access point reports for one station (the
/// integer ones; the receive bitrate is a fraction and is kept by the caller).
#[derive(Clone, Copy, Debug, Default, PartialEq, Eq)]
pub struct RxStats {
    pub mcs: Option<u64>,
    pub bandwidth_mhz: Option<u64>,
    pub ss: Option<u64>,
    pub packets: Option<u64>,
    pub bytes: Option<u64>,
    /// Cumulative airtime spent receiving from the station, in microseconds.
    pub duration: Option<u64>,
}

/// One station associated with an access point interface.
#[derive(Clone, Debug, Default, PartialEq, Eq)]
pub struct Client {
    /// The address as the access point wrote it.
    pub ip: String,
    /// The address that `ip` denotes, where it denotes one.
    pub parsed_ip: Option<IpAddress>,
    pub mac: String,
    pub hostname: Option<String>,
    pub signal_dbm: Option<i16>,
    pub noise_dbm: Option<i16>,
    pub snr_db: Option<u64>,
    pub is_vr: Option<bool>,
    pub last_comm_ms: Option<u64>,
    pub current_time_ms: Option<u64>,
    pub rx: RxStats,
    pub tx: TxStats,
    pub expected_throughput_mbps: Option<u64>,
}

/// One radio interface of the access point with its channel counters and stations
/// (the integer and text fields; packet and byte rates are fractions and are kept
/// by the caller).
#[derive(Clone, Debug, Default, PartialEq, Eq)]
pub struct Interface {
    pub interface: String,
    pub mac: Option<String>,
    pub essid: Option<String>,
    pub mode: Option<String>,
    pub ht_mode: Option<String>,
    pub channel: Option<u64>,
    pub channel_ghz: Option<String>,
    pub tx_power_dbm: Option<i16>,
    pub link_quality: Option<String>,
    pub signal_dbm: Option<i16>,
    pub noise_dbm: Option<i16>,
    pub bitrate_mbps: Option<u64>,
    /// Cumulative time the channel was active, in milliseconds.
    pub ch_active_time_ms: Option<u64>,
    /// Cumulative time the channel was sensed busy, in milliseconds.
    pub ch_busy_time_ms: Option<u64>,
    pub ch_rx_time_ms: Option<u64>,
    pub ch_bss_rx_time_ms: Option<u64>,
    pub ch_tx_time_ms: Option<u64>,
    pub clients: Vec<Client>,
}

/// One report of the access point: all its interfaces.
#[derive(Clone, Debug, Default, PartialEq, Eq)]
pub struct APStats {
    pub interfaces: Vec<Interface>,
}

impl Client {
    /// The address of the station, where its text denotes one.
    pub fn ip_addr(&self) -> (r: Option<IpAddress>)
        ensures
            r == self.parsed_ip,
    {
        self.parsed_ip
    }
}

/// The station `c` has the address `ip`.
pub open spec fn client_has_ip(c: Client, ip: IpAddress) -> bool {
    c.parsed_ip == Some(ip)
}

/// Station `j` of interface `i` exists in `ap`.
pub open spec fn valid_position(ap: APStats, i: int, j: int) -> bool {
    &&& 0 <= i < ap.interfaces@.len()
    &&& 0 <= j < ap.interfaces@[i].clients@.len()
}

/// Some station of some interface of `ap` has the address `ip`.
pub open spec fn has_client(ap: APStats, ip: IpAddress) -> bool {
    exists|i: int, j: int|
        valid_position(ap, i, j) && #[trigger] client_has_ip(ap.interfaces@[i].clients@[j], ip)
}

/// Station `j` of interface `i` has the address `ip`, and no station before it
/// (earlier interfaces first, then earlier stations of the same interface) does.
pub open spec fn is_first_client(ap: APStats, ip: IpAddress, i: int, j: int) -> bool {
    &&& valid_position(ap, i, j)
    &&& client_has_ip(ap.interfaces@[i].clients@[j], ip)
    &&& forall|i2: int, j2: int|
        0 <= i2 < i && 0 <= j2 < ap.interfaces@[i2].clients@.len() ==> !client_has_ip(
            #[trigger] ap.interfaces@[i2].clients@[j2],
            ip,
        )
    &&& forall|j2: int| 0 <= j2 < j ==> !client_has_ip(#[trigger] ap.interfaces@[i].clients@[j2], ip)
}

/// The position of the first station with address `ip`, where there is one.
pub open spec fn first_position(ap: APStats, ip: IpAddress) -> (int, int) {
    choose|i: int, j: int| is_first_client(ap, ip, i, j)
}

/// The interface that the first station with address `ip` is associated with.
pub open spec fn found_interface(ap: APStats, ip: IpAddress) -> Option<Interface> {
    if has_client(ap, ip) {
        Some(ap.interfaces@[first_position(ap, ip).0])
    } else {
        None
    }
}

/// The first station with address `ip`.
pub open spec fn found_client(ap: APStats, ip: IpAddress) -> Option<Client> {
    if has_client(ap, ip) {
        Some(ap.interfaces@[first_position(ap, ip).0].clients@[first_position(ap, ip).1])
    } else {
        None
    }
}

/// There is only one first station with a given address.
pub proof fn lemma_first_client_unique(ap: APStats, ip: IpAddress, i: int, j: int)
    requires
        is_first_client(ap, ip, i, j),
    ensures
        has_client(ap, ip),
        first_position(ap, ip) == (i, j),
{
    assert(client_has_ip(ap.interfaces@[i].clients@[j], ip));
    let (i2, j2) = first_position(ap, ip);
    assert(is_first_client(ap, ip, i2, j2));
    if i2 < i {
        assert(!client_has_ip(ap.interfaces@[i2].clients@[j2], ip));
    } else if i < i2 {
        assert(!client_has_ip(ap.interfaces@[i].clients@[j], ip));
    } else if j2 < j {
        assert(!client_has_ip(ap.interfaces@[i].clients@[j2], ip));
    } else if j < j2 {
        assert(!client_has_ip(ap.interfaces@[i].clients@[j], ip));
    }
}

/// Finds the station with address `client_ip` and the interface it is associated
/// with: the first such station, interfaces in order and stations in order within
/// each, or nothing when no station has that address.
pub fn find_client_interface<'a>(ap_stats: &'a APStats, client_ip: IpAddress) -> (r: (
    Option<&'a Interface>,
    Option<&'a Client>,
))
    ensures
        r.0 is Some <==> has_client(*ap_stats, client_ip),
        r.1 is Some <==> has_client(*ap_stats, client_ip),
        has_client(*ap_stats, client_ip) ==> exists|i: int, j: int|
            #[trigger] is_first_client(*ap_stats, client_ip, i, j) && *r.0.unwrap()
                == ap_stats.interfaces@[i] && *r.1.unwrap()
                == ap_stats.interfaces@[i].clients@[j],
        match r.0 {
            Some(f) => found_interface(*ap_stats, client_ip) == Some(*f),
            None => found_interface(*ap_stats, client_ip) is None,
        },
        match r.1 {
            Some(c) => found_client(*ap_stats, client_ip) == Some(*c),
            None => found_client(*ap_stats, client_ip) is None,
        },
{
    let n = ap_stats.interfaces.len();
    let mut i: usize = 0;
    while i < n
        invariant
            n == ap_stats.interfaces@.len(),
            i <= n,
            forall|i2: int, j2: int|
                0 <= i2 < i && 0 <= j2 < ap_stats.interfaces@[i2].clients@.len() ==> !client_has_ip(
                    #[trigger] ap_stats.interfaces@[i2].clients@[j2],
                    client_ip,
                ),
        decreases n - i,
    {
        let iface = &ap_stats.interfaces[i];
        let m = iface.clients.len();
        let mut j: usize = 0;
        while j < m
            invariant
                n == ap_stats.interfaces@.len(),
                i < n,
                *iface == ap_stats.interfaces@[i as int],
                m == iface.clients@.len(),
                j <= m,
                forall|i2: int, j2: int|
                    0 <= i2 < i && 0 <= j2 < ap_stats.interfaces@[i2].clients@.len()
                        ==> !client_has_ip(#[trigger] ap_stats.interfaces@[i2].clients@[j2], client_ip),
                forall|j2: int|
                    0 <= j2 < j ==> !client_has_ip(#[trigger] iface.clients@[j2], client_ip),
            decreases m - j,
        {
            let client = &iface.clients[j];
            let hit = match client.parsed_ip {
                Some(a) => a == client_ip,
                None => false,
            };
            if hit {
                assert(is_first_client(*ap_stats, client_ip, i as int, j as int));
                proof {
                    lemma_first_client_unique(*ap_stats, client_ip, i as int, j as int);
                }
                return (Some(iface), Some(client));
            }
            j += 1;
        }
        i += 1;
    }
    assert(!has_client(*ap_stats, client_ip)) by {
        if has_client(*ap_stats, client_ip) {
            let (i2, j2) = choose|i2: int, j2: int|
                valid_position(*ap_stats, i2, j2) && #[trigger] client_has_ip(
                    ap_stats.interfaces@[i2].clients@[j2],
                    client_ip,
                );
            assert(!client_has_ip(ap_stats.interfaces@[i2].clients@[j2], client_ip));
        }
    }
    (None, None)
}

} // verus!
