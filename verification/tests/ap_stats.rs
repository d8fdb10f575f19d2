use alvr_bravr::ap_stats::{find_client_interface, APStats, Client, Interface, IpAddress, TxStats};

fn client(ip: &str, parsed: Option<IpAddress>, mcs: Option<u64>) -> Client {
    Client {
        ip: ip.to_string(),
        parsed_ip: parsed,
        mac: "aa:bb".to_string(),
        tx: TxStats { mcs, ..TxStats::default() },
        ..Client::default()
    }
}

fn iface(name: &str, clients: Vec<Client>) -> Interface {
    Interface { interface: name.to_string(), clients, ..Interface::default() }
}

const A: IpAddress = IpAddress::V4(0xc0a8_0102);
const B: IpAddress = IpAddress::V4(0xc0a8_0103);

#[test]
fn finds_client_in_second_interface() {
    let stats = APStats {
        interfaces: vec![
            iface("wlan0", vec![client("192.168.1.3", Some(B), Some(3))]),
            iface("wlan1", vec![client("192.168.1.2", Some(A), Some(7))]),
        ],
    };
    let (i, c) = find_client_interface(&stats, A);
    assert_eq!(i.unwrap().interface, "wlan1");
    assert_eq!(c.unwrap().tx.mcs, Some(7));
}

#[test]
fn first_matching_client_wins() {
    let stats = APStats {
        interfaces: vec![
            iface("wlan0", vec![client("x", None, None), client("192.168.1.2", Some(A), Some(1))]),
            iface("wlan1", vec![client("192.168.1.2", Some(A), Some(9))]),
        ],
    };
    let (i, c) = find_client_interface(&stats, A);
    assert_eq!(i.unwrap().interface, "wlan0");
    assert_eq!(c.unwrap().tx.mcs, Some(1));
}

#[test]
fn missing_client_gives_nothing() {
    let stats = APStats {
        interfaces: vec![iface("wlan0", vec![client("bad", None, Some(2))])],
    };
    let (i, c) = find_client_interface(&stats, A);
    assert!(i.is_none());
    assert!(c.is_none());
    let empty = APStats::default();
    let (i, c) = find_client_interface(&empty, A);
    assert!(i.is_none() && c.is_none());
}

#[test]
fn ipv4_and_ipv6_never_match() {
    let stats = APStats {
        interfaces: vec![iface("wlan0", vec![client("::1", Some(IpAddress::V6(1)), None)])],
    };
    assert!(find_client_interface(&stats, IpAddress::V4(1)).1.is_none());
    assert!(find_client_interface(&stats, IpAddress::V6(1)).1.is_some());
}

#[test]
fn ip_addr_reports_parsed_address() {
    assert_eq!(client("192.168.1.2", Some(A), None).ip_addr(), Some(A));
    assert_eq!(client("nonsense", None, None).ip_addr(), None);
}
