use policy_controller::netlist::{parse_network_list, Network};

#[test]
fn two_entries_in_order() {
    let nets = parse_network_list("10.0.0.0/8,192.168.0.0/16").expect("list must parse");
    assert_eq!(nets.len(), 2);
    assert_eq!(nets[0], Network::V4 { addr: 0x0A00_0000, prefix: 8 });
    assert_eq!(nets[1], Network::V4 { addr: 0xC0A8_0000, prefix: 16 });
}

#[test]
fn invalid_entry_rejects_whole_list() {
    let err = parse_network_list("10.0.0.0/8,bad").expect_err("list must be rejected");
    assert_eq!(err.entry, 1);
}

#[test]
fn oversized_prefix_rejected() {
    let err = parse_network_list("10.0.0.0/33").expect_err("prefix 33 must be rejected");
    assert_eq!(err.entry, 0);
}

#[test]
fn default_network_list_covers_private_ranges() {
    let nets = parse_network_list("10.0.0.0/8,100.64.0.0/10,172.16.0.0/12,192.168.0.0/16")
        .expect("default list must parse");
    assert_eq!(
        nets,
        vec![
            Network::V4 { addr: 0x0A00_0000, prefix: 8 },
            Network::V4 { addr: 0x6440_0000, prefix: 10 },
            Network::V4 { addr: 0xAC10_0000, prefix: 12 },
            Network::V4 { addr: 0xC0A8_0000, prefix: 16 },
        ]
    );
}

#[test]
fn single_entry_parses() {
    let nets = parse_network_list("192.168.0.0/16").expect("single entry must parse");
    assert_eq!(nets, vec![Network::V4 { addr: 0xC0A8_0000, prefix: 16 }]);
}

#[test]
fn ipv6_entry_parses() {
    let nets = parse_network_list("fd00::/8").expect("v6 entry must parse");
    assert_eq!(nets, vec![Network::V6 { addr: 0xfd00 << 112, prefix: 8 }]);
}

#[test]
fn empty_value_rejected() {
    let err = parse_network_list("").expect_err("an empty value holds no network");
    assert_eq!(err.entry, 0);
}

#[test]
fn trailing_comma_rejected() {
    let err = parse_network_list("10.0.0.0/8,").expect_err("an empty segment is invalid");
    assert_eq!(err.entry, 1);
}

#[test]
fn missing_prefix_rejected() {
    assert!(parse_network_list("10.0.0.0").is_err());
}
