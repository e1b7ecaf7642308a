use repliagent::srvr::{Srvr, SrvrError};

#[test]
fn parse_valid_response() {
    let response = Srvr::parse_response(r#"Zookeeper version: 3.4.13-2d71af4dbe22557fda74f9a9b4309b15a7487f03, built on 06/29/2018 04:05 GMT
Latency min/avg/max: 0/0/0
Received: 8
Sent: 7
Connections: 1
Outstanding: 0
Zxid: 0x600000004
Mode: leader
Node count: 4
Proposal sizes last/min/max: 32/32/36"#).unwrap();
    assert_eq!(response.zk_mode, "leader");
    assert_eq!(
        response.zk_version,
        "3.4.13-2d71af4dbe22557fda74f9a9b4309b15a7487f03, built on 06/29/2018 04:05 GMT"
    );
    assert_eq!(response.zk_zxid, 25769803780);
    assert_eq!(response.extra("Latency min/avg/max").unwrap(), "0/0/0");
    assert_eq!(response.extra("Proposal sizes last/min/max").unwrap(), "32/32/36");
}

#[test]
fn srvr_command_word() {
    assert_eq!(Srvr::command(), "srvr");
}

#[test]
fn srvr_missing_mode() {
    let r = Srvr::parse_response("Zookeeper version: 3.4\nZxid: 0x1\n");
    assert_eq!(r, Err(SrvrError::MissingField("zk_mode".to_string())));
}

#[test]
fn srvr_stops_at_line_without_colon() {
    let r = Srvr::parse_response("Zookeeper version: 3.4\nZxid: 0x1\n\nMode: leader\n");
    assert_eq!(r, Err(SrvrError::MissingField("zk_mode".to_string())));
}

#[test]
fn srvr_invalid_zxid() {
    let r = Srvr::parse_response("Mode: leader\nZxid: 0xzz\nZookeeper version: 3\n");
    assert_eq!(r, Err(SrvrError::InvalidZxid));
    let r = Srvr::parse_response("Mode: leader\nZxid: 0xffffffffffffffff\nZookeeper version: 3\n");
    assert_eq!(r, Err(SrvrError::InvalidZxid));
}

#[test]
fn srvr_crlf_lines_and_last_value_wins() {
    let r = Srvr::parse_response("Mode: follower\r\nMode: leader\r\nZxid: 0xFF\r\nZookeeper version: 3.5\r\nk: a\r\nk: b\r\n")
        .unwrap();
    assert_eq!(r.zk_mode, "leader");
    assert_eq!(r.zk_zxid, 255);
    assert_eq!(r.zk_version, "3.5");
    assert_eq!(r.extra("k").unwrap(), "b");
    assert!(r.extra("missing").is_none());
}

#[test]
fn srvr_zxid_reads_like_from_str_radix() {
    let base = "Mode: leader\nZookeeper version: 3\n";
    let r = Srvr::parse_response(&format!("{}Zxid: 0x+5\n", base)).unwrap();
    assert_eq!(r.zk_zxid, 5);
    let r = Srvr::parse_response(&format!("{}Zxid: 0x-1\n", base)).unwrap();
    assert_eq!(r.zk_zxid, -1);
    let r = Srvr::parse_response(&format!("{}Zxid: 0x-8000000000000000\n", base)).unwrap();
    assert_eq!(r.zk_zxid, i64::MIN);
    assert_eq!(Srvr::parse_response(&format!("{}Zxid: éx5\n", base)), Err(SrvrError::InvalidZxid));
    assert_eq!(Srvr::parse_response(&format!("{}Zxid: 0x+\n", base)), Err(SrvrError::InvalidZxid));
    assert_eq!(Srvr::parse_response(&format!("{}Zxid: 0\n", base)), Err(SrvrError::InvalidZxid));
    let r = Srvr::parse_response(&format!("{}Zxid: éa\n", base)).unwrap();
    assert_eq!(r.zk_zxid, 10);
}
