use socketstat::decode::{
    decode_connection_info, decode_socket_fdinfo, AF_INET, OFF_SOI_FAMILY, OFF_SOI_KIND,
    OFF_SOI_PROTO, SOCKET_FDINFO_SIZE, SOCKINFO_TCP, TCP_CONNECTION_INFO_SIZE,
};
use socketstat::names::{state_label, state_label_code, state_to_name, vflag_label};
use socketstat::Error;

fn put_le32(b: &mut [u8], off: usize, v: u32) {
    b[off..off + 4].copy_from_slice(&v.to_le_bytes());
}

fn put_le64(b: &mut [u8], off: usize, v: u64) {
    b[off..off + 8].copy_from_slice(&v.to_le_bytes());
}

fn put_le_i32(b: &mut [u8], off: usize, v: i32) {
    b[off..off + 4].copy_from_slice(&v.to_le_bytes());
}

fn conn_buf() -> Vec<u8> {
    vec![0u8; TCP_CONNECTION_INFO_SIZE]
}

fn fdinfo_buf() -> Vec<u8> {
    let mut b = vec![0u8; SOCKET_FDINFO_SIZE];
    put_le_i32(&mut b, OFF_SOI_FAMILY, AF_INET);
    put_le_i32(&mut b, OFF_SOI_KIND, SOCKINFO_TCP);
    b
}

#[test]
fn state_names_known_codes() {
    assert_eq!(state_to_name(0), Some("CLOSED"));
    assert_eq!(state_to_name(1), Some("LISTEN"));
    assert_eq!(state_to_name(2), Some("SYN_SENT"));
    assert_eq!(state_to_name(3), Some("SYN_RECEIVED"));
    assert_eq!(state_to_name(4), Some("ESTABLISHED"));
    assert_eq!(state_to_name(5), Some("_CLOSE_WAIT"));
    assert_eq!(state_to_name(6), Some("FIN_WAIT_1"));
    assert_eq!(state_to_name(7), Some("CLOSING"));
    assert_eq!(state_to_name(8), Some("LAST_ACK"));
    assert_eq!(state_to_name(9), Some("FIN_WAIT_2"));
    assert_eq!(state_to_name(10), Some("TIME_WAIT"));
    assert_eq!(state_to_name(11), Some("RESERVED"));
}

#[test]
fn state_names_unknown_codes() {
    assert_eq!(state_to_name(12), None);
    assert_eq!(state_to_name(255), None);
    assert_eq!(state_label(12), "<unknown>");
    assert_eq!(state_label(4), "ESTABLISHED");
    assert_eq!(state_label_code(-1), "<unknown>");
    assert_eq!(state_label_code(200), "<unknown>");
    assert_eq!(state_label_code(10), "TIME_WAIT");
}

#[test]
fn vflag_names() {
    assert_eq!(vflag_label(1), "IPV4");
    assert_eq!(vflag_label(2), "IPV6");
    assert_eq!(vflag_label(0), "<unknown>");
    assert_eq!(vflag_label(3), "<unknown>");
}

#[test]
fn connection_info_fields_exact() {
    let mut b = conn_buf();
    b[0] = 4; // state
    b[1] = 8; // send window scale
    b[2] = 6; // receive window scale
    put_le32(&mut b, 4, 7); // options
    put_le32(&mut b, 16, 1368); // max segment size
    put_le32(&mut b, 20, 1_073_725_440); // slow start threshold
    put_le32(&mut b, 24, 4380); // congestion window
    put_le32(&mut b, 28, 60192); // send window
    put_le32(&mut b, 36, 131_328); // receive window
    put_le32(&mut b, 40, 79); // current rtt
    put_le32(&mut b, 44, 79); // average rtt
    put_le32(&mut b, 48, 39); // rtt variance
    put_le64(&mut b, 64, 123_456_789_012); // tx bytes
    put_le64(&mut b, 88, 987_654_321); // rx bytes
    let ci = decode_connection_info(&b).unwrap();
    assert_eq!(ci.tcpi_state, 4);
    assert_eq!(ci.state_name(), "ESTABLISHED");
    assert_eq!(ci.tcpi_snd_wscale, 8);
    assert_eq!(ci.tcpi_rcv_wscale, 6);
    assert_eq!(ci.tcpi_options, 7);
    assert_eq!(ci.tcpi_maxseg, 1368);
    assert_eq!(ci.tcpi_snd_ssthresh, 1_073_725_440);
    assert_eq!(ci.tcpi_snd_cwnd, 4380);
    assert_eq!(ci.tcpi_snd_wnd, 60192);
    assert_eq!(ci.tcpi_rcv_wnd, 131_328);
    assert_eq!(ci.tcpi_rttcur, 79);
    assert_eq!(ci.tcpi_srtt, 79);
    assert_eq!(ci.tcpi_rttvar, 39);
    assert_eq!(ci.tcpi_txbytes, 123_456_789_012);
    assert_eq!(ci.tcpi_rxbytes, 987_654_321);
    assert_eq!(ci.tcpi_txpackets, 0);
}

#[test]
fn connection_info_size_mismatch() {
    let short = vec![0u8; TCP_CONNECTION_INFO_SIZE - 1];
    assert_eq!(decode_connection_info(&short), Err(Error::SizeMismatch));
    let long = vec![0u8; TCP_CONNECTION_INFO_SIZE + 1];
    assert_eq!(decode_connection_info(&long), Err(Error::SizeMismatch));
    let empty: Vec<u8> = Vec::new();
    assert_eq!(decode_connection_info(&empty), Err(Error::SizeMismatch));
}

#[test]
fn fdinfo_size_mismatch() {
    let short = vec![0u8; SOCKET_FDINFO_SIZE - 8];
    assert_eq!(decode_socket_fdinfo(&short), Err(Error::SizeMismatch));
    let long = vec![0u8; SOCKET_FDINFO_SIZE + 8];
    assert_eq!(decode_socket_fdinfo(&long), Err(Error::SizeMismatch));
}

#[test]
fn allowlist_rejects_other_socket_kind() {
    // Socket kind 1 is the plain (datagram) socket-info variant, not TCP.
    let mut b = fdinfo_buf();
    put_le_i32(&mut b, OFF_SOI_KIND, 1);
    assert_eq!(decode_socket_fdinfo(&b), Err(Error::UnsupportedDiscriminant));
}

#[test]
fn allowlist_rejects_other_family() {
    // Address family 30 is IPv6 on the target kernel.
    let mut b = fdinfo_buf();
    put_le_i32(&mut b, OFF_SOI_FAMILY, 30);
    assert_eq!(decode_socket_fdinfo(&b), Err(Error::UnsupportedDiscriminant));
}

#[test]
fn port_byte_order_round_trip() {
    let mut b = fdinfo_buf();
    // Network-order 0x00 0x50 is port 80; 0x1F 0x90 is port 8080.
    b[OFF_SOI_PROTO] = 0x00;
    b[OFF_SOI_PROTO + 1] = 0x50;
    b[OFF_SOI_PROTO + 4] = 0x1F;
    b[OFF_SOI_PROTO + 5] = 0x90;
    let si = decode_socket_fdinfo(&b).unwrap();
    assert_eq!(si.tcpsi_ini.insi_fport, 80);
    assert_eq!(si.tcpsi_ini.insi_lport, 8080);
}

#[test]
fn socket_info_fields_exact() {
    let mut b = fdinfo_buf();
    let base = OFF_SOI_PROTO;
    b[base] = 0x00;
    b[base + 1] = 0x50; // foreign port 80
    b[base + 4] = 0xCD;
    b[base + 5] = 0x8D; // local port 52621
    put_le64(&mut b, base + 8, 100_950_561); // generation count
    put_le32(&mut b, base + 16, 8_390_720); // flags
    put_le32(&mut b, base + 20, 0); // flow
    b[base + 24] = 1; // IP-version flag: IPv4
    b[base + 25] = 64; // ttl
    put_le_i32(&mut b, 344, 4); // state: established
    put_le_i32(&mut b, 352, -5); // second timer, a negative value
    put_le_i32(&mut b, 356, 7_200_079); // third timer
    put_le_i32(&mut b, 364, 1368); // max segment size
    put_le32(&mut b, 368, 1_140_851_680); // flags
    put_le64(&mut b, 376, 9_662_996_336_038_732_135); // control block handle
    let si = decode_socket_fdinfo(&b).unwrap();
    assert_eq!(si.tcpsi_ini.insi_fport, 80);
    assert_eq!(si.tcpsi_ini.insi_lport, 52621);
    assert_eq!(si.tcpsi_ini.insi_gencnt, 100_950_561);
    assert_eq!(si.tcpsi_ini.insi_flags, 8_390_720);
    assert_eq!(si.tcpsi_ini.insi_vflag, 1);
    assert_eq!(si.tcpsi_ini.vflag_name(), "IPV4");
    assert_eq!(si.tcpsi_ini.insi_ip_ttl, 64);
    assert_eq!(si.tcpsi_state, 4);
    assert_eq!(si.state_name(), "ESTABLISHED");
    assert_eq!(si.tcpsi_timer.t0, 0);
    assert_eq!(si.tcpsi_timer.t1, -5);
    assert_eq!(si.tcpsi_timer.t2, 7_200_079);
    assert_eq!(si.tcpsi_mss, 1368);
    assert_eq!(si.tcpsi_flags, 1_140_851_680);
    assert_eq!(si.tcpsi_tp, 9_662_996_336_038_732_135);
}

#[test]
fn stable_fields_agree_across_snapshots() {
    // Two snapshots of an idle connection: the transfer counters moved, the
    // state and port bytes did not.
    let mut c1 = conn_buf();
    c1[0] = 4;
    let mut c2 = c1.clone();
    put_le64(&mut c2, 56, 42); // tx packets moved between the reads
    put_le64(&mut c2, 88, 100_000); // rx bytes moved between the reads
    let mut s1 = fdinfo_buf();
    s1[OFF_SOI_PROTO] = 0x00;
    s1[OFF_SOI_PROTO + 1] = 0x50;
    put_le_i32(&mut s1, 344, 4);
    let mut s2 = s1.clone();
    put_le64(&mut s2, OFF_SOI_PROTO + 8, 7); // generation count moved
    let ci1 = decode_connection_info(&c1).unwrap();
    let ci2 = decode_connection_info(&c2).unwrap();
    let si1 = decode_socket_fdinfo(&s1).unwrap();
    let si2 = decode_socket_fdinfo(&s2).unwrap();
    assert_eq!(ci1.tcpi_state, ci2.tcpi_state);
    assert_eq!(si1.tcpsi_ini.insi_fport, si2.tcpsi_ini.insi_fport);
    assert_eq!(si1.tcpsi_ini.insi_lport, si2.tcpsi_ini.insi_lport);
    assert_eq!(si1.tcpsi_state, si2.tcpsi_state);
    assert_ne!(ci1.tcpi_txpackets, ci2.tcpi_txpackets);
}
