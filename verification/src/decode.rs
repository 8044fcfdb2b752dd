//! The binary decoder: from raw kernel record bytes to typed records.
//!
//! Each decoder takes the payload exactly as the kernel wrote it and fails
//! with a typed error — never a panic — when the payload size is not the
//! exact fixed-layout record size, or when the socket-info record's tagged
//! union carries a discriminant pair other than the single supported
//! combination (IPv4 address family, TCP socket kind). Union bytes are
//! interpreted only after the discriminant has been validated.

use vstd::prelude::*;
use crate::Error;
use crate::bytes::{be16, le32, le64, le_i32, read_be16, read_le32, read_le64, read_le_i32};
use crate::records::{in_sockinfo, tcp_connection_info, tcp_sockinfo, tcp_timers};

verus! {

/// Exact byte size of the TCP connection-info record.
pub const TCP_CONNECTION_INFO_SIZE: usize = 112;

/// Exact byte size of the per-descriptor socket-info record.
pub const SOCKET_FDINFO_SIZE: usize = 792;

/// The IPv4 address-family code.
pub const AF_INET: i32 = 2;

/// The TCP socket-kind code of the socket-info record.
pub const SOCKINFO_TCP: i32 = 2;

/// Offset of the address-family field in the socket-info record.
pub const OFF_SOI_FAMILY: usize = 184;

/// Offset of the socket-kind field in the socket-info record.
pub const OFF_SOI_KIND: usize = 256;

/// Offset of the protocol-specific tagged union in the socket-info record.
pub const OFF_SOI_PROTO: usize = 264;

/// The connection-info record read out of its raw bytes.
pub open spec fn spec_connection_info(b: Seq<u8>) -> tcp_connection_info {
    tcp_connection_info {
        tcpi_state: b[0],
        tcpi_snd_wscale: b[1],
        tcpi_rcv_wscale: b[2],
        tcpi_options: le32(b, 4),
        tcpi_flags: le32(b, 8),
        tcpi_rto: le32(b, 12),
        tcpi_maxseg: le32(b, 16),
        tcpi_snd_ssthresh: le32(b, 20),
        tcpi_snd_cwnd: le32(b, 24),
        tcpi_snd_wnd: le32(b, 28),
        tcpi_snd_sbbytes: le32(b, 32),
        tcpi_rcv_wnd: le32(b, 36),
        tcpi_rttcur: le32(b, 40),
        tcpi_srtt: le32(b, 44),
        tcpi_rttvar: le32(b, 48),
        tcpi_tfo: le32(b, 52),
        tcpi_txpackets: le64(b, 56),
        tcpi_txbytes: le64(b, 64),
        tcpi_txretransmitbytes: le64(b, 72),
        tcpi_rxpackets: le64(b, 80),
        tcpi_rxbytes: le64(b, 88),
        tcpi_rxoutoforderbytes: le64(b, 96),
        tcpi_txretransmitpackets: le64(b, 104),
    }
}

/// The embedded IP-socket-info sub-record read out of the socket-info
/// record's union region; the two port fields are in network byte order and
/// are swapped to host order here.
pub open spec fn spec_in_sockinfo(b: Seq<u8>) -> in_sockinfo {
    in_sockinfo {
        insi_fport: be16(b, 264),
        insi_lport: be16(b, 268),
        insi_gencnt: le64(b, 272),
        insi_flags: le32(b, 280),
        insi_flow: le32(b, 284),
        insi_vflag: b[288],
        insi_ip_ttl: b[289],
        rfu_1: le32(b, 292),
    }
}

/// The TCP union payload read out of the socket-info record.
pub open spec fn spec_tcp_sockinfo(b: Seq<u8>) -> tcp_sockinfo {
    tcp_sockinfo {
        tcpsi_ini: spec_in_sockinfo(b),
        tcpsi_state: le_i32(b, 344),
        tcpsi_timer: tcp_timers {
            t0: le_i32(b, 348),
            t1: le_i32(b, 352),
            t2: le_i32(b, 356),
            t3: le_i32(b, 360),
        },
        tcpsi_mss: le_i32(b, 364),
        tcpsi_flags: le32(b, 368),
        rfu_1: le32(b, 372),
        tcpsi_tp: le64(b, 376),
    }
}

/// The allow-listed discriminant pair: IPv4 address family and TCP socket
/// kind. Under any other pair the union bytes are never interpreted.
pub open spec fn spec_discriminant_ok(b: Seq<u8>) -> bool {
    le_i32(b, OFF_SOI_FAMILY as int) == AF_INET && le_i32(b, OFF_SOI_KIND as int) == SOCKINFO_TCP
}

/// What decoding a connection-info payload yields, for every payload.
pub open spec fn spec_decode_connection_info(b: Seq<u8>) -> Result<tcp_connection_info, Error> {
    if b.len() == TCP_CONNECTION_INFO_SIZE {
        Ok(spec_connection_info(b))
    } else {
        Err(Error::SizeMismatch)
    }
}

/// What decoding a socket-info payload yields, for every payload.
pub open spec fn spec_decode_socket_fdinfo(b: Seq<u8>) -> Result<tcp_sockinfo, Error> {
    if b.len() != SOCKET_FDINFO_SIZE {
        Err(Error::SizeMismatch)
    } else if !spec_discriminant_ok(b) {
        Err(Error::UnsupportedDiscriminant)
    } else {
        Ok(spec_tcp_sockinfo(b))
    }
}

/// Decode a connection-info payload: exactly the record size, or a size
/// mismatch error.
pub fn decode_connection_info(b: &[u8]) -> (r: Result<tcp_connection_info, Error>)
    ensures
        r == spec_decode_connection_info(b@),
{
    if b.len() != TCP_CONNECTION_INFO_SIZE {
        return Err(Error::SizeMismatch);
    }
    Ok(
        tcp_connection_info {
            tcpi_state: b[0],
            tcpi_snd_wscale: b[1],
            tcpi_rcv_wscale: b[2],
            tcpi_options: read_le32(b, 4),
            tcpi_flags: read_le32(b, 8),
            tcpi_rto: read_le32(b, 12),
            tcpi_maxseg: read_le32(b, 16),
            tcpi_snd_ssthresh: read_le32(b, 20),
            tcpi_snd_cwnd: read_le32(b, 24),
            tcpi_snd_wnd: read_le32(b, 28),
            tcpi_snd_sbbytes: read_le32(b, 32),
            tcpi_rcv_wnd: read_le32(b, 36),
            tcpi_rttcur: read_le32(b, 40),
            tcpi_srtt: read_le32(b, 44),
            tcpi_rttvar: read_le32(b, 48),
            tcpi_tfo: read_le32(b, 52),
            tcpi_txpackets: read_le64(b, 56),
            tcpi_txbytes: read_le64(b, 64),
            tcpi_txretransmitbytes: read_le64(b, 72),
            tcpi_rxpackets: read_le64(b, 80),
            tcpi_rxbytes: read_le64(b, 88),
            tcpi_rxoutoforderbytes: read_le64(b, 96),
            tcpi_txretransmitpackets: read_le64(b, 104),
        },
    )
}

/// Two snapshots of an unchanged connection decode to identical state and
/// port fields. Each of those fields is a function of its own record bytes
/// alone, so two reads taken in quick succession agree on them wherever the
/// kernel returned the same bytes for them — even where the transfer
/// counters elsewhere in the records moved between the reads.
pub proof fn lemma_stable_fields_agree(c1: Seq<u8>, c2: Seq<u8>, s1: Seq<u8>, s2: Seq<u8>)
    requires
        c1.len() >= 1,
        c2.len() >= 1,
        c1[0] == c2[0],
        s1.len() >= 384,
        s2.len() >= 384,
        s1.subrange(264, 272) == s2.subrange(264, 272),
        s1.subrange(344, 348) == s2.subrange(344, 348),
    ensures
        spec_connection_info(c1).tcpi_state == spec_connection_info(c2).tcpi_state,
        spec_tcp_sockinfo(s1).tcpsi_ini.insi_fport == spec_tcp_sockinfo(s2).tcpsi_ini.insi_fport,
        spec_tcp_sockinfo(s1).tcpsi_ini.insi_lport == spec_tcp_sockinfo(s2).tcpsi_ini.insi_lport,
        spec_tcp_sockinfo(s1).tcpsi_state == spec_tcp_sockinfo(s2).tcpsi_state,
{
    assert(s1[264] == s2[264]) by {
        assert(s1.subrange(264, 272)[0] == s1[264]);
        assert(s2.subrange(264, 272)[0] == s2[264]);
    }
    assert(s1[265] == s2[265]) by {
        assert(s1.subrange(264, 272)[1] == s1[265]);
        assert(s2.subrange(264, 272)[1] == s2[265]);
    }
    assert(s1[268] == s2[268]) by {
        assert(s1.subrange(264, 272)[4] == s1[268]);
        assert(s2.subrange(264, 272)[4] == s2[268]);
    }
    assert(s1[269] == s2[269]) by {
        assert(s1.subrange(264, 272)[5] == s1[269]);
        assert(s2.subrange(264, 272)[5] == s2[269]);
    }
    assert(s1[344] == s2[344]) by {
        assert(s1.subrange(344, 348)[0] == s1[344]);
        assert(s2.subrange(344, 348)[0] == s2[344]);
    }
    assert(s1[345] == s2[345]) by {
        assert(s1.subrange(344, 348)[1] == s1[345]);
        assert(s2.subrange(344, 348)[1] == s2[345]);
    }
    assert(s1[346] == s2[346]) by {
        assert(s1.subrange(344, 348)[2] == s1[346]);
        assert(s2.subrange(344, 348)[2] == s2[346]);
    }
    assert(s1[347] == s2[347]) by {
        assert(s1.subrange(344, 348)[3] == s1[347]);
        assert(s2.subrange(344, 348)[3] == s2[347]);
    }
}

/// Decode a socket-info payload: exactly the record size and the supported
/// discriminant pair, or a typed decode error.
pub fn decode_socket_fdinfo(b: &[u8]) -> (r: Result<tcp_sockinfo, Error>)
    ensures
        r == spec_decode_socket_fdinfo(b@),
{
    if b.len() != SOCKET_FDINFO_SIZE {
        return Err(Error::SizeMismatch);
    }
    let family = read_le_i32(b, OFF_SOI_FAMILY);
    let kind = read_le_i32(b, OFF_SOI_KIND);
    if family != AF_INET || kind != SOCKINFO_TCP {
        return Err(Error::UnsupportedDiscriminant);
    }
    let ini = in_sockinfo {
        insi_fport: read_be16(b, 264),
        insi_lport: read_be16(b, 268),
        insi_gencnt: read_le64(b, 272),
        insi_flags: read_le32(b, 280),
        insi_flow: read_le32(b, 284),
        insi_vflag: b[288],
        insi_ip_ttl: b[289],
        rfu_1: read_le32(b, 292),
    };
    Ok(
        tcp_sockinfo {
            tcpsi_ini: ini,
            tcpsi_state: read_le_i32(b, 344),
            tcpsi_timer: tcp_timers {
                t0: read_le_i32(b, 348),
                t1: read_le_i32(b, 352),
                t2: read_le_i32(b, 356),
                t3: read_le_i32(b, 360),
            },
            tcpsi_mss: read_le_i32(b, 364),
            tcpsi_flags: read_le32(b, 368),
            rfu_1: read_le32(b, 372),
            tcpsi_tp: read_le64(b, 376),
        },
    )
}

} // verus!
