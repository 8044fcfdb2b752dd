//! Typed views of the fixed-layout kernel records.
//!
//! Field names and widths mirror the kernel structures the records are read
//! from (padding bytes and the raw address unions are not surfaced). The two
//! port fields are stored here already swapped to host byte order; every
//! other field is host-order as the kernel returned it.

use vstd::prelude::*;
use crate::names::{spec_state_name, spec_state_name_code, spec_vflag_name, state_label,
    state_label_code, vflag_label};

verus! {

/// The TCP connection-info record: state, window scaling, congestion and
/// round-trip measurements, and the eight 64-bit transfer counters.
#[allow(non_camel_case_types)]
#[derive(Clone, Copy, Debug, PartialEq, Eq)]
pub struct tcp_connection_info {
    /// Connection state code.
    pub tcpi_state: u8,
    /// Window scale for the send window.
    pub tcpi_snd_wscale: u8,
    /// Window scale for the receive window.
    pub tcpi_rcv_wscale: u8,
    /// TCP options supported.
    pub tcpi_options: u32,
    /// Flags bitmask.
    pub tcpi_flags: u32,
    /// Retransmit timeout in ms.
    pub tcpi_rto: u32,
    /// Maximum segment size supported.
    pub tcpi_maxseg: u32,
    /// Slow start threshold in bytes.
    pub tcpi_snd_ssthresh: u32,
    /// Send congestion window in bytes.
    pub tcpi_snd_cwnd: u32,
    /// Send window in bytes.
    pub tcpi_snd_wnd: u32,
    /// Bytes in the send socket buffer, including in-flight data.
    pub tcpi_snd_sbbytes: u32,
    /// Receive window in bytes.
    pub tcpi_rcv_wnd: u32,
    /// Most recent round-trip time in ms.
    pub tcpi_rttcur: u32,
    /// Average round-trip time in ms.
    pub tcpi_srtt: u32,
    /// Round-trip time variance.
    pub tcpi_rttvar: u32,
    /// TCP fast-open sub-flags.
    pub tcpi_tfo: u32,
    /// Packets transmitted.
    pub tcpi_txpackets: u64,
    /// Bytes transmitted.
    pub tcpi_txbytes: u64,
    /// Bytes retransmitted.
    pub tcpi_txretransmitbytes: u64,
    /// Packets received.
    pub tcpi_rxpackets: u64,
    /// Bytes received.
    pub tcpi_rxbytes: u64,
    /// Out-of-order bytes received.
    pub tcpi_rxoutoforderbytes: u64,
    /// Packets retransmitted.
    pub tcpi_txretransmitpackets: u64,
}

impl tcp_connection_info {
    /// The connection state rendered as a fixed name, or the unknown marker.
    pub fn state_name(&self) -> (r: &'static str)
        ensures
            r@ == spec_state_name(self.tcpi_state),
    {
        state_label(self.tcpi_state)
    }
}

/// The embedded IP-socket-info sub-record of the socket-info record.
#[allow(non_camel_case_types)]
#[derive(Clone, Copy, Debug, PartialEq, Eq)]
pub struct in_sockinfo {
    /// Foreign port, swapped to host byte order.
    pub insi_fport: u16,
    /// Local port, swapped to host byte order.
    pub insi_lport: u16,
    /// Generation count of this instance.
    pub insi_gencnt: u64,
    /// Generic IP/datagram flags.
    pub insi_flags: u32,
    /// Flow label.
    pub insi_flow: u32,
    /// IP-version flag: 1 for IPv4, 2 for IPv6.
    pub insi_vflag: u8,
    /// Time to live.
    pub insi_ip_ttl: u8,
    /// Reserved.
    pub rfu_1: u32,
}

impl in_sockinfo {
    /// The IP-version flag rendered as a fixed name, or the unknown marker.
    pub fn vflag_name(&self) -> (r: &'static str)
        ensures
            r@ == spec_vflag_name(self.insi_vflag),
    {
        vflag_label(self.insi_vflag)
    }
}

/// The four protocol timers of the TCP socket-info record.
#[allow(non_camel_case_types)]
#[derive(Clone, Copy, Debug, PartialEq, Eq)]
pub struct tcp_timers {
    /// First timer slot.
    pub t0: i32,
    /// Second timer slot.
    pub t1: i32,
    /// Third timer slot.
    pub t2: i32,
    /// Fourth timer slot.
    pub t3: i32,
}

/// The TCP-specific payload of the socket-info record's tagged union.
#[allow(non_camel_case_types)]
#[derive(Clone, Copy, Debug, PartialEq, Eq)]
pub struct tcp_sockinfo {
    /// Embedded IP-socket-info sub-record.
    pub tcpsi_ini: in_sockinfo,
    /// Connection state code. Read through an independent kernel path from
    /// [`tcp_connection_info::tcpi_state`]; the two are surfaced side by
    /// side, never reconciled.
    pub tcpsi_state: i32,
    /// The four protocol timers.
    pub tcpsi_timer: tcp_timers,
    /// Maximum segment size.
    pub tcpsi_mss: i32,
    /// Flags bitmask.
    pub tcpsi_flags: u32,
    /// Reserved.
    pub rfu_1: u32,
    /// Opaque handle of the TCP protocol control block; displayed, never
    /// dereferenced.
    pub tcpsi_tp: u64,
}

impl tcp_sockinfo {
    /// The connection state rendered as a fixed name, or the unknown marker.
    pub fn state_name(&self) -> (r: &'static str)
        ensures
            r@ == spec_state_name_code(self.tcpsi_state),
    {
        state_label_code(self.tcpsi_state)
    }
}

} // verus!
