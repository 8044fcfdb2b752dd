//! Point-in-time TCP socket statistics for an open socket descriptor.
//!
//! The kernel is queried through four independent, fixed-layout interfaces
//! (two buffer-occupancy counts and two structural records); the raw results
//! are decoded here into one coherent, typed report. Decoding validates the
//! reported record sizes and the tagged-union discriminant before any union
//! field is interpreted, swaps the network-order port fields to host order,
//! and renders enumerated kernel codes through a total name mapper.

use vstd::prelude::*;

pub mod bytes;
pub mod decode;
pub mod names;
pub mod records;

verus! {

pub use names::state_to_name;
use decode::{decode_connection_info, decode_socket_fdinfo, spec_discriminant_ok,
    spec_connection_info, spec_tcp_sockinfo, SOCKET_FDINFO_SIZE, TCP_CONNECTION_INFO_SIZE};
use records::{tcp_connection_info, tcp_sockinfo};

/// Why a socket-stat read failed.
#[derive(Clone, Copy, Debug, PartialEq, Eq)]
pub enum Error {
    /// This build has no kernel adapter: no query was attempted.
    UnsupportedPlatform,
    /// One of the four kernel queries returned the wrapped native error code.
    QueryFailed(i32),
    /// A structural query reported a payload size other than the exact
    /// fixed-layout record size.
    SizeMismatch,
    /// The record's discriminant pair is not the one supported combination
    /// (IPv4 address family, TCP socket kind).
    UnsupportedDiscriminant,
}

impl Error {
    /// A fixed, greppable label for the error category.
    pub fn label(&self) -> (r: &'static str)
        ensures
            self is UnsupportedPlatform ==> r@ == "unsupported platform"@,
            self is QueryFailed ==> r@ == "query failed"@,
            self is SizeMismatch ==> r@ == "size mismatch"@,
            self is UnsupportedDiscriminant ==> r@ == "unsupported discriminant"@,
    {
        match self {
            Error::UnsupportedPlatform => "unsupported platform",
            Error::QueryFailed(_) => "query failed",
            Error::SizeMismatch => "size mismatch",
            Error::UnsupportedDiscriminant => "unsupported discriminant",
        }
    }
}

/// The complete socket-stat snapshot. Immutable once constructed; a report
/// is only ever built with every field populated — on any failure the whole
/// read fails instead.
#[derive(Clone, Copy, Debug, PartialEq, Eq)]
pub struct SocketStat {
    /// Bytes still in the receive buffer, not yet read by the application.
    pub unreceived: usize,
    /// Bytes still queued for send, not yet acknowledged.
    pub unsent: usize,
    /// The decoded TCP connection-info record.
    pub connection_info: tcp_connection_info,
    /// The decoded TCP payload of the socket-info record.
    pub socket_info: tcp_sockinfo,
}

/// What assembling a report from four successful query results yields, for
/// every pair of structural payloads.
pub open spec fn spec_socket_stat(
    unreceived: usize,
    unsent: usize,
    conn: Seq<u8>,
    sock: Seq<u8>,
) -> Result<SocketStat, Error> {
    if conn.len() != TCP_CONNECTION_INFO_SIZE {
        Err(Error::SizeMismatch)
    } else if sock.len() != SOCKET_FDINFO_SIZE {
        Err(Error::SizeMismatch)
    } else if !spec_discriminant_ok(sock) {
        Err(Error::UnsupportedDiscriminant)
    } else {
        Ok(
            SocketStat {
                unreceived,
                unsent,
                connection_info: spec_connection_info(conn),
                socket_info: spec_tcp_sockinfo(sock),
            },
        )
    }
}

/// Combine the four kernel query results into one report.
///
/// Failure policy is fail-fast, first error wins: if any query failed, its
/// native error code is surfaced and the results of the others are
/// discarded; no partially-populated report exists. Only when all four
/// queries succeeded are the two structural payloads decoded, and a decode
/// failure likewise fails the whole read.
pub fn assemble_report(
    unreceived: Result<usize, i32>,
    unsent: Result<usize, i32>,
    connection_record: Result<Vec<u8>, i32>,
    socket_record: Result<Vec<u8>, i32>,
) -> (r: Result<SocketStat, Error>)
    ensures
        unreceived matches Err(code) ==> r == Err::<SocketStat, Error>(Error::QueryFailed(code)),
        unsent matches Err(code) ==> unreceived is Ok ==> r == Err::<SocketStat, Error>(
            Error::QueryFailed(code),
        ),
        connection_record matches Err(code) ==> unreceived is Ok && unsent is Ok ==> r
            == Err::<SocketStat, Error>(Error::QueryFailed(code)),
        socket_record matches Err(code) ==> unreceived is Ok && unsent is Ok
            && connection_record is Ok ==> r == Err::<SocketStat, Error>(Error::QueryFailed(code)),
        unreceived matches Ok(u) ==> unsent matches Ok(s) ==> connection_record matches Ok(c)
            ==> socket_record matches Ok(k) ==> r == spec_socket_stat(u, s, c@, k@),
{
    let u = match unreceived {
        Ok(u) => u,
        Err(code) => {
            return Err(Error::QueryFailed(code));
        },
    };
    let s = match unsent {
        Ok(s) => s,
        Err(code) => {
            return Err(Error::QueryFailed(code));
        },
    };
    let conn = match connection_record {
        Ok(c) => c,
        Err(code) => {
            return Err(Error::QueryFailed(code));
        },
    };
    let sock = match socket_record {
        Ok(k) => k,
        Err(code) => {
            return Err(Error::QueryFailed(code));
        },
    };
    let connection_info = match decode_connection_info(conn.as_slice()) {
        Ok(ci) => ci,
        Err(e) => {
            return Err(e);
        },
    };
    let socket_info = match decode_socket_fdinfo(sock.as_slice()) {
        Ok(si) => si,
        Err(e) => {
            return Err(e);
        },
    };
    Ok(SocketStat { unreceived: u, unsent: s, connection_info, socket_info })
}

/// The single stable entry point: socket information and statistics for an
/// open socket descriptor.
///
/// This build has no kernel adapter for the running platform wired into the
/// verified core, so the call reports the platform as unsupported without
/// performing any query; a supported platform's adapter feeds its raw query
/// results through [`assemble_report`] instead.
pub fn socketstat(_fd: i32) -> (r: Result<SocketStat, Error>)
    ensures
        r == Err::<SocketStat, Error>(Error::UnsupportedPlatform),
{
    Err(Error::UnsupportedPlatform)
}

} // verus!
