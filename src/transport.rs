//! Transporting messages and commands between endpoints: per-peer post
//! boxes, client sessions, the post office that owns them, and the decisions
//! of the byte-level transport.

pub mod client;
pub mod message;
pub mod packet;
pub mod postbox;
pub mod postoffice;
pub mod record;
pub mod wire;

pub use self::client::Client;
pub use self::message::{ClientToServerMessage, ServerToClientMessage};
pub use self::postbox::PostBox;
pub use self::postoffice::PostOffice;

use vstd::prelude::*;

verus! {

/// Identifies a client session on the server.
pub type ClientId = u16;

/// The address of a peer: an IP address and a port.
#[derive(Clone, Copy, Debug, PartialEq, Eq, Structural, Hash)]
pub enum PeerAddr {
    V4 { ip: u32, port: u16 },
    V6 { ip: u128, port: u16, flowinfo: u32, scope_id: u32 },
}

impl PeerAddr {
    /// The IPv4 address `a.b.c.d` with `port`.
    pub fn v4(a: u8, b: u8, c: u8, d: u8, port: u16) -> (r: PeerAddr)
        ensures
            r == (PeerAddr::V4 {
                ip: (a as int * 0x1000000 + b as int * 0x10000 + c as int * 0x100 + d as int) as u32,
                port,
            }),
    {
        assert(a as int * 0x1000000 + b as int * 0x10000 + c as int * 0x100 + d as int <= u32::MAX) by (nonlinear_arith)
            requires
                a <= 255,
                b <= 255,
                c <= 255,
                d <= 255,
        ;
        let ip: u32 = (a as u32) * 0x1000000 + (b as u32) * 0x10000 + (c as u32) * 0x100 + d as u32;
        PeerAddr::V4 { ip, port }
    }
}

} // verus!
