//! The narrow-waist packet: the one value that crosses the transport.

use crate::hbfi::HBFI;
use vstd::prelude::*;

verus! {

/// A request for work, or the response that carries its result.
///
/// A response belongs to the request whose identifier it carries; there is no
/// other transaction id.
#[derive(Clone, Debug, PartialEq, Eq)]
pub enum NarrowWaistPacket {
    Request { hbfi: HBFI, window_metadata: u64 },
    Response { hbfi: HBFI, payload: Vec<u8>, offset: u64, total: u64 },
}

/// The mathematical content of a packet.
pub enum PacketView {
    Request { hbfi: HBFI, window_metadata: u64 },
    Response { hbfi: HBFI, payload: Seq<u8>, offset: u64, total: u64 },
}

impl PacketView {
    pub open spec fn hbfi(self) -> HBFI {
        match self {
            PacketView::Request { hbfi, .. } => hbfi,
            PacketView::Response { hbfi, .. } => hbfi,
        }
    }
}

impl View for NarrowWaistPacket {
    type V = PacketView;

    open spec fn view(&self) -> PacketView {
        match *self {
            NarrowWaistPacket::Request { hbfi, window_metadata } => PacketView::Request {
                hbfi,
                window_metadata,
            },
            NarrowWaistPacket::Response { hbfi, payload, offset, total } => PacketView::Response {
                hbfi,
                payload: payload@,
                offset,
                total,
            },
        }
    }
}

impl NarrowWaistPacket {
    /// The identifier the packet carries.
    pub fn hbfi(&self) -> (hbfi: HBFI)
        ensures
            hbfi == self@.hbfi(),
    {
        match self {
            NarrowWaistPacket::Request { hbfi, .. } => *hbfi,
            NarrowWaistPacket::Response { hbfi, .. } => *hbfi,
        }
    }
}

} // verus!
