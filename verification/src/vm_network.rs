//! The Ethernet shim between a guest machine and the engine: it checks and
//! strips Ethernet headers on the way out and adds them on the way in, and
//! never looks inside the payload.

use vstd::prelude::*;
use vstd::string::StringExecFns;
use crate::bytes::{append_bytes, bytes_equal, copy_range};
use crate::error::{DerpError, DerpResult};
use crate::frame::decoded;
use crate::network::{carries, InboundAction, NetworkState};

verus! {

/// Length of a MAC address.
pub const MAC_LEN: usize = 6;

/// Length of an Ethernet header: two MAC addresses and the EtherType.
pub const ETHERNET_HEADER_LEN: usize = 14;

/// The largest payload handed to the guest.
pub const MTU: u16 = 1500;

/// EtherType of IPv4.
pub const ETHERTYPE_IPV4: u16 = 0x0800;

/// EtherType of ARP.
pub const ETHERTYPE_ARP: u16 = 0x0806;

/// The address that every interface listens to.
pub open spec fn broadcast_mac() -> Seq<u8> {
    seq![0xFFu8, 0xFFu8, 0xFFu8, 0xFFu8, 0xFFu8, 0xFFu8]
}

/// The source address of every frame handed to the guest.
pub open spec fn virtual_mac() -> Seq<u8> {
    seq![0x52u8, 0x54u8, 0x00u8, 0x12u8, 0x34u8, 0x56u8]
}

/// The EtherType of a frame: bytes 12 and 13, most significant first.
pub open spec fn ethertype_of(frame: Seq<u8>) -> int
    recommends
        frame.len() >= ETHERNET_HEADER_LEN,
{
    frame[12] as int * 256 + frame[13] as int
}

/// Whether a frame from the guest goes out to the network: it is addressed
/// to the shim or to everyone, and carries IPv4 or ARP.
pub open spec fn forwarded(mac: Seq<u8>, frame: Seq<u8>) -> bool
    recommends
        frame.len() >= ETHERNET_HEADER_LEN,
{
    let destination = frame.subrange(0, MAC_LEN as int);
    (destination == mac || destination == broadcast_mac()) && (ethertype_of(frame)
        == ETHERTYPE_IPV4 || ethertype_of(frame) == ETHERTYPE_ARP)
}

/// The Ethernet frame that carries `payload` to the guest at `mac`.
pub open spec fn guest_frame(mac: Seq<u8>, payload: Seq<u8>) -> Seq<u8> {
    mac + virtual_mac() + seq![0x08u8, 0x00u8] + payload
}

/// The shim. It owns the engine that its outbound packets go through.
pub struct VmNetwork {
    network: NetworkState,
    mtu: u16,
    mac_address: Vec<u8>,
}

impl VmNetwork {
    /// The engine behind the shim.
    pub closed spec fn network(self) -> NetworkState {
        self.network
    }

    /// The guest's MAC address.
    pub closed spec fn mac(self) -> Seq<u8> {
        self.mac_address@
    }

    /// The largest payload handed to the guest.
    pub closed spec fn mtu(self) -> u16 {
        self.mtu
    }

    /// What holds of every shim: a six-byte address and the Ethernet MTU.
    /// `new` establishes it, and no method changes address or MTU.
    pub open spec fn well_formed(self) -> bool {
        self.mac().len() == MAC_LEN && self.mtu() == MTU
    }

    /// A shim for the guest at `mac_address`, which must be six bytes long.
    pub fn new(network: NetworkState, mac_address: &[u8]) -> (made: DerpResult<VmNetwork>)
        ensures
            match made {
                Ok(shim) => mac_address@.len() == MAC_LEN && shim.mac() == mac_address@
                    && shim.mtu() == MTU && shim.network() == network && shim.well_formed(),
                Err(e) => mac_address@.len() != MAC_LEN && e is InvalidProtocol,
            },
    {
        if mac_address.len() != MAC_LEN {
            return Err(DerpError::InvalidProtocol(String::from_str("Invalid MAC address length")));
        }
        let mac = copy_range(mac_address, 0, MAC_LEN);
        assert(mac@ =~= mac_address@);
        Ok(VmNetwork { network, mtu: MTU, mac_address: mac })
    }

    /// Judges a frame from the guest. A frame shorter than an Ethernet header
    /// is an error. A frame for another destination, or of another EtherType
    /// than IPv4 and ARP, is dropped: `None`. Every other frame yields its
    /// payload, the bytes after the header.
    pub fn outbound_payload(&self, data: &[u8]) -> (out: DerpResult<Option<Vec<u8>>>)
        ensures
            match out {
                Err(e) => data@.len() < ETHERNET_HEADER_LEN && e is InvalidProtocol,
                Ok(None) => data@.len() >= ETHERNET_HEADER_LEN && !forwarded(self.mac(), data@),
                Ok(Some(payload)) => data@.len() >= ETHERNET_HEADER_LEN && forwarded(
                    self.mac(),
                    data@,
                ) && payload@ == data@.subrange(ETHERNET_HEADER_LEN as int, data@.len() as int),
            },
    {
        if data.len() < ETHERNET_HEADER_LEN {
            return Err(DerpError::InvalidProtocol(String::from_str("Invalid ethernet frame")));
        }
        let destination = copy_range(data, 0, MAC_LEN);
        let mut everyone: Vec<u8> = Vec::new();
        let mut i: usize = 0;
        while i < MAC_LEN
            invariant
                i <= MAC_LEN,
                everyone@.len() == i,
                forall|j: int| 0 <= j < i ==> everyone@[j] == 0xFFu8,
            decreases MAC_LEN - i,
        {
            everyone.push(0xFFu8);
            i += 1;
        }
        assert(everyone@ =~= broadcast_mac());
        if !bytes_equal(destination.as_slice(), self.mac_address.as_slice()) && !bytes_equal(
            destination.as_slice(),
            everyone.as_slice(),
        ) {
            return Ok(None);
        }
        let ethertype: u16 = (data[12] as u16) * 256 + (data[13] as u16);
        if ethertype == ETHERTYPE_IPV4 || ethertype == ETHERTYPE_ARP {
            Ok(Some(copy_range(data, ETHERNET_HEADER_LEN, data.len())))
        } else {
            Ok(None)
        }
    }

    /// Takes a frame from the guest. What `outbound_payload` drops is
    /// dropped here too, with success and without a trace; what it yields
    /// goes through the engine's `send_packet`, and the relay frame comes
    /// back for the transport. Nothing is counted yet: the caller writes the
    /// frame and reports the write with `packet_written`.
    pub fn send_packet(&self, data: &[u8]) -> (out: DerpResult<Option<Vec<u8>>>)
        ensures
            match out {
                Ok(None) => data@.len() >= ETHERNET_HEADER_LEN && !forwarded(self.mac(), data@),
                Ok(Some(frame)) => data@.len() >= ETHERNET_HEADER_LEN && forwarded(
                    self.mac(),
                    data@,
                ) && self.network().protocol().state() is Complete && carries(
                    self.network().crypto(),
                    self.network().protocol()@.compression_enabled,
                    data@.subrange(ETHERNET_HEADER_LEN as int, data@.len() as int),
                    frame@,
                ),
                Err(e) => if data@.len() < ETHERNET_HEADER_LEN {
                    e is InvalidProtocol
                } else {
                    forwarded(self.mac(), data@) && if self.network().protocol().state() is Complete {
                        e is CryptoError
                    } else {
                        e is InvalidState
                    }
                },
            },
    {
        match self.outbound_payload(data) {
            Err(e) => Err(e),
            Ok(None) => Ok(None),
            Ok(Some(payload)) => {
                match self.network.send_packet(payload.as_slice()) {
                    Ok(frame) => Ok(Some(frame)),
                    Err(e) => Err(e),
                }
            },
        }
    }

    /// Counts a frame from the guest once the transport has taken the relay
    /// frame made for it: the payload's bytes and one packet more. A frame
    /// that `send_packet` drops or refuses counts nothing.
    pub fn packet_written(&mut self, data: &[u8])
        ensures
            final(self).mac() == old(self).mac(),
            final(self).mtu() == old(self).mtu(),
            final(self).network().protocol() == old(self).network().protocol(),
            final(self).network().crypto() == old(self).network().crypto(),
            final(self).network().url() == old(self).network().url(),
            final(self).network().stats() == if data@.len() >= ETHERNET_HEADER_LEN && forwarded(
                old(self).mac(),
                data@,
            ) {
                old(self).network().stats().after_send(
                    (data@.len() - ETHERNET_HEADER_LEN) as nat,
                )
            } else {
                old(self).network().stats()
            },
    {
        match self.outbound_payload(data) {
            Ok(Some(payload)) => {
                self.network.packet_written(payload.len());
            },
            _ => {},
        }
    }

    /// Wraps a payload from the network in an Ethernet frame for the guest:
    /// destination the guest's MAC, source the virtual interface, EtherType
    /// IPv4. A payload beyond the MTU is an error.
    pub fn receive_packet(&self, data: &[u8]) -> (out: DerpResult<Vec<u8>>)
        ensures
            match out {
                Ok(frame) => data@.len() <= self.mtu() && frame@ == guest_frame(self.mac(), data@),
                Err(e) => data@.len() > self.mtu() && e is InvalidProtocol,
            },
    {
        if data.len() > self.mtu as usize {
            return Err(DerpError::InvalidProtocol(String::from_str("Packet too large")));
        }
        let mut frame: Vec<u8> = Vec::new();
        append_bytes(&mut frame, self.mac_address.as_slice());
        frame.push(0x52u8);
        frame.push(0x54u8);
        frame.push(0x00u8);
        frame.push(0x12u8);
        frame.push(0x34u8);
        frame.push(0x56u8);
        frame.push(0x08u8);
        frame.push(0x00u8);
        assert(frame@ =~= self.mac() + virtual_mac() + seq![0x08u8, 0x00u8]);
        append_bytes(&mut frame, data);
        Ok(frame)
    }

    /// What the shim makes of the engine's answer to an inbound message: a
    /// payload for the guest is wrapped in its Ethernet frame, or refused
    /// where it is beyond the MTU; everything else passes through.
    pub open spec fn relayed(
        mac: Seq<u8>,
        mtu: u16,
        action: InboundAction,
        out: DerpResult<InboundAction>,
    ) -> bool {
        match action {
            InboundAction::Deliver(payload) => if payload@.len() <= mtu {
                out matches Ok(InboundAction::Deliver(frame)) && frame@ == guest_frame(
                    mac,
                    payload@,
                )
            } else {
                out matches Err(e) && e is InvalidProtocol
            },
            InboundAction::Reply(bytes) => out matches Ok(InboundAction::Reply(reply)) && reply@
                == bytes@,
            InboundAction::Ignore => out matches Ok(InboundAction::Ignore),
        }
    }

    /// Takes one message off the transport and lets the engine act on it. A
    /// payload for the guest comes back already wrapped in its Ethernet
    /// frame; one beyond the MTU is an error, though the engine has counted
    /// it.
    pub fn handle_frame(&mut self, data: &[u8]) -> (out: DerpResult<InboundAction>)
        ensures
            final(self).mac() == old(self).mac(),
            final(self).mtu() == old(self).mtu(),
            final(self).network().url() == old(self).network().url(),
            match decoded(data@) {
                Err(_) => out matches Ok(InboundAction::Ignore) && *final(self) == *old(self),
                Ok((frame_type, payload)) => exists|action: InboundAction|
                    #[trigger] NetworkState::dispatched(
                        old(self).network(),
                        final(self).network(),
                        frame_type,
                        payload,
                        action,
                    ) && Self::relayed(old(self).mac(), old(self).mtu(), action, out),
            },
    {
        let action = self.network.handle_frame(data);
        let ghost engine_action = action;
        let out = match action {
            InboundAction::Deliver(payload) => {
                match self.receive_packet(payload.as_slice()) {
                    Ok(frame) => Ok(InboundAction::Deliver(frame)),
                    Err(e) => Err(e),
                }
            },
            InboundAction::Reply(bytes) => Ok(InboundAction::Reply(bytes)),
            InboundAction::Ignore => Ok(InboundAction::Ignore),
        };
        proof {
            if let Ok((frame_type, payload)) = decoded(data@) {
                assert(NetworkState::dispatched(
                    old(self).network(),
                    self.network(),
                    frame_type,
                    payload,
                    engine_action,
                ));
                assert(Self::relayed(old(self).mac(), old(self).mtu(), engine_action, out));
            }
        }
        out
    }

    /// The guest's MAC address.
    pub fn get_mac_address(&self) -> (mac: Vec<u8>)
        ensures
            mac@ == self.mac(),
    {
        let mac = copy_range(self.mac_address.as_slice(), 0, self.mac_address.len());
        assert(mac@ =~= self.mac_address@);
        mac
    }

    /// The largest payload handed to the guest.
    pub fn get_mtu(&self) -> (mtu: u16)
        ensures
            mtu == self.mtu(),
    {
        self.mtu
    }

    /// The engine behind the shim.
    pub fn engine(&self) -> (engine: &NetworkState)
        ensures
            *engine == self.network(),
    {
        &self.network
    }

    /// The engine behind the shim, to drive its handshake and reconnects.
    /// Whatever is done to it, the shim's address and MTU stay.
    pub fn engine_mut(&mut self) -> (engine: &mut NetworkState)
        ensures
            *engine == old(self).network(),
            final(self).network() == *final(engine),
            final(self).mac() == old(self).mac(),
            final(self).mtu() == old(self).mtu(),
    {
        &mut self.network
    }
}

} // verus!
