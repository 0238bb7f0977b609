use vstd::prelude::*;
use crate::arp_builder::ip_at;
use crate::frames::{ETHERTYPE_IPV4, PROTO_ICMP, PROTO_TCP, PROTO_UDP};
use crate::icmp_builder::{icmp_reply, icmp_reply_at};
use crate::probe_table::ProbeTable;
use crate::scanner_enums::{Mode, PortStatus};
use crate::tcp_builder::{tcp_reply, tcp_reply_at};
use crate::udp_builder::{udp_reply, udp_reply_at};
use crate::wire::{be16_at, read_u16};

verus! {

/// What a frame read off the link says about a probe: `(our port, target port,
/// status)`. Only IPv4 frames from `target_ip` to `if_ip` count, and only in raw modes.
pub open spec fn frame_reply(f: Seq<u8>, if_ip: [u8; 4], target_ip: [u8; 4], mode: Mode) -> Option<
    (u16, u16, PortStatus),
> {
    if mode == Mode::Tcp || f.len() < 34 || be16_at(f, 12) != ETHERTYPE_IPV4 {
        None
    } else {
        let hlen = 4 * (f[14] % 16);
        if hlen < 20 || f.len() < 14 + hlen || ip_at(f, 26) != target_ip || ip_at(f, 30) != if_ip {
            None
        } else {
            let seg = f.subrange(14 + hlen, f.len() as int);
            if f[23] == PROTO_UDP {
                udp_reply(seg, mode)
            } else if f[23] == PROTO_TCP {
                tcp_reply(seg, mode)
            } else if f[23] == PROTO_ICMP {
                icmp_reply(seg, mode)
            } else {
                None
            }
        }
    }
}

/// The listener's filter: which target it expects replies from, on which local
/// address, for which scan mode.
#[derive(Debug, Clone, Copy)]
pub struct PacketListener {
    pub interface_ip: [u8; 4],
    pub target_ip: [u8; 4],
    pub mode: Mode,
}

impl PacketListener {
    pub fn new(interface_ip: [u8; 4], target_ip: [u8; 4], mode: Mode) -> (r: Self)
        ensures
            r == (PacketListener { interface_ip, target_ip, mode }),
    {
        PacketListener { interface_ip, target_ip, mode }
    }

    /// Decodes one frame into `(our port, target port, status)`, or nothing.
    pub fn handle_packet(&self, packet: &[u8]) -> (r: Option<(u16, u16, PortStatus)>)
        ensures
            r == frame_reply(packet@, self.interface_ip, self.target_ip, self.mode),
    {
        let n = packet.len();
        if matches!(self.mode, Mode::Tcp) || n < 34 || read_u16(packet, 12) != ETHERTYPE_IPV4 {
            return None;
        }
        let hlen = 4 * ((packet[14] % 16) as usize);
        let t = self.target_ip;
        let me = self.interface_ip;
        if hlen < 20 || n < 14 + hlen {
            return None;
        }
        let from_target = packet[26] == t[0] && packet[27] == t[1] && packet[28] == t[2] && packet[29]
            == t[3];
        let to_us = packet[30] == me[0] && packet[31] == me[1] && packet[32] == me[2] && packet[33]
            == me[3];
        proof {
            if from_target {
                assert(ip_at(packet@, 26) =~= t);
            }
            if to_us {
                assert(ip_at(packet@, 30) =~= me);
            }
        }
        if !from_target || !to_us {
            return None;
        }
        let proto = packet[23];
        if proto == PROTO_UDP {
            udp_reply_at(packet, 14 + hlen, self.mode)
        } else if proto == PROTO_TCP {
            tcp_reply_at(packet, 14 + hlen, self.mode)
        } else if proto == PROTO_ICMP {
            icmp_reply_at(packet, 14 + hlen, self.mode)
        } else {
            None
        }
    }

    /// Routes one frame to the probe waiting for it: the delivery handle registered
    /// under the decoded key, with the status to deliver. The table is not changed.
    pub fn route<'a, H>(&self, table: &'a ProbeTable<H>, packet: &[u8]) -> (r: Option<(&'a H, PortStatus)>)
        requires
            table.wf(),
        ensures
            match frame_reply(packet@, self.interface_ip, self.target_ip, self.mode) {
                Some((ours, theirs, status)) => if table.view().contains_key((ours, theirs)) {
                    r matches Some((h, st)) && *h == table.view()[(ours, theirs)] && st == status
                } else {
                    r is None
                },
                None => r is None,
            },
    {
        match self.handle_packet(packet) {
            Some((ours, theirs, status)) => match table.lookup(ours, theirs) {
                Some(h) => Some((h, status)),
                None => None,
            },
            None => None,
        }
    }
}

} // verus!
