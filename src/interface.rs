use vstd::prelude::*;

verus! {

/// The local interface a scan runs on: immutable once built.
#[derive(Debug, Clone)]
pub struct DeviceInterface {
    pub name: String,
    pub mac: [u8; 6],
    pub ip: [u8; 4],
    pub netmask: [u8; 4],
    pub default_gateway_ip: [u8; 4],
}

/// An interface as the operating system lists it.
#[derive(Debug, Clone)]
pub struct InterfaceInfo {
    pub name: String,
    pub is_loopback: bool,
    pub mac: Option<[u8; 6]>,
    /// Its IPv4 addresses, each with its netmask, in the listed order.
    pub ipv4: Vec<([u8; 4], [u8; 4])>,
}

/// Why no device interface could be set up.
#[derive(Debug, Clone, Copy, PartialEq, Eq, Structural)]
pub enum InterfaceError {
    NoMacAddress,
    NoIpv4Address,
    NoGatewayFound,
}

/// `a` and `b` agree on every bit that `mask` keeps.
pub open spec fn same_subnet(a: [u8; 4], b: [u8; 4], mask: [u8; 4]) -> bool {
    forall|i: int| 0 <= i < 4 ==> #[trigger] (a[i] & mask[i]) == (b[i] & mask[i])
}

/// Not loopback, with a MAC address and at least one IPv4 address.
pub open spec fn usable(info: InterfaceInfo) -> bool {
    !info.is_loopback && info.mac is Some && info.ipv4@.len() > 0
}

impl DeviceInterface {
    /// True when `target_ip` lies in this interface's subnet.
    pub fn check_local_device(&self, target_ip: [u8; 4]) -> (r: bool)
        ensures
            r == same_subnet(target_ip, self.ip, self.netmask),
    {
        let r = (target_ip[0] & self.netmask[0]) == (self.ip[0] & self.netmask[0]) && (target_ip[1]
            & self.netmask[1]) == (self.ip[1] & self.netmask[1]) && (target_ip[2] & self.netmask[2])
            == (self.ip[2] & self.netmask[2]) && (target_ip[3] & self.netmask[3]) == (self.ip[3]
            & self.netmask[3]);
        proof {
            if !r {
                assert(!same_subnet(target_ip, self.ip, self.netmask));
            }
        }
        r
    }

    /// The next hop whose MAC address frames to `target_ip` go to: the target itself
    /// when it is on the local subnet, else the default gateway.
    pub fn next_hop(&self, target_ip: [u8; 4]) -> (r: [u8; 4])
        ensures
            r == if same_subnet(target_ip, self.ip, self.netmask) {
                target_ip
            } else {
                self.default_gateway_ip
            },
    {
        if self.check_local_device(target_ip) {
            target_ip
        } else {
            self.default_gateway_ip
        }
    }

    /// Builds the device interface from the listed interface and the IPv4 gateways
    /// found for it: its MAC, its first IPv4 address and netmask, the first gateway.
    pub fn from_parts(info: &InterfaceInfo, gateways: &Vec<[u8; 4]>) -> (r: Result<
        DeviceInterface,
        InterfaceError,
    >)
        ensures
            info.mac is None ==> r == Err::<DeviceInterface, InterfaceError>(
                InterfaceError::NoMacAddress,
            ),
            info.mac is Some && info.ipv4@.len() == 0 ==> r == Err::<DeviceInterface, InterfaceError>(
                InterfaceError::NoIpv4Address,
            ),
            info.mac is Some && info.ipv4@.len() > 0 && gateways@.len() == 0 ==> r == Err::<
                DeviceInterface,
                InterfaceError,
            >(InterfaceError::NoGatewayFound),
            r is Ok ==> ({
                let d = r->Ok_0;
                &&& d.name@ == info.name@
                &&& info.mac == Some(d.mac)
                &&& info.ipv4@[0] == (d.ip, d.netmask)
                &&& d.default_gateway_ip == gateways@[0]
            }),
            info.mac is Some && info.ipv4@.len() > 0 && gateways@.len() > 0 ==> r is Ok,
    {
        let mac = match info.mac {
            Some(m) => m,
            None => return Err(InterfaceError::NoMacAddress),
        };
        if info.ipv4.len() == 0 {
            return Err(InterfaceError::NoIpv4Address);
        }
        if gateways.len() == 0 {
            return Err(InterfaceError::NoGatewayFound);
        }
        let (ip, netmask) = info.ipv4[0];
        Ok(DeviceInterface {
            name: info.name.clone(),
            mac,
            ip,
            netmask,
            default_gateway_ip: gateways[0],
        })
    }
}

/// The index of the first usable interface (not loopback, with a MAC and an IPv4
/// address); `None` when there is none.
pub fn select_interface(candidates: &Vec<InterfaceInfo>) -> (r: Option<usize>)
    ensures
        r is None ==> forall|i: int| 0 <= i < candidates@.len() ==> !usable(#[trigger] candidates@[i]),
        r is Some ==> r->0 < candidates@.len() && usable(candidates@[r->0 as int]) && forall|i: int|
            0 <= i < r->0 ==> !usable(#[trigger] candidates@[i]),
{
    let mut i: usize = 0;
    while i < candidates.len()
        invariant
            0 <= i <= candidates@.len(),
            forall|j: int| 0 <= j < i ==> !usable(#[trigger] candidates@[j]),
        decreases candidates@.len() - i,
    {
        let c = &candidates[i];
        if !c.is_loopback && c.mac.is_some() && c.ipv4.len() > 0 {
            return Some(i);
        }
        i += 1;
    }
    None
}

} // verus!
