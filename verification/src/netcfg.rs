//! Bringing the tunnel interface up: the numeric control-operation
//! codes, the strict order of the bring-up steps, the flag and netmask
//! arithmetic, and the builders for each step's control request.

use vstd::prelude::*;
use vstd::string::StringSliceAdditionalSpecFns;
use crate::request::{
    addr_of, encoding_of, flags_of, ifreq, lemma_addr_round_trip, lemma_flags_round_trip,
    name_field_spec, IfrPayload, SockAddrIn, IFNAMSIZ,
};

verus! {

/// Interface flag: administratively up.
pub const IFF_UP: u16 = 0x0001;

/// Interface flag: operationally running.
pub const IFF_RUNNING: u16 = 0x0040;

/// Device flag: layer-3 tunnel (raw IP packets, no link header).
pub const IFF_TUN: u16 = 0x0001;

/// Device flag: no packet-information prefix on reads and writes.
pub const IFF_NO_PI: u16 = 0x1000;

/// Device flag: the device may be opened by several queues.
pub const IFF_MULTI_QUEUE: u16 = 0x0100;

/// Control code: attach an open device resource to a named interface.
pub const TUNSETIFF: u64 = 0x400454ca;

/// Control code: fetch an interface's flags.
pub const SIOCGIFFLAGS: u64 = 0x8913;

/// Control code: set an interface's flags.
pub const SIOCSIFFLAGS: u64 = 0x8914;

/// Control code: set an interface's address.
pub const SIOCSIFADDR: u64 = 0x8916;

/// Control code: set an interface's netmask.
pub const SIOCSIFNETMASK: u64 = 0x891c;

/// One step of the bring-up sequence, in the order the kernel's
/// network stack requires.
#[derive(Clone, Copy, PartialEq, Eq, Structural, Debug)]
pub enum ConfigStep {
    /// Fetch the interface's current flags.
    GetFlags,
    /// Set the flags to the fetched value with UP and RUNNING added.
    SetFlags,
    /// Set the interface's IPv4 address.
    SetAddr,
    /// Set the interface's IPv4 netmask.
    SetNetmask,
}

/// The control code each bring-up step issues.
pub open spec fn opcode_spec(step: ConfigStep) -> u64 {
    match step {
        ConfigStep::GetFlags => SIOCGIFFLAGS,
        ConfigStep::SetFlags => SIOCSIFFLAGS,
        ConfigStep::SetAddr => SIOCSIFADDR,
        ConfigStep::SetNetmask => SIOCSIFNETMASK,
    }
}

/// The control code each bring-up step issues.
pub fn opcode_of(step: ConfigStep) -> (r: u64)
    ensures
        r == opcode_spec(step),
{
    match step {
        ConfigStep::GetFlags => SIOCGIFFLAGS,
        ConfigStep::SetFlags => SIOCSIFFLAGS,
        ConfigStep::SetAddr => SIOCSIFADDR,
        ConfigStep::SetNetmask => SIOCSIFNETMASK,
    }
}

/// The bring-up steps in their one admissible order: flags are fetched
/// before they are set, and the address is assigned before the netmask.
pub fn bring_up_steps() -> (steps: Vec<ConfigStep>)
    ensures
        steps@ == seq![
            ConfigStep::GetFlags,
            ConfigStep::SetFlags,
            ConfigStep::SetAddr,
            ConfigStep::SetNetmask,
        ],
{
    let mut steps: Vec<ConfigStep> = Vec::new();
    steps.push(ConfigStep::GetFlags);
    steps.push(ConfigStep::SetFlags);
    steps.push(ConfigStep::SetAddr);
    steps.push(ConfigStep::SetNetmask);
    proof {
        assert(steps@ =~= seq![
            ConfigStep::GetFlags,
            ConfigStep::SetFlags,
            ConfigStep::SetAddr,
            ConfigStep::SetNetmask,
        ]);
    }
    steps
}

/// The IPv4 netmask of a prefix length: the high `prefix` bits set.
pub open spec fn netmask_spec(prefix: u8) -> u32
    recommends
        prefix <= 32,
{
    if prefix == 0 {
        0u32
    } else {
        (0xffff_ffffu32 << (32 - prefix) as u32) as u32
    }
}

/// Compute the netmask of a prefix length.
pub fn netmask_from_prefix(prefix: u8) -> (m: u32)
    requires
        prefix <= 32,
    ensures
        m == netmask_spec(prefix),
{
    if prefix == 0 {
        0
    } else {
        0xffff_ffffu32 << (32 - prefix) as u32
    }
}

/// Bit `i` of the netmask is set exactly when `i` lies in the high
/// `prefix` bits.
pub proof fn lemma_netmask_bits(prefix: u8, i: u32)
    by (bit_vector)
    requires
        prefix <= 32,
        i < 32,
    ensures
        (netmask_spec(prefix) >> i) & 1 == if 32 - prefix <= i {
            1u32
        } else {
            0u32
        },
{
}

/// Add UP and RUNNING to fetched flags, leaving every other bit as the
/// kernel reported it.
pub fn or_up_running(fetched: u16) -> (r: u16)
    ensures
        r == fetched | (IFF_UP | IFF_RUNNING),
{
    fetched | (IFF_UP | IFF_RUNNING)
}

/// Adding UP and RUNNING sets both bits and clears nothing: every bit
/// outside the two requested ones keeps its fetched value.
pub proof fn lemma_up_running_preserves(fetched: u16)
    by (bit_vector)
    ensures
        (fetched | (IFF_UP | IFF_RUNNING)) & IFF_UP == IFF_UP,
        (fetched | (IFF_UP | IFF_RUNNING)) & IFF_RUNNING == IFF_RUNNING,
        (fetched | (IFF_UP | IFF_RUNNING)) & !(IFF_UP | IFF_RUNNING) == fetched & !(IFF_UP
            | IFF_RUNNING),
{
}

/// The request that attaches an open device resource to the named
/// interface as a layer-3 tunnel without packet information, open to
/// several queues.
pub fn tun_setiff_request(iface: &str) -> (r: ifreq)
    ensures
        r.wf(),
        r.ifr_name@ == name_field_spec(iface.spec_bytes()),
        r.ifr_ifru == IfrPayload::Flags(IFF_TUN | IFF_NO_PI | IFF_MULTI_QUEUE),
{
    let mut req = ifreq::with_if_name(iface);
    req.ifr_ifru = IfrPayload::Flags(IFF_TUN | IFF_NO_PI | IFF_MULTI_QUEUE);
    req
}

/// The request of the SetFlags step: the fetched flags with UP and
/// RUNNING added.
pub fn set_flags_request(iface: &str, fetched: u16) -> (r: ifreq)
    ensures
        r.wf(),
        r.ifr_name@ == name_field_spec(iface.spec_bytes()),
        r.ifr_ifru == IfrPayload::Flags(fetched | (IFF_UP | IFF_RUNNING)),
{
    let mut req = ifreq::with_if_name(iface);
    req.ifr_ifru = IfrPayload::Flags(or_up_running(fetched));
    req
}

/// The request of the SetAddr step: the interface's IPv4 address.
pub fn set_addr_request(iface: &str, addr: u32) -> (r: ifreq)
    ensures
        r.wf(),
        r.ifr_name@ == name_field_spec(iface.spec_bytes()),
        r.ifr_ifru == IfrPayload::Addr(SockAddrIn { addr, port: 0 }),
{
    let mut req = ifreq::with_if_name(iface);
    req.ifr_ifru = IfrPayload::Addr(SockAddrIn { addr, port: 0 });
    req
}

/// The request of the SetNetmask step: the netmask derived from the
/// prefix length.
pub fn set_netmask_request(iface: &str, prefix: u8) -> (r: ifreq)
    requires
        prefix <= 32,
    ensures
        r.wf(),
        r.ifr_name@ == name_field_spec(iface.spec_bytes()),
        r.ifr_ifru == IfrPayload::Netmask(SockAddrIn { addr: netmask_spec(prefix), port: 0 }),
{
    let mut req = ifreq::with_if_name(iface);
    req.ifr_ifru = IfrPayload::Netmask(SockAddrIn { addr: netmask_from_prefix(prefix), port: 0 });
    req
}

/// Configuration round trip: reading the bring-up requests back yields
/// the address that was assigned, the netmask its prefix derives, and
/// flags that include UP and RUNNING while every other fetched bit is
/// preserved.
pub proof fn lemma_bring_up_round_trip(name: Seq<u8>, fetched: u16, addr: u32, prefix: u8)
    requires
        name.len() == IFNAMSIZ,
        prefix <= 32,
    ensures
        addr_of(encoding_of(name, IfrPayload::Addr(SockAddrIn { addr, port: 0 }))) == addr,
        addr_of(
            encoding_of(
                name,
                IfrPayload::Netmask(SockAddrIn { addr: netmask_spec(prefix), port: 0 }),
            ),
        ) == netmask_spec(prefix),
        flags_of(encoding_of(name, IfrPayload::Flags(fetched | (IFF_UP | IFF_RUNNING)))) == (
        fetched | (IFF_UP | IFF_RUNNING)),
        flags_of(encoding_of(name, IfrPayload::Flags(fetched | (IFF_UP | IFF_RUNNING)))) & IFF_UP
            == IFF_UP,
        flags_of(encoding_of(name, IfrPayload::Flags(fetched | (IFF_UP | IFF_RUNNING))))
            & IFF_RUNNING == IFF_RUNNING,
        flags_of(encoding_of(name, IfrPayload::Flags(fetched | (IFF_UP | IFF_RUNNING)))) & !(IFF_UP
            | IFF_RUNNING) == fetched & !(IFF_UP | IFF_RUNNING),
{
    lemma_addr_round_trip(name, SockAddrIn { addr, port: 0 });
    lemma_addr_round_trip(name, SockAddrIn { addr: netmask_spec(prefix), port: 0 });
    lemma_flags_round_trip(name, fetched | (IFF_UP | IFF_RUNNING));
    lemma_up_running_preserves(fetched);
}

} // verus!
