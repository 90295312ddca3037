//! The addresses at which the backend may listen: those of its own machine.

use vstd::prelude::*;

verus! {

/// Where the backend listens unless it is told otherwise.
pub const DEFAULT_BACKEND_ADDR: &'static str = "127.0.0.1:0";

/// The address of a host.
#[derive(Debug, Clone, Copy, PartialEq, Eq)]
pub enum HostAddr {
    V4 { octets: [u8; 4] },
    V6 { segments: [u16; 8] },
}

/// An address to listen at.
#[derive(Debug, Clone, Copy, PartialEq, Eq)]
pub struct BindAddr {
    pub host: HostAddr,
    pub port: u16,
}

impl HostAddr {
    /// Whether the address never leaves its machine: any of 127.0.0.0/8, or ::1.
    pub open spec fn spec_loopback(self) -> bool {
        match self {
            HostAddr::V4 { octets } => octets@[0] == 127,
            HostAddr::V6 { segments } => segments@ == seq![0u16, 0, 0, 0, 0, 0, 0, 1],
        }
    }

    /// Computes [`HostAddr::spec_loopback`].
    pub fn is_loopback(&self) -> (r: bool)
        ensures
            r == self.spec_loopback(),
    {
        match self {
            HostAddr::V4 { octets } => octets[0] == 127,
            HostAddr::V6 { segments } => {
                let r = segments[0] == 0 && segments[1] == 0 && segments[2] == 0 && segments[3] == 0
                    && segments[4] == 0 && segments[5] == 0 && segments[6] == 0 && segments[7] == 1;
                proof {
                    if r {
                        assert(segments@ =~= seq![0u16, 0, 0, 0, 0, 0, 0, 1]);
                    }
                }
                r
            },
        }
    }
}

/// Whether an address is taken exactly if it is one of this machine, and refused
/// with `complaint` and the address as it is written else.
pub open spec fn stays_here(
    addr: BindAddr,
    complaint: Seq<char>,
    shown: Seq<char>,
    checked: Result<BindAddr, String>,
) -> bool {
    if addr.host.spec_loopback() {
        checked == Ok::<BindAddr, String>(addr)
    } else {
        checked matches Err(message) && message@ == complaint + shown
    }
}

/// Takes an address that was configured, if it is one of this machine; `shown` is
/// the address as it is written.
pub fn configured_bind_addr(addr: BindAddr, shown: &str) -> (checked: Result<BindAddr, String>)
    ensures
        stays_here(
            addr,
            "NOCTURNE_BACKEND_ADDR must use a loopback address, got "@,
            shown@,
            checked,
        ),
{
    if addr.host.is_loopback() {
        Ok(addr)
    } else {
        let mut message = "NOCTURNE_BACKEND_ADDR must use a loopback address, got ".to_owned();
        message.append(shown);
        Err(message)
    }
}

/// Takes an address to listen at, if it is one of this machine; `shown` is the
/// address as it is written.
pub fn validate_bind_addr(addr: BindAddr, shown: &str) -> (checked: Result<BindAddr, String>)
    ensures
        stays_here(addr, "NOCTURNE_BACKEND_ADDR must stay on loopback, got "@, shown@, checked),
{
    if addr.host.is_loopback() {
        Ok(addr)
    } else {
        let mut message = "NOCTURNE_BACKEND_ADDR must stay on loopback, got ".to_owned();
        message.append(shown);
        Err(message)
    }
}

/// The backend listens at addresses that begin with 127, or at the one of IPv6
/// whose last segment is one and whose others are zero; at no other, whatever the
/// port.
pub proof fn only_addresses_of_this_machine_are_taken(
    addr: BindAddr,
    complaint: Seq<char>,
    shown: Seq<char>,
    checked: Result<BindAddr, String>,
)
    requires
        stays_here(addr, complaint, shown, checked),
    ensures
        addr.host matches HostAddr::V4 { octets } ==> (checked is Ok <==> octets@[0] == 127),
        addr.host matches HostAddr::V6 { segments } ==> (checked is Ok <==> segments@[7] == 1
            && forall|i: int| 0 <= i < 7 ==> #[trigger] segments@[i] == 0),
        checked matches Ok(taken) ==> taken == addr,
{
    if let HostAddr::V6 { segments } = addr.host {
        let local = seq![0u16, 0, 0, 0, 0, 0, 0, 1];
        assert(local[0] == 0 && local[1] == 0 && local[2] == 0 && local[3] == 0 && local[4] == 0
            && local[5] == 0 && local[6] == 0 && local[7] == 1);
        if segments@[7] == 1 && forall|i: int| 0 <= i < 7 ==> #[trigger] segments@[i] == 0 {
            assert(segments@ =~= local);
        }
    }
}

} // verus!
