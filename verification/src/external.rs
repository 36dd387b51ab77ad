//! The candidate address: what the resolver found this cycle.

use vstd::prelude::*;

verus! {

/// The family an address belongs to.
#[derive(Clone, Copy, Debug, PartialEq, Eq)]
pub enum AddressFamily {
    V4,
    V6,
}

/// The host's public address as the resolver reported it: the text of the
/// address and the family the resolver classified it as.
#[derive(Debug, PartialEq, Eq)]
pub struct ExternalIp {
    pub address: String,
    pub family: AddressFamily,
}

/// What an [`ExternalIp`] stands for.
pub struct ExternalIpView {
    pub address: Seq<char>,
    pub family: AddressFamily,
}

impl View for ExternalIp {
    type V = ExternalIpView;

    open spec fn view(&self) -> ExternalIpView {
        ExternalIpView { address: self.address@, family: self.family }
    }
}

impl Clone for ExternalIp {
    fn clone(&self) -> (r: Self)
        ensures
            r@ == self@,
    {
        ExternalIp { address: self.address.clone(), family: self.family }
    }
}

impl ExternalIp {
    pub fn new(address: String, family: AddressFamily) -> (r: Self)
        ensures
            r@ == (ExternalIpView { address: address@, family }),
    {
        ExternalIp { address, family }
    }

    /// Whether the resolver classified the address as IPv4.
    pub fn is_ipv4(&self) -> (r: bool)
        ensures
            r == (self@.family == AddressFamily::V4),
    {
        match self.family {
            AddressFamily::V4 => true,
            AddressFamily::V6 => false,
        }
    }
}

} // verus!
