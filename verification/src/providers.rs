//! What the reconciler asks of a DNS provider, whichever provider it is: the
//! update of one address record, and how the provider's answer is read.

use vstd::prelude::*;
use vstd::string::*;
use crate::error::Error;
use crate::external::{AddressFamily, ExternalIp};

pub mod google_cloud;

verus! {

/// The type of an address record.
#[derive(Clone, Copy, Debug, PartialEq, Eq)]
pub enum RecordType {
    /// An IPv4 address record.
    A,
    /// An IPv6 address record.
    Aaaa,
}

impl RecordType {
    /// The type as providers write it.
    pub open spec fn text(self) -> Seq<char> {
        match self {
            RecordType::A => "A"@,
            RecordType::Aaaa => "AAAA"@,
        }
    }

    /// The record type that holds an address of the given family.
    pub open spec fn of(family: AddressFamily) -> RecordType {
        match family {
            AddressFamily::V4 => RecordType::A,
            AddressFamily::V6 => RecordType::Aaaa,
        }
    }

    /// The record type that holds an address of the given family: `A` for
    /// IPv4, `AAAA` for IPv6.
    pub fn for_family(family: AddressFamily) -> (r: RecordType)
        ensures
            r == RecordType::of(family),
    {
        match family {
            AddressFamily::V4 => RecordType::A,
            AddressFamily::V6 => RecordType::Aaaa,
        }
    }

    /// The type as providers write it: `"A"` or `"AAAA"`.
    pub fn as_text(&self) -> (r: &'static str)
        ensures
            r@ == self.text(),
    {
        match self {
            RecordType::A => "A",
            RecordType::Aaaa => "AAAA",
        }
    }
}

/// Whether a record name is in canonical form: it ends in a dot.
pub open spec fn is_canonical(name: Seq<char>) -> bool {
    name.len() > 0 && name.last() == '.'
}

/// A record name in its canonical form: a name that ends in a dot is left
/// as it is, any other gets one dot at its end.
pub open spec fn canonical_name(name: Seq<char>) -> Seq<char> {
    if is_canonical(name) {
        name
    } else {
        name.push('.')
    }
}

/// Brings a record name to its canonical form.
pub fn normalize_record_name(name: &str) -> (r: String)
    ensures
        r@ == canonical_name(name@),
        is_canonical(r@),
{
    let length = name.unicode_len();
    let mut canonical = name.to_owned();
    if length == 0 || name.get_char(length - 1) != '.' {
        canonical.append(".");
        proof {
            reveal_strlit(".");
            assert("."@ =~= seq!['.']);
            assert(canonical@ =~= name@.push('.'));
        }
    }
    canonical
}

/// The canonical form is canonical, and a canonical name is its own
/// canonical form: normalising twice changes nothing.
pub proof fn canonical_name_is_stable(name: Seq<char>)
    ensures
        is_canonical(canonical_name(name)),
        is_canonical(name) ==> canonical_name(name) == name,
        canonical_name(canonical_name(name)) == canonical_name(name),
{
}

/// One update of an address record, as it is handed to a provider. Its
/// record name is always in canonical form.
#[derive(Debug, PartialEq, Eq)]
pub struct RecordUpdate {
    name: String,
    record_type: RecordType,
    address: String,
}

/// What a [`RecordUpdate`] stands for.
pub struct RecordUpdateView {
    /// The record's name.
    pub name: Seq<char>,
    /// The record's type.
    pub record_type: RecordType,
    /// The address the record is to hold.
    pub address: Seq<char>,
}

impl View for RecordUpdate {
    type V = RecordUpdateView;

    closed spec fn view(&self) -> RecordUpdateView {
        RecordUpdateView { name: self.name@, record_type: self.record_type, address: self.address@ }
    }
}

/// The update that publishes a candidate address under a record name: the
/// name made canonical, the type chosen by the address family.
pub open spec fn update_for(
    name: Seq<char>,
    address: Seq<char>,
    family: AddressFamily,
) -> RecordUpdateView {
    RecordUpdateView { name: canonical_name(name), record_type: RecordType::of(family), address }
}

impl Clone for RecordUpdate {
    fn clone(&self) -> (r: Self)
        ensures
            r@ == self@,
    {
        proof {
            use_type_invariant(self);
        }
        RecordUpdate {
            name: self.name.clone(),
            record_type: self.record_type,
            address: self.address.clone(),
        }
    }
}

impl RecordUpdate {
    /// Holds of every update: its record name is in canonical form.
    #[verifier::type_invariant]
    spec fn name_is_canonical(self) -> bool {
        is_canonical(self.name@)
    }

    /// The update that publishes `ip` under the record name `name`.
    pub fn new(name: &str, ip: &ExternalIp) -> (r: RecordUpdate)
        ensures
            r@ == update_for(name@, ip@.address, ip@.family),
    {
        RecordUpdate {
            name: normalize_record_name(name),
            record_type: RecordType::for_family(ip.family),
            address: ip.address.clone(),
        }
    }

    /// The record's name, in canonical form.
    pub fn name(&self) -> (r: &String)
        ensures
            r@ == self@.name,
            is_canonical(r@),
    {
        proof {
            use_type_invariant(self);
        }
        &self.name
    }

    /// The record's type.
    pub fn record_type(&self) -> (r: RecordType)
        ensures
            r == self@.record_type,
    {
        self.record_type
    }

    /// The address the record is to hold.
    pub fn address(&self) -> (r: &String)
        ensures
            r@ == self@.address,
    {
        &self.address
    }
}

/// Record-type selection: an address classified as IPv4 is published in a
/// record of type `A`, one classified as IPv6 in a record of type `AAAA`.
pub proof fn record_type_follows_family(name: Seq<char>, address: Seq<char>)
    ensures
        update_for(name, address, AddressFamily::V4).record_type.text() == "A"@,
        update_for(name, address, AddressFamily::V6).record_type.text() == "AAAA"@,
{
}

/// What came of handing an update to the provider.
#[derive(Clone, Copy, Debug, PartialEq, Eq)]
pub enum ProviderReply {
    /// The provider answered, with this status.
    Status(u16),
    /// No credentials could be had, so the provider was not asked.
    AuthFailed,
    /// The provider was asked and no answer came.
    Unreachable,
}

/// Whether a status is one of success: 200 to 299.
pub open spec fn is_success(status: u16) -> bool {
    200 <= status < 300
}

/// The failure that a provider's reply amounts to, `None` where it accepted
/// the update. Only a status of success is an acceptance.
pub open spec fn reply_failure(reply: ProviderReply) -> Option<Error> {
    match reply {
        ProviderReply::Status(status) => if is_success(status) {
            None
        } else {
            Some(Error::Provider { status: Some(status) })
        },
        ProviderReply::AuthFailed => Some(Error::Auth),
        ProviderReply::Unreachable => Some(Error::Provider { status: None }),
    }
}

/// Reads a provider's reply: `Ok` where it accepted the update, the failure
/// otherwise.
pub fn outcome(reply: ProviderReply) -> (r: Result<(), Error>)
    ensures
        match reply_failure(reply) {
            None => r is Ok,
            Some(failure) => r == Err::<(), Error>(failure),
        },
{
    match reply {
        ProviderReply::Status(status) => {
            if 200 <= status && status < 300 {
                Ok(())
            } else {
                Err(Error::Provider { status: Some(status) })
            }
        },
        ProviderReply::AuthFailed => Err(Error::Auth),
        ProviderReply::Unreachable => Err(Error::Provider { status: None }),
    }
}

} // verus!
