//! Google Cloud DNS: the request that carries a record update.

use vstd::prelude::*;
use vstd::string::*;
use crate::json::{json_quoted, quote};
use crate::external::ExternalIp;
use crate::providers::{update_for, RecordUpdate, RecordUpdateView};

verus! {

/// Where the record sets of Cloud DNS projects live.
pub const DNS_API_URL: &'static str = "https://dns.googleapis.com/dns/v1beta2/projects";

/// What the Cloud DNS client is configured with.
#[derive(Debug, PartialEq, Eq)]
pub struct GcpArgs {
    /// The path of the file that holds the service account's key.
    pub auth_file: String,
    /// The project that owns the zone.
    pub project: String,
    /// The managed zone that holds the record.
    pub zone: String,
    /// The record's name, as the user gave it.
    pub hostname: String,
}

/// A `PATCH` request to Cloud DNS: where it goes and the JSON it carries.
#[derive(Debug, PartialEq, Eq)]
pub struct DnsPatch {
    pub url: String,
    pub body: String,
}

/// The address of a record set: project, zone, record name and record type
/// below [`DNS_API_URL`].
pub open spec fn record_url(
    project: Seq<char>,
    zone: Seq<char>,
    update: RecordUpdateView,
) -> Seq<char> {
    DNS_API_URL@ + "/"@ + project + "/managedZones/"@ + zone + "/rrsets/"@ + update.name + "/"@
        + update.record_type.text()
}

/// The body that sets a record to the one address whose JSON literal is
/// `literal`.
pub open spec fn patch_text(literal: Seq<char>) -> Seq<char> {
    "{\"rrdatas\":["@ + literal + "]}"@
}

/// The body that sets a record to one address.
pub open spec fn patch_body(address: Seq<char>) -> Seq<char> {
    patch_text(json_quoted(address))
}

impl Clone for GcpArgs {
    fn clone(&self) -> (r: Self)
        ensures
            r.auth_file@ == self.auth_file@,
            r.project@ == self.project@,
            r.zone@ == self.zone@,
            r.hostname@ == self.hostname@,
    {
        GcpArgs {
            auth_file: self.auth_file.clone(),
            project: self.project.clone(),
            zone: self.zone.clone(),
            hostname: self.hostname.clone(),
        }
    }
}

impl GcpArgs {
    /// The address of the record set that `update` is about, in this
    /// project and zone.
    pub fn record_url(&self, update: &RecordUpdate) -> (r: String)
        ensures
            r@ == record_url(self.project@, self.zone@, update@),
    {
        let mut url = DNS_API_URL.to_owned();
        url.append("/");
        url.append(self.project.as_str());
        url.append("/managedZones/");
        url.append(self.zone.as_str());
        url.append("/rrsets/");
        url.append(update.name().as_str());
        url.append("/");
        url.append(update.record_type().as_text());
        url
    }

    /// The request that makes `update` in this project and zone, given the
    /// JSON literal of the update's address.
    pub fn patch(&self, update: &RecordUpdate, literal: &str) -> (r: DnsPatch)
        ensures
            r.url@ == record_url(self.project@, self.zone@, update@),
            r.body@ == patch_text(literal@),
    {
        let mut body = "{\"rrdatas\":[".to_owned();
        body.append(literal);
        body.append("]}");
        DnsPatch { url: self.record_url(update), body }
    }

    /// The request that makes `update` in this project and zone.
    pub fn edit_dns_record(&self, update: &RecordUpdate) -> (r: DnsPatch)
        ensures
            r.url@ == record_url(self.project@, self.zone@, update@),
            r.body@ == patch_body(update@.address),
    {
        let literal = quote(update.address().as_str()).unwrap();
        self.patch(update, literal.as_str())
    }

    /// The request that sets this client's own record, the one named
    /// `hostname`, to `ip`.
    pub fn update(&self, ip: &ExternalIp) -> (r: DnsPatch)
        ensures
            r.url@ == record_url(
                self.project@,
                self.zone@,
                update_for(self.hostname@, ip@.address, ip@.family),
            ),
            r.body@ == patch_body(ip@.address),
    {
        let update = RecordUpdate::new(self.hostname.as_str(), ip);
        self.edit_dns_record(&update)
    }
}

} // verus!
