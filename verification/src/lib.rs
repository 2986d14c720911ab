//! A typed client for a DNS-management REST API: the record model, the
//! preparation of records for a write, and the construction and decoding of
//! the calls that list, fetch and overwrite records.

pub mod client;
pub mod dns;
pub mod envelope;
pub mod error;
pub mod foreign;
pub mod path;
pub mod request;
pub mod text;

pub use dns::address::{IpAddr, Ipv4Addr, Ipv6Addr};
pub use dns::dns_settings::DnsSettings;
pub use dns::record::{AAAARecord, ARecord, CNAMERecord, MXRecord, Meta, TXTRecord};
pub use dns::{
    ContentError, DnsCommon, DnsIpContent, RecordContent, RecordMessage, ToRecordMessage,
};

pub use envelope::{
    ApiResponse, ListDnsRecordsResponse, ResponseInfo, ResultInfo, TokenStatus, TokenStatusResult,
    V4PagePaginationArray,
};
pub use client::{decoded, response_text, Cloudflare, CloudflareDns, ListRecordsRequest};
pub use error::{ApiError, ApiResult};
pub use path::compose;
pub use request::{Call, Method, PerformOptions, Request};

use vstd::prelude::*;

verus! {

/// A version tag of the remote API.
#[derive(Clone, Copy, Debug, PartialEq, Eq, Structural)]
pub enum Version {
    V1,
    V2,
    V3,
    V4,
}

impl Version {
    /// The tag as it stands in the address of a call.
    pub open spec fn tag(self) -> Seq<char> {
        match self {
            Version::V1 => "v1"@,
            Version::V2 => "v2"@,
            Version::V3 => "v3"@,
            Version::V4 => "v4"@,
        }
    }

    pub fn to_string(&self) -> (tag: String)
        ensures
            tag@ == self.tag(),
    {
        let tag = match self {
            Version::V1 => "v1",
            Version::V2 => "v2",
            Version::V3 => "v3",
            Version::V4 => "v4",
        };
        tag.to_string()
    }
}

} // verus!
