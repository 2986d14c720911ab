use vstd::prelude::*;

use super::address::{Ipv4Addr, Ipv6Addr};
use super::dns_settings::DnsSettings;
use super::{CommonFields, DnsCommon, RecordMessage, RecordMessageView, ToRecordMessage};
use crate::text::{opt_nat, opt_text, opt_texts, Text};

verus! {

/// An annotation that the server attaches to a record. Its structure is the
/// server's own; it is carried along unread.
#[derive(Clone, Debug)]
pub struct Meta(pub serde_json::Value);

/// An address record: a name that resolves to an IPv4 address.
/// Every field is optional: an absent field is not specified, which is not
/// the same as empty.
#[derive(Clone, Debug)]
pub struct ARecord {
    pub id: Option<String>,
    pub zone_id: Option<String>,
    pub zone_name: Option<String>,
    pub meta: Option<serde_json::Value>,
    pub comment: Option<String>,
    pub content: Option<Ipv4Addr>,
    pub name: Option<String>,
    pub proxied: Option<bool>,
    pub settings: Option<DnsSettings>,
    pub tags: Option<Vec<String>>,
    pub ttl: Option<usize>,
    pub modified_on: Option<String>,
    pub comment_modified_on: Option<String>,
    pub tags_modified_on: Option<String>,
}

/// The value of an `ARecord`.
pub ghost struct ARecordView {
    pub id: Option<Text>,
    pub zone_id: Option<Text>,
    pub zone_name: Option<Text>,
    pub meta: Option<serde_json::Value>,
    pub comment: Option<Text>,
    pub content: Option<Ipv4Addr>,
    pub name: Option<Text>,
    pub proxied: Option<bool>,
    pub settings: Option<DnsSettings>,
    pub tags: Option<Seq<Text>>,
    pub ttl: Option<nat>,
    pub modified_on: Option<Text>,
    pub comment_modified_on: Option<Text>,
    pub tags_modified_on: Option<Text>,
}

impl ARecordView {
    /// The record in which no field is specified.
    pub open spec fn empty() -> Self {
        ARecordView {
            id: None,
            zone_id: None,
            zone_name: None,
            meta: None,
            comment: None,
            content: None,
            name: None,
            proxied: None,
            settings: None,
            tags: None,
            ttl: None,
            modified_on: None,
            comment_modified_on: None,
            tags_modified_on: None,
        }
    }
}

impl View for ARecord {
    type V = ARecordView;

    open spec fn view(&self) -> ARecordView {
        ARecordView {
            id: opt_text(self.id),
            zone_id: opt_text(self.zone_id),
            zone_name: opt_text(self.zone_name),
            meta: self.meta,
            comment: opt_text(self.comment),
            content: self.content,
            name: opt_text(self.name),
            proxied: self.proxied,
            settings: self.settings,
            tags: opt_texts(self.tags),
            ttl: opt_nat(self.ttl),
            modified_on: opt_text(self.modified_on),
            comment_modified_on: opt_text(self.comment_modified_on),
            tags_modified_on: opt_text(self.tags_modified_on),
        }
    }
}

impl Default for ARecord {
    fn default() -> (record: Self)
        ensures
            record@ == ARecordView::empty(),
    {
        ARecord {
            id: None,
            zone_id: None,
            zone_name: None,
            meta: None,
            comment: None,
            content: None,
            name: None,
            proxied: None,
            settings: None,
            tags: None,
            ttl: None,
            modified_on: None,
            comment_modified_on: None,
            tags_modified_on: None,
        }
    }
}

impl ToRecordMessage for ARecord {
    open spec fn message(self) -> RecordMessageView {
        RecordMessageView::A(self@)
    }

    fn to_record_message(self) -> (message: RecordMessage) {
        RecordMessage::A(self)
    }
}

impl DnsCommon for ARecord {
    open spec fn common(model: ARecordView) -> CommonFields {
        CommonFields {
            id: model.id,
            zone_id: model.zone_id,
            zone_name: model.zone_name,
            name: model.name,
        }
    }

    open spec fn with_common(model: ARecordView, fields: CommonFields) -> ARecordView {
        ARecordView {
            id: fields.id,
            zone_id: fields.zone_id,
            zone_name: fields.zone_name,
            name: fields.name,
            ..model
        }
    }

    proof fn common_fields_are_a_lens(model: ARecordView, fields: CommonFields, earlier: CommonFields) {
    }

    fn get_id(self) -> (value: Option<String>) {
        self.id
    }

    fn set_id(&mut self, v: Option<String>) {
        self.id = v;
    }

    fn get_zone_id(self) -> (value: Option<String>) {
        self.zone_id
    }

    fn set_zone_id(&mut self, v: Option<String>) {
        self.zone_id = v;
    }

    fn get_zone_name(self) -> (value: Option<String>) {
        self.zone_name
    }

    fn set_zone_name(&mut self, v: Option<String>) {
        self.zone_name = v;
    }

    fn get_name(self) -> (value: Option<String>) {
        self.name
    }

    fn set_name(&mut self, v: Option<String>) {
        self.name = v;
    }
}

/// An address record: a name that resolves to an IPv6 address.
/// Every field is optional: an absent field is not specified, which is not
/// the same as empty.
#[derive(Clone, Debug)]
pub struct AAAARecord {
    pub id: Option<String>,
    pub zone_id: Option<String>,
    pub zone_name: Option<String>,
    pub meta: Option<serde_json::Value>,
    pub comment: Option<String>,
    pub content: Option<Ipv6Addr>,
    pub name: Option<String>,
    pub proxied: Option<bool>,
    pub settings: Option<DnsSettings>,
    pub tags: Option<Vec<String>>,
    pub ttl: Option<usize>,
    pub modified_on: Option<String>,
    pub comment_modified_on: Option<String>,
    pub tags_modified_on: Option<String>,
}

/// The value of an `AAAARecord`.
pub ghost struct AAAARecordView {
    pub id: Option<Text>,
    pub zone_id: Option<Text>,
    pub zone_name: Option<Text>,
    pub meta: Option<serde_json::Value>,
    pub comment: Option<Text>,
    pub content: Option<Ipv6Addr>,
    pub name: Option<Text>,
    pub proxied: Option<bool>,
    pub settings: Option<DnsSettings>,
    pub tags: Option<Seq<Text>>,
    pub ttl: Option<nat>,
    pub modified_on: Option<Text>,
    pub comment_modified_on: Option<Text>,
    pub tags_modified_on: Option<Text>,
}

impl AAAARecordView {
    /// The record in which no field is specified.
    pub open spec fn empty() -> Self {
        AAAARecordView {
            id: None,
            zone_id: None,
            zone_name: None,
            meta: None,
            comment: None,
            content: None,
            name: None,
            proxied: None,
            settings: None,
            tags: None,
            ttl: None,
            modified_on: None,
            comment_modified_on: None,
            tags_modified_on: None,
        }
    }
}

impl View for AAAARecord {
    type V = AAAARecordView;

    open spec fn view(&self) -> AAAARecordView {
        AAAARecordView {
            id: opt_text(self.id),
            zone_id: opt_text(self.zone_id),
            zone_name: opt_text(self.zone_name),
            meta: self.meta,
            comment: opt_text(self.comment),
            content: self.content,
            name: opt_text(self.name),
            proxied: self.proxied,
            settings: self.settings,
            tags: opt_texts(self.tags),
            ttl: opt_nat(self.ttl),
            modified_on: opt_text(self.modified_on),
            comment_modified_on: opt_text(self.comment_modified_on),
            tags_modified_on: opt_text(self.tags_modified_on),
        }
    }
}

impl Default for AAAARecord {
    fn default() -> (record: Self)
        ensures
            record@ == AAAARecordView::empty(),
    {
        AAAARecord {
            id: None,
            zone_id: None,
            zone_name: None,
            meta: None,
            comment: None,
            content: None,
            name: None,
            proxied: None,
            settings: None,
            tags: None,
            ttl: None,
            modified_on: None,
            comment_modified_on: None,
            tags_modified_on: None,
        }
    }
}

impl ToRecordMessage for AAAARecord {
    open spec fn message(self) -> RecordMessageView {
        RecordMessageView::AAAA(self@)
    }

    fn to_record_message(self) -> (message: RecordMessage) {
        RecordMessage::AAAA(self)
    }
}

impl DnsCommon for AAAARecord {
    open spec fn common(model: AAAARecordView) -> CommonFields {
        CommonFields {
            id: model.id,
            zone_id: model.zone_id,
            zone_name: model.zone_name,
            name: model.name,
        }
    }

    open spec fn with_common(model: AAAARecordView, fields: CommonFields) -> AAAARecordView {
        AAAARecordView {
            id: fields.id,
            zone_id: fields.zone_id,
            zone_name: fields.zone_name,
            name: fields.name,
            ..model
        }
    }

    proof fn common_fields_are_a_lens(model: AAAARecordView, fields: CommonFields, earlier: CommonFields) {
    }

    fn get_id(self) -> (value: Option<String>) {
        self.id
    }

    fn set_id(&mut self, v: Option<String>) {
        self.id = v;
    }

    fn get_zone_id(self) -> (value: Option<String>) {
        self.zone_id
    }

    fn set_zone_id(&mut self, v: Option<String>) {
        self.zone_id = v;
    }

    fn get_zone_name(self) -> (value: Option<String>) {
        self.zone_name
    }

    fn set_zone_name(&mut self, v: Option<String>) {
        self.zone_name = v;
    }

    fn get_name(self) -> (value: Option<String>) {
        self.name
    }

    fn set_name(&mut self, v: Option<String>) {
        self.name = v;
    }
}

/// A canonical-name record: an alias for another name.
/// Every field is optional: an absent field is not specified, which is not
/// the same as empty.
#[derive(Clone, Debug)]
pub struct CNAMERecord {
    pub id: Option<String>,
    pub zone_id: Option<String>,
    pub zone_name: Option<String>,
    pub meta: Option<serde_json::Value>,
    pub comment: Option<String>,
    pub content: Option<String>,
    pub name: Option<String>,
}

/// The value of a `CNAMERecord`.
pub ghost struct CNAMERecordView {
    pub id: Option<Text>,
    pub zone_id: Option<Text>,
    pub zone_name: Option<Text>,
    pub meta: Option<serde_json::Value>,
    pub comment: Option<Text>,
    pub content: Option<Text>,
    pub name: Option<Text>,
}

impl CNAMERecordView {
    /// The record in which no field is specified.
    pub open spec fn empty() -> Self {
        CNAMERecordView {
            id: None,
            zone_id: None,
            zone_name: None,
            meta: None,
            comment: None,
            content: None,
            name: None,
        }
    }
}

impl View for CNAMERecord {
    type V = CNAMERecordView;

    open spec fn view(&self) -> CNAMERecordView {
        CNAMERecordView {
            id: opt_text(self.id),
            zone_id: opt_text(self.zone_id),
            zone_name: opt_text(self.zone_name),
            meta: self.meta,
            comment: opt_text(self.comment),
            content: opt_text(self.content),
            name: opt_text(self.name),
        }
    }
}

impl Default for CNAMERecord {
    fn default() -> (record: Self)
        ensures
            record@ == CNAMERecordView::empty(),
    {
        CNAMERecord {
            id: None,
            zone_id: None,
            zone_name: None,
            meta: None,
            comment: None,
            content: None,
            name: None,
        }
    }
}

impl ToRecordMessage for CNAMERecord {
    open spec fn message(self) -> RecordMessageView {
        RecordMessageView::CNAME(self@)
    }

    fn to_record_message(self) -> (message: RecordMessage) {
        RecordMessage::CNAME(self)
    }
}

impl DnsCommon for CNAMERecord {
    open spec fn common(model: CNAMERecordView) -> CommonFields {
        CommonFields {
            id: model.id,
            zone_id: model.zone_id,
            zone_name: model.zone_name,
            name: model.name,
        }
    }

    open spec fn with_common(model: CNAMERecordView, fields: CommonFields) -> CNAMERecordView {
        CNAMERecordView {
            id: fields.id,
            zone_id: fields.zone_id,
            zone_name: fields.zone_name,
            name: fields.name,
            ..model
        }
    }

    proof fn common_fields_are_a_lens(model: CNAMERecordView, fields: CommonFields, earlier: CommonFields) {
    }

    fn get_id(self) -> (value: Option<String>) {
        self.id
    }

    fn set_id(&mut self, v: Option<String>) {
        self.id = v;
    }

    fn get_zone_id(self) -> (value: Option<String>) {
        self.zone_id
    }

    fn set_zone_id(&mut self, v: Option<String>) {
        self.zone_id = v;
    }

    fn get_zone_name(self) -> (value: Option<String>) {
        self.zone_name
    }

    fn set_zone_name(&mut self, v: Option<String>) {
        self.zone_name = v;
    }

    fn get_name(self) -> (value: Option<String>) {
        self.name
    }

    fn set_name(&mut self, v: Option<String>) {
        self.name = v;
    }
}

/// A mail-exchange record: a mail server for the name, with its priority.
/// Every field is optional: an absent field is not specified, which is not
/// the same as empty.
#[derive(Clone, Debug)]
pub struct MXRecord {
    pub id: Option<String>,
    pub zone_id: Option<String>,
    pub zone_name: Option<String>,
    pub meta: Option<Meta>,
    pub name: Option<String>,
    pub content: Option<String>,
    pub priority: Option<usize>,
    pub proxiable: Option<bool>,
    pub proxied: Option<bool>,
    pub ttl: Option<usize>,
    pub settings: Option<DnsSettings>,
    pub comment: Option<String>,
    pub tags: Option<Vec<String>>,
    pub created_on: Option<String>,
    pub modified_on: Option<String>,
}

/// The value of an `MXRecord`.
pub ghost struct MXRecordView {
    pub id: Option<Text>,
    pub zone_id: Option<Text>,
    pub zone_name: Option<Text>,
    pub meta: Option<Meta>,
    pub name: Option<Text>,
    pub content: Option<Text>,
    pub priority: Option<nat>,
    pub proxiable: Option<bool>,
    pub proxied: Option<bool>,
    pub ttl: Option<nat>,
    pub settings: Option<DnsSettings>,
    pub comment: Option<Text>,
    pub tags: Option<Seq<Text>>,
    pub created_on: Option<Text>,
    pub modified_on: Option<Text>,
}

impl MXRecordView {
    /// The record in which no field is specified.
    pub open spec fn empty() -> Self {
        MXRecordView {
            id: None,
            zone_id: None,
            zone_name: None,
            meta: None,
            name: None,
            content: None,
            priority: None,
            proxiable: None,
            proxied: None,
            ttl: None,
            settings: None,
            comment: None,
            tags: None,
            created_on: None,
            modified_on: None,
        }
    }
}

impl View for MXRecord {
    type V = MXRecordView;

    open spec fn view(&self) -> MXRecordView {
        MXRecordView {
            id: opt_text(self.id),
            zone_id: opt_text(self.zone_id),
            zone_name: opt_text(self.zone_name),
            meta: self.meta,
            name: opt_text(self.name),
            content: opt_text(self.content),
            priority: opt_nat(self.priority),
            proxiable: self.proxiable,
            proxied: self.proxied,
            ttl: opt_nat(self.ttl),
            settings: self.settings,
            comment: opt_text(self.comment),
            tags: opt_texts(self.tags),
            created_on: opt_text(self.created_on),
            modified_on: opt_text(self.modified_on),
        }
    }
}

impl Default for MXRecord {
    fn default() -> (record: Self)
        ensures
            record@ == MXRecordView::empty(),
    {
        MXRecord {
            id: None,
            zone_id: None,
            zone_name: None,
            meta: None,
            name: None,
            content: None,
            priority: None,
            proxiable: None,
            proxied: None,
            ttl: None,
            settings: None,
            comment: None,
            tags: None,
            created_on: None,
            modified_on: None,
        }
    }
}

impl ToRecordMessage for MXRecord {
    open spec fn message(self) -> RecordMessageView {
        RecordMessageView::MX(self@)
    }

    fn to_record_message(self) -> (message: RecordMessage) {
        RecordMessage::MX(self)
    }
}

impl DnsCommon for MXRecord {
    open spec fn common(model: MXRecordView) -> CommonFields {
        CommonFields {
            id: model.id,
            zone_id: model.zone_id,
            zone_name: model.zone_name,
            name: model.name,
        }
    }

    open spec fn with_common(model: MXRecordView, fields: CommonFields) -> MXRecordView {
        MXRecordView {
            id: fields.id,
            zone_id: fields.zone_id,
            zone_name: fields.zone_name,
            name: fields.name,
            ..model
        }
    }

    proof fn common_fields_are_a_lens(model: MXRecordView, fields: CommonFields, earlier: CommonFields) {
    }

    fn get_id(self) -> (value: Option<String>) {
        self.id
    }

    fn set_id(&mut self, v: Option<String>) {
        self.id = v;
    }

    fn get_zone_id(self) -> (value: Option<String>) {
        self.zone_id
    }

    fn set_zone_id(&mut self, v: Option<String>) {
        self.zone_id = v;
    }

    fn get_zone_name(self) -> (value: Option<String>) {
        self.zone_name
    }

    fn set_zone_name(&mut self, v: Option<String>) {
        self.zone_name = v;
    }

    fn get_name(self) -> (value: Option<String>) {
        self.name
    }

    fn set_name(&mut self, v: Option<String>) {
        self.name = v;
    }
}

/// A text record: free text attached to the name.
/// Every field is optional: an absent field is not specified, which is not
/// the same as empty.
#[derive(Clone, Debug)]
pub struct TXTRecord {
    pub id: Option<String>,
    pub zone_id: Option<String>,
    pub zone_name: Option<String>,
    pub name: Option<String>,
    pub content: Option<String>,
    pub proxiable: Option<bool>,
    pub proxied: Option<bool>,
    pub ttl: Option<usize>,
    pub settings: Option<DnsSettings>,
    pub meta: Option<Meta>,
    pub comment: Option<String>,
    pub tags: Option<Vec<String>>,
    pub created_on: Option<String>,
    pub modified_on: Option<String>,
}

/// The value of a `TXTRecord`.
pub ghost struct TXTRecordView {
    pub id: Option<Text>,
    pub zone_id: Option<Text>,
    pub zone_name: Option<Text>,
    pub name: Option<Text>,
    pub content: Option<Text>,
    pub proxiable: Option<bool>,
    pub proxied: Option<bool>,
    pub ttl: Option<nat>,
    pub settings: Option<DnsSettings>,
    pub meta: Option<Meta>,
    pub comment: Option<Text>,
    pub tags: Option<Seq<Text>>,
    pub created_on: Option<Text>,
    pub modified_on: Option<Text>,
}

impl TXTRecordView {
    /// The record in which no field is specified.
    pub open spec fn empty() -> Self {
        TXTRecordView {
            id: None,
            zone_id: None,
            zone_name: None,
            name: None,
            content: None,
            proxiable: None,
            proxied: None,
            ttl: None,
            settings: None,
            meta: None,
            comment: None,
            tags: None,
            created_on: None,
            modified_on: None,
        }
    }
}

impl View for TXTRecord {
    type V = TXTRecordView;

    open spec fn view(&self) -> TXTRecordView {
        TXTRecordView {
            id: opt_text(self.id),
            zone_id: opt_text(self.zone_id),
            zone_name: opt_text(self.zone_name),
            name: opt_text(self.name),
            content: opt_text(self.content),
            proxiable: self.proxiable,
            proxied: self.proxied,
            ttl: opt_nat(self.ttl),
            settings: self.settings,
            meta: self.meta,
            comment: opt_text(self.comment),
            tags: opt_texts(self.tags),
            created_on: opt_text(self.created_on),
            modified_on: opt_text(self.modified_on),
        }
    }
}

impl Default for TXTRecord {
    fn default() -> (record: Self)
        ensures
            record@ == TXTRecordView::empty(),
    {
        TXTRecord {
            id: None,
            zone_id: None,
            zone_name: None,
            name: None,
            content: None,
            proxiable: None,
            proxied: None,
            ttl: None,
            settings: None,
            meta: None,
            comment: None,
            tags: None,
            created_on: None,
            modified_on: None,
        }
    }
}

impl ToRecordMessage for TXTRecord {
    open spec fn message(self) -> RecordMessageView {
        RecordMessageView::TXT(self@)
    }

    fn to_record_message(self) -> (message: RecordMessage) {
        RecordMessage::TXT(self)
    }
}

impl DnsCommon for TXTRecord {
    open spec fn common(model: TXTRecordView) -> CommonFields {
        CommonFields {
            id: model.id,
            zone_id: model.zone_id,
            zone_name: model.zone_name,
            name: model.name,
        }
    }

    open spec fn with_common(model: TXTRecordView, fields: CommonFields) -> TXTRecordView {
        TXTRecordView {
            id: fields.id,
            zone_id: fields.zone_id,
            zone_name: fields.zone_name,
            name: fields.name,
            ..model
        }
    }

    proof fn common_fields_are_a_lens(model: TXTRecordView, fields: CommonFields, earlier: CommonFields) {
    }

    fn get_id(self) -> (value: Option<String>) {
        self.id
    }

    fn set_id(&mut self, v: Option<String>) {
        self.id = v;
    }

    fn get_zone_id(self) -> (value: Option<String>) {
        self.zone_id
    }

    fn set_zone_id(&mut self, v: Option<String>) {
        self.zone_id = v;
    }

    fn get_zone_name(self) -> (value: Option<String>) {
        self.zone_name
    }

    fn set_zone_name(&mut self, v: Option<String>) {
        self.zone_name = v;
    }

    fn get_name(self) -> (value: Option<String>) {
        self.name
    }

    fn set_name(&mut self, v: Option<String>) {
        self.name = v;
    }
}

} // verus!
