//! DNS records: five record types, the union that joins them, and what all of
//! them have in common.

pub mod address;
pub mod dns_settings;
pub mod record;

use vstd::prelude::*;

use crate::text::{opt_text, Text};
use address::{IpAddr, Ipv4Addr, Ipv6Addr};
use record::{
    AAAARecord, AAAARecordView, ARecord, ARecordView, CNAMERecord, CNAMERecordView, MXRecord,
    MXRecordView, Meta, TXTRecord, TXTRecordView,
};

verus! {

/// Why a content value was refused.
pub struct ContentError(pub String);

/// A record whose content is an address.
pub trait DnsIpContent {
    fn get_content(self) -> IpAddr;

    fn set_content(&mut self, addr: IpAddr) -> Result<(), ContentError>;
}

/// The content of a record, by its form.
pub enum RecordContent {
    Ipv4(Ipv4Addr),
    Ipv6(Ipv6Addr),
    Text(String),
}

/// A DNS record of any of the five types. Exactly one variant is active; on
/// the wire its name travels in the field `type`, beside the record's own
/// fields.
#[derive(Clone, Debug)]
pub enum RecordMessage {
    A(ARecord),
    AAAA(AAAARecord),
    CNAME(CNAMERecord),
    MX(MXRecord),
    TXT(TXTRecord),
}

/// The value of a `RecordMessage`.
pub ghost enum RecordMessageView {
    A(ARecordView),
    AAAA(AAAARecordView),
    CNAME(CNAMERecordView),
    MX(MXRecordView),
    TXT(TXTRecordView),
}

/// Which variant of the union is active.
pub ghost enum RecordKind {
    A,
    AAAA,
    CNAME,
    MX,
    TXT,
}

impl View for RecordMessage {
    type V = RecordMessageView;

    open spec fn view(&self) -> RecordMessageView {
        match *self {
            RecordMessage::A(r) => RecordMessageView::A(r@),
            RecordMessage::AAAA(r) => RecordMessageView::AAAA(r@),
            RecordMessage::CNAME(r) => RecordMessageView::CNAME(r@),
            RecordMessage::MX(r) => RecordMessageView::MX(r@),
            RecordMessage::TXT(r) => RecordMessageView::TXT(r@),
        }
    }
}

/// The four fields that every record type has: the record's identifier, the
/// identifier and the name of its zone, and the record's own name.
pub ghost struct CommonFields {
    pub id: Option<Text>,
    pub zone_id: Option<Text>,
    pub zone_name: Option<Text>,
    pub name: Option<Text>,
}

/// Uniform access to the fields that every record type has.
///
/// The value of a record splits into its common fields and the rest.
/// `common` reads the first part and `with_common` replaces it, leaving the
/// rest as it was. A getter returns one of the common fields; a setter
/// replaces that one field and nothing else.
pub trait DnsCommon: View + Sized {
    /// The common fields of a record.
    spec fn common(model: Self::V) -> CommonFields;

    /// The record with its common fields replaced by `fields`.
    spec fn with_common(model: Self::V, fields: CommonFields) -> Self::V;

    /// What is written is what is read; writing back what was read changes
    /// nothing; of two writes the later one counts.
    proof fn common_fields_are_a_lens(model: Self::V, fields: CommonFields, earlier: CommonFields)
        ensures
            Self::common(Self::with_common(model, fields)) == fields,
            Self::with_common(model, Self::common(model)) == model,
            Self::with_common(Self::with_common(model, earlier), fields) == Self::with_common(
                model,
                fields,
            ),
    ;

    fn get_id(self) -> (value: Option<String>)
        ensures
            opt_text(value) == Self::common(self@).id,
    ;

    fn set_id(&mut self, v: Option<String>)
        ensures
            final(self)@ == Self::with_common(
                old(self)@,
                (CommonFields { id: opt_text(v), ..Self::common(old(self)@) }),
            ),
    ;

    fn get_zone_id(self) -> (value: Option<String>)
        ensures
            opt_text(value) == Self::common(self@).zone_id,
    ;

    fn set_zone_id(&mut self, v: Option<String>)
        ensures
            final(self)@ == Self::with_common(
                old(self)@,
                (CommonFields { zone_id: opt_text(v), ..Self::common(old(self)@) }),
            ),
    ;

    fn get_zone_name(self) -> (value: Option<String>)
        ensures
            opt_text(value) == Self::common(self@).zone_name,
    ;

    fn set_zone_name(&mut self, v: Option<String>)
        ensures
            final(self)@ == Self::with_common(
                old(self)@,
                (CommonFields { zone_name: opt_text(v), ..Self::common(old(self)@) }),
            ),
    ;

    fn get_name(self) -> (value: Option<String>)
        ensures
            opt_text(value) == Self::common(self@).name,
    ;

    fn set_name(&mut self, v: Option<String>)
        ensures
            final(self)@ == Self::with_common(
                old(self)@,
                (CommonFields { name: opt_text(v), ..Self::common(old(self)@) }),
            ),
    ;
}

/// Anything that can stand as a record of the union.
pub trait ToRecordMessage: Sized {
    /// The record that this value stands for.
    spec fn message(self) -> RecordMessageView;

    fn to_record_message(self) -> (message: RecordMessage)
        ensures
            message@ == self.message(),
    ;
}

impl ToRecordMessage for RecordMessage {
    open spec fn message(self) -> RecordMessageView {
        self@
    }

    fn to_record_message(self) -> (message: RecordMessage) {
        self
    }
}

impl RecordMessageView {
    /// The active variant.
    pub open spec fn kind(self) -> RecordKind {
        match self {
            RecordMessageView::A(_) => RecordKind::A,
            RecordMessageView::AAAA(_) => RecordKind::AAAA,
            RecordMessageView::CNAME(_) => RecordKind::CNAME,
            RecordMessageView::MX(_) => RecordKind::MX,
            RecordMessageView::TXT(_) => RecordKind::TXT,
        }
    }

    /// The fields that every variant has.
    pub open spec fn common(self) -> CommonFields {
        RecordMessage::common(self)
    }

    pub open spec fn with_id(self, value: Option<Text>) -> Self {
        RecordMessage::with_common(self, CommonFields { id: value, ..self.common() })
    }

    pub open spec fn with_zone_id(self, value: Option<Text>) -> Self {
        RecordMessage::with_common(self, CommonFields { zone_id: value, ..self.common() })
    }

    pub open spec fn with_zone_name(self, value: Option<Text>) -> Self {
        RecordMessage::with_common(self, CommonFields { zone_name: value, ..self.common() })
    }

    pub open spec fn with_name(self, value: Option<Text>) -> Self {
        RecordMessage::with_common(self, CommonFields { name: value, ..self.common() })
    }

    /// The server's annotation, if the record carries one.
    pub open spec fn meta(self) -> Option<serde_json::Value> {
        match self {
            RecordMessageView::A(r) => r.meta,
            RecordMessageView::AAAA(r) => r.meta,
            RecordMessageView::CNAME(r) => r.meta,
            RecordMessageView::MX(r) => match r.meta {
                Some(m) => Some(m.0),
                None => None,
            },
            RecordMessageView::TXT(r) => match r.meta {
                Some(m) => Some(m.0),
                None => None,
            },
        }
    }

    /// The record with its annotation replaced by `meta`.
    pub open spec fn with_meta(self, meta: Option<serde_json::Value>) -> Self {
        let wrapped = match meta {
            Some(value) => Some(Meta(value)),
            None => None,
        };
        match self {
            RecordMessageView::A(r) => RecordMessageView::A(ARecordView { meta, ..r }),
            RecordMessageView::AAAA(r) => RecordMessageView::AAAA(AAAARecordView { meta, ..r }),
            RecordMessageView::CNAME(r) => RecordMessageView::CNAME(CNAMERecordView { meta, ..r }),
            RecordMessageView::MX(r) => RecordMessageView::MX(MXRecordView { meta: wrapped, ..r }),
            RecordMessageView::TXT(r) => RecordMessageView::TXT(
                TXTRecordView { meta: wrapped, ..r },
            ),
        }
    }

    /// The record as it is sent back in a write: the fields that the server
    /// owns (`id`, `zone_id`, `zone_name`, `meta`) absent, all else as it was.
    pub open spec fn for_update(self) -> Self {
        self.with_id(None).with_zone_id(None).with_zone_name(None).with_meta(None)
    }
}

impl DnsCommon for RecordMessage {
    open spec fn common(model: RecordMessageView) -> CommonFields {
        match model {
            RecordMessageView::A(r) => ARecord::common(r),
            RecordMessageView::AAAA(r) => AAAARecord::common(r),
            RecordMessageView::CNAME(r) => CNAMERecord::common(r),
            RecordMessageView::MX(r) => MXRecord::common(r),
            RecordMessageView::TXT(r) => TXTRecord::common(r),
        }
    }

    open spec fn with_common(model: RecordMessageView, fields: CommonFields) -> RecordMessageView {
        match model {
            RecordMessageView::A(r) => RecordMessageView::A(ARecord::with_common(r, fields)),
            RecordMessageView::AAAA(r) => RecordMessageView::AAAA(
                AAAARecord::with_common(r, fields),
            ),
            RecordMessageView::CNAME(r) => RecordMessageView::CNAME(
                CNAMERecord::with_common(r, fields),
            ),
            RecordMessageView::MX(r) => RecordMessageView::MX(MXRecord::with_common(r, fields)),
            RecordMessageView::TXT(r) => RecordMessageView::TXT(TXTRecord::with_common(r, fields)),
        }
    }

    proof fn common_fields_are_a_lens(
        model: RecordMessageView,
        fields: CommonFields,
        earlier: CommonFields,
    ) {
    }

    fn get_id(self) -> (value: Option<String>) {
        match self {
            RecordMessage::A(r) => r.get_id(),
            RecordMessage::AAAA(r) => r.get_id(),
            RecordMessage::CNAME(r) => r.get_id(),
            RecordMessage::MX(r) => r.get_id(),
            RecordMessage::TXT(r) => r.get_id(),
        }
    }

    fn set_id(&mut self, v: Option<String>) {
        match self {
            RecordMessage::A(r) => r.set_id(v),
            RecordMessage::AAAA(r) => r.set_id(v),
            RecordMessage::CNAME(r) => r.set_id(v),
            RecordMessage::MX(r) => r.set_id(v),
            RecordMessage::TXT(r) => r.set_id(v),
        }
    }

    fn get_zone_id(self) -> (value: Option<String>) {
        match self {
            RecordMessage::A(r) => r.get_zone_id(),
            RecordMessage::AAAA(r) => r.get_zone_id(),
            RecordMessage::CNAME(r) => r.get_zone_id(),
            RecordMessage::MX(r) => r.get_zone_id(),
            RecordMessage::TXT(r) => r.get_zone_id(),
        }
    }

    fn set_zone_id(&mut self, v: Option<String>) {
        match self {
            RecordMessage::A(r) => r.set_zone_id(v),
            RecordMessage::AAAA(r) => r.set_zone_id(v),
            RecordMessage::CNAME(r) => r.set_zone_id(v),
            RecordMessage::MX(r) => r.set_zone_id(v),
            RecordMessage::TXT(r) => r.set_zone_id(v),
        }
    }

    fn get_zone_name(self) -> (value: Option<String>) {
        match self {
            RecordMessage::A(r) => r.get_zone_name(),
            RecordMessage::AAAA(r) => r.get_zone_name(),
            RecordMessage::CNAME(r) => r.get_zone_name(),
            RecordMessage::MX(r) => r.get_zone_name(),
            RecordMessage::TXT(r) => r.get_zone_name(),
        }
    }

    fn set_zone_name(&mut self, v: Option<String>) {
        match self {
            RecordMessage::A(r) => r.set_zone_name(v),
            RecordMessage::AAAA(r) => r.set_zone_name(v),
            RecordMessage::CNAME(r) => r.set_zone_name(v),
            RecordMessage::MX(r) => r.set_zone_name(v),
            RecordMessage::TXT(r) => r.set_zone_name(v),
        }
    }

    fn get_name(self) -> (value: Option<String>) {
        match self {
            RecordMessage::A(r) => r.get_name(),
            RecordMessage::AAAA(r) => r.get_name(),
            RecordMessage::CNAME(r) => r.get_name(),
            RecordMessage::MX(r) => r.get_name(),
            RecordMessage::TXT(r) => r.get_name(),
        }
    }

    fn set_name(&mut self, v: Option<String>) {
        match self {
            RecordMessage::A(r) => r.set_name(v),
            RecordMessage::AAAA(r) => r.set_name(v),
            RecordMessage::CNAME(r) => r.set_name(v),
            RecordMessage::MX(r) => r.set_name(v),
            RecordMessage::TXT(r) => r.set_name(v),
        }
    }
}

impl RecordMessage {
    /// Prepares the record for a write: the server-owned fields are dropped
    /// and everything else is kept. The variant stays the same.
    pub fn for_update(self) -> (stripped: Self)
        ensures
            stripped@ == self@.for_update(),
    {
        match self {
            RecordMessage::A(r) => {
                let mut rm = r;
                rm.id = None;
                rm.zone_id = None;
                rm.zone_name = None;
                rm.meta = None;
                RecordMessage::A(rm)
            },
            RecordMessage::AAAA(r) => {
                let mut rm = r;
                rm.id = None;
                rm.zone_id = None;
                rm.zone_name = None;
                rm.meta = None;
                RecordMessage::AAAA(rm)
            },
            RecordMessage::CNAME(r) => {
                let mut rm = r;
                rm.id = None;
                rm.zone_id = None;
                rm.zone_name = None;
                rm.meta = None;
                RecordMessage::CNAME(rm)
            },
            RecordMessage::MX(r) => {
                let mut rm = r;
                rm.id = None;
                rm.zone_id = None;
                rm.zone_name = None;
                rm.meta = None;
                RecordMessage::MX(rm)
            },
            RecordMessage::TXT(r) => {
                let mut rm = r;
                rm.id = None;
                rm.zone_id = None;
                rm.zone_name = None;
                rm.meta = None;
                RecordMessage::TXT(rm)
            },
        }
    }
}

/// Reading a common field of a record after writing it gives back what was
/// written, whichever variant is active, and writing never changes which
/// variant that is.
pub proof fn common_field_reads_back(message: RecordMessageView, value: Option<Text>)
    ensures
        message.with_id(value).common().id == value,
        message.with_zone_id(value).common().zone_id == value,
        message.with_zone_name(value).common().zone_name == value,
        message.with_name(value).common().name == value,
        message.with_id(value).kind() == message.kind(),
        message.with_zone_id(value).kind() == message.kind(),
        message.with_zone_name(value).kind() == message.kind(),
        message.with_name(value).kind() == message.kind(),
{
}

/// After `for_update` the four server-owned fields are absent, the variant
/// is the same, and nothing else was touched: putting the four fields back
/// gives the record as it was.
pub proof fn for_update_strips_server_fields(message: RecordMessageView)
    ensures
        message.for_update().common().id is None,
        message.for_update().common().zone_id is None,
        message.for_update().common().zone_name is None,
        message.for_update().meta() is None,
        message.for_update().kind() == message.kind(),
        message.for_update().common().name == message.common().name,
        message.for_update().with_id(message.common().id).with_zone_id(
            message.common().zone_id,
        ).with_zone_name(message.common().zone_name).with_meta(message.meta()) == message,
{
}

/// Applying `for_update` twice gives what applying it once gives.
pub proof fn for_update_is_idempotent(message: RecordMessageView)
    ensures
        message.for_update().for_update() == message.for_update(),
{
}

} // verus!
