//! Invoices as they arrive in the exchange format.
//!
//! A record mirrors an entity field by field, with amounts and timestamps
//! still in their text form. Decoding reads those texts and builds the
//! entity; a text that cannot be read fails the decoding and says which
//! field held it. Nothing is replaced by a default.

use crate::codec::CodecError;
use crate::decimal::Decimal;
use crate::invoice::{
    line_views, sum_totals, Invoice, InvoiceBuilder, InvoiceView, LineItem, LineItemBuilder,
    LineItemView,
};
use crate::party::{
    opt_text, Address, AddressBuilder, AddressView, Party, PartyBuilder, PartyView,
};
use crate::timestamp::Timestamp;
use vstd::pervasive::unreached;
use vstd::prelude::*;

verus! {

/// A postal address in the exchange format.
#[derive(Debug)]
pub struct AddressRecord {
    pub line1: String,
    pub line2: Option<String>,
    pub city: String,
    pub province_code: String,
    pub postal_code: String,
}

/// A party in the exchange format.
#[derive(Debug)]
pub struct PartyRecord {
    pub name: String,
    pub phone: Option<String>,
    pub email: Option<String>,
    pub address: Option<AddressRecord>,
}

/// A line item in the exchange format; the price is a decimal text.
#[derive(Debug)]
pub struct LineItemRecord {
    pub sku: String,
    pub title: String,
    pub quantity: i32,
    pub price: String,
}

/// An invoice in the exchange format; the amount paid is a decimal text and
/// the two timestamps are RFC 3339 texts.
#[derive(Debug)]
pub struct InvoiceRecord {
    pub id: String,
    pub created_datetime: String,
    pub net_due_datetime: String,
    pub receiver: PartyRecord,
    pub sender: PartyRecord,
    pub logo: Option<String>,
    pub line_items: Vec<LineItemRecord>,
    pub paid: String,
    pub acct_id: Option<String>,
    pub purchase_order: Option<String>,
}

/// The field of an invoice record whose text could not be read.
#[derive(Debug, Clone, Copy, PartialEq, Eq, Structural)]
pub enum DecodeField {
    /// `created_datetime` of the invoice.
    CreatedDatetime,
    /// `net_due_datetime` of the invoice.
    NetDueDatetime,
    /// `price` of the line item at this position, counted from zero.
    LinePrice(usize),
    /// `paid` of the invoice.
    Paid,
}

/// Why an invoice record could not be decoded: the field, and what was wrong
/// with its text.
#[derive(Debug)]
pub struct DecodeError {
    pub field: DecodeField,
    pub cause: CodecError,
}

impl AddressRecord {
    /// The address that the record describes.
    pub open spec fn decoded(self) -> AddressView {
        AddressView {
            line1: self.line1@,
            line2: opt_text(self.line2),
            city: self.city@,
            province_code: self.province_code@,
            postal_code: self.postal_code@,
        }
    }
}

/// The address that an optional record describes.
pub open spec fn opt_decoded_address(o: Option<AddressRecord>) -> Option<AddressView> {
    match o {
        Some(record) => Some(record.decoded()),
        None => None,
    }
}

impl PartyRecord {
    /// The party that the record describes.
    pub open spec fn decoded(self) -> PartyView {
        PartyView {
            name: self.name@,
            phone: opt_text(self.phone),
            email: opt_text(self.email),
            address: opt_decoded_address(self.address),
        }
    }
}

impl LineItemRecord {
    /// Whether the record can be decoded: its price is an amount.
    pub open spec fn decodes(self) -> bool {
        Decimal::parses(self.price@)
    }

    /// The line item that a decodable record describes.
    pub open spec fn decoded(self) -> LineItemView {
        LineItemView {
            sku: self.sku@,
            title: self.title@,
            quantity: self.quantity as int,
            price: Decimal::parsed(self.price@),
            total: Decimal::parsed(self.price@).times(self.quantity as int),
        }
    }
}

/// The line items that decodable records describe, in order.
pub open spec fn decoded_lines(records: Seq<LineItemRecord>) -> Seq<LineItemView> {
    records.map_values(|record: LineItemRecord| record.decoded())
}

/// The position of the first record among the first `n` whose price cannot
/// be read, if there is one.
pub open spec fn first_bad_line(records: Seq<LineItemRecord>, n: int) -> Option<int>
    decreases n,
{
    if n <= 0 {
        None
    } else {
        match first_bad_line(records, n - 1) {
            Some(i) => Some(i),
            None => if records[n - 1].decodes() {
                None
            } else {
                Some(n - 1)
            },
        }
    }
}

impl InvoiceRecord {
    /// The first field, in declared order, whose text cannot be read, if
    /// there is one.
    pub open spec fn first_failure(self) -> Option<DecodeField> {
        if !Timestamp::parses(self.created_datetime@) {
            Some(DecodeField::CreatedDatetime)
        } else if !Timestamp::parses(self.net_due_datetime@) {
            Some(DecodeField::NetDueDatetime)
        } else if first_bad_line(self.line_items@, self.line_items@.len() as int) is Some {
            Some(
                DecodeField::LinePrice(
                    first_bad_line(
                        self.line_items@,
                        self.line_items@.len() as int,
                    )->Some_0 as usize,
                ),
            )
        } else if !Decimal::parses(self.paid@) {
            Some(DecodeField::Paid)
        } else {
            None
        }
    }

    /// The text of `field` in this record.
    pub open spec fn text_of(self, field: DecodeField) -> Seq<char> {
        match field {
            DecodeField::CreatedDatetime => self.created_datetime@,
            DecodeField::NetDueDatetime => self.net_due_datetime@,
            DecodeField::LinePrice(i) => self.line_items@[i as int].price@,
            DecodeField::Paid => self.paid@,
        }
    }

    /// The invoice that a decodable record describes.
    pub open spec fn decoded(self) -> InvoiceView {
        let lines = decoded_lines(self.line_items@);
        let paid = Decimal::parsed(self.paid@);
        InvoiceView {
            id: self.id@,
            created_datetime: Timestamp::parsed(self.created_datetime@),
            net_due_datetime: Timestamp::parsed(self.net_due_datetime@),
            receiver: self.receiver.decoded(),
            sender: self.sender.decoded(),
            logo: opt_text(self.logo),
            line_items: lines,
            paid,
            total: sum_totals(lines),
            due: sum_totals(lines).minus(paid),
            acct_id: opt_text(self.acct_id),
            purchase_order: opt_text(self.purchase_order),
        }
    }
}

/// Builds the address that `record` describes.
pub fn decode_address(record: &AddressRecord) -> (r: Address)
    ensures
        r@ == record.decoded(),
{
    let mut builder = AddressBuilder::default().line1(record.line1.as_str()).city(
        record.city.as_str(),
    ).province_code(record.province_code.as_str()).postal_code(record.postal_code.as_str());
    if let Some(line2) = &record.line2 {
        builder = builder.line2(line2.as_str());
    }
    match builder.build() {
        Ok(address) => address,
        Err(_) => unreached(),
    }
}

/// Builds the party that `record` describes.
pub fn decode_party(record: &PartyRecord) -> (r: Party)
    ensures
        r@ == record.decoded(),
{
    let mut builder = PartyBuilder::default().name(record.name.as_str());
    if let Some(phone) = &record.phone {
        builder = builder.phone(phone.as_str());
    }
    if let Some(email) = &record.email {
        builder = builder.email(email.as_str());
    }
    if let Some(address) = &record.address {
        builder = builder.address(decode_address(address));
    }
    match builder.build() {
        Ok(party) => party,
        Err(_) => unreached(),
    }
}

/// Builds the line item that `record` describes. It fails with
/// `MalformedNumber` and the text of the price where that is no amount.
pub fn decode_line(record: &LineItemRecord) -> (r: Result<LineItem, CodecError>)
    ensures
        r is Ok <==> record.decodes(),
        r matches Ok(item) ==> item@ == record.decoded(),
        r matches Err(e) ==> e is MalformedNumber && e.raw() == record.price@,
{
    let price = match Decimal::parse(record.price.as_str()) {
        Ok(price) => price,
        Err(e) => {
            return Err(e);
        },
    };
    let builder = LineItemBuilder::default().sku(record.sku.as_str()).title(
        record.title.as_str(),
    ).quantity(record.quantity).price(price);
    match builder.build() {
        Ok(item) => Ok(item),
        Err(_) => unreached(),
    }
}

/// Builds the invoice that `record` describes, with its totals derived.
///
/// The texts are read in declared order: the two timestamps, the price of
/// each line item, the amount paid. The first that cannot be read fails the
/// decoding, with its field and its text.
pub fn decode_invoice(record: &InvoiceRecord) -> (r: Result<Invoice, DecodeError>)
    ensures
        r is Ok <==> record.first_failure() is None,
        r matches Ok(invoice) ==> invoice@ == record.decoded() && invoice@.consistent(),
        r matches Err(e) ==> {
            &&& record.first_failure() == Some(e.field)
            &&& e.cause.raw() == record.text_of(e.field)
            &&& e.field is Paid || e.field is LinePrice ==> e.cause is MalformedNumber
            &&& e.field is CreatedDatetime || e.field is NetDueDatetime
                ==> e.cause is MalformedTimestamp
        },
{
    let created = match Timestamp::parse_rfc3339(record.created_datetime.as_str()) {
        Ok(t) => t,
        Err(cause) => {
            return Err(DecodeError { field: DecodeField::CreatedDatetime, cause });
        },
    };
    let net_due = match Timestamp::parse_rfc3339(record.net_due_datetime.as_str()) {
        Ok(t) => t,
        Err(cause) => {
            return Err(DecodeError { field: DecodeField::NetDueDatetime, cause });
        },
    };
    let mut lines: Vec<LineItem> = Vec::new();
    let mut i: usize = 0;
    while i < record.line_items.len()
        invariant
            i <= record.line_items.len(),
            Timestamp::parses(record.created_datetime@),
            Timestamp::parses(record.net_due_datetime@),
            created@ == Timestamp::parsed(record.created_datetime@),
            net_due@ == Timestamp::parsed(record.net_due_datetime@),
            first_bad_line(record.line_items@, i as int) is None,
            line_views(lines@) =~= decoded_lines(record.line_items@.take(i as int)),
        decreases record.line_items.len() - i,
    {
        match decode_line(&record.line_items[i]) {
            Ok(item) => {
                proof {
                    assert(line_views(lines@.push(item)) =~= line_views(lines@).push(item@));
                    assert(decoded_lines(record.line_items@.take(i + 1)) =~= decoded_lines(
                        record.line_items@.take(i as int),
                    ).push(record.line_items@[i as int].decoded()));
                }
                lines.push(item);
            },
            Err(cause) => {
                proof {
                    lemma_first_bad_line_found(record.line_items@, i as int);
                }
                return Err(DecodeError { field: DecodeField::LinePrice(i), cause });
            },
        }
        i += 1;
    }
    proof {
        assert(record.line_items@.take(i as int) =~= record.line_items@);
    }
    let paid = match Decimal::parse(record.paid.as_str()) {
        Ok(paid) => paid,
        Err(cause) => {
            return Err(DecodeError { field: DecodeField::Paid, cause });
        },
    };
    let mut builder = InvoiceBuilder::default().id(record.id.as_str()).created_datetime(
        created,
    ).net_due_datetime(net_due).receiver(decode_party(&record.receiver)).sender(
        decode_party(&record.sender),
    ).line_items(lines).paid(paid);
    if let Some(logo) = &record.logo {
        builder = builder.logo(logo.as_str());
    }
    if let Some(acct_id) = &record.acct_id {
        builder = builder.acct_id(acct_id.as_str());
    }
    if let Some(purchase_order) = &record.purchase_order {
        builder = builder.purchase_order(purchase_order.as_str());
    }
    match builder.build_at(created) {
        Ok(invoice) => Ok(invoice),
        Err(_) => unreached(),
    }
}

/// Once a record is found whose price cannot be read, with none before it,
/// it stays the first however many records follow.
proof fn lemma_first_bad_line_found(records: Seq<LineItemRecord>, i: int)
    requires
        0 <= i < records.len(),
        first_bad_line(records, i) is None,
        !records[i].decodes(),
    ensures
        first_bad_line(records, records.len() as int) == Some(i),
{
    lemma_first_bad_line_stays(records, i, records.len() as int);
}

proof fn lemma_first_bad_line_stays(records: Seq<LineItemRecord>, i: int, n: int)
    requires
        0 <= i < n <= records.len(),
        first_bad_line(records, i) is None,
        !records[i].decodes(),
    ensures
        first_bad_line(records, n) == Some(i),
    decreases n,
{
    if n > i + 1 {
        lemma_first_bad_line_stays(records, i, n - 1);
    }
}

/// What a decoding failure names is the earliest unreadable price: every
/// line item before it can be decoded.
pub proof fn law_first_bad_line_is_earliest(records: Seq<LineItemRecord>, n: int)
    requires
        0 <= n <= records.len(),
    ensures
        match first_bad_line(records, n) {
            Some(i) => 0 <= i < n && !records[i].decodes() && forall|j: int|
                0 <= j < i ==> (#[trigger] records[j]).decodes(),
            None => forall|j: int| 0 <= j < n ==> (#[trigger] records[j]).decodes(),
        },
    decreases n,
{
    if n > 0 {
        law_first_bad_line_is_earliest(records, n - 1);
    }
}

} // verus!
