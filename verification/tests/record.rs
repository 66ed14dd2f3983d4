use invoice_pdf::record::{
    decode_address, decode_invoice, decode_line, decode_party, AddressRecord, DecodeField,
    InvoiceRecord, LineItemRecord, PartyRecord,
};
use invoice_pdf::CodecError;

fn party(name: &str) -> PartyRecord {
    PartyRecord { name: name.to_string(), phone: None, email: None, address: None }
}

fn line(sku: &str, quantity: i32, price: &str) -> LineItemRecord {
    LineItemRecord {
        sku: sku.to_string(),
        title: format!("Item {}", sku),
        quantity,
        price: price.to_string(),
    }
}

fn record() -> InvoiceRecord {
    InvoiceRecord {
        id: "inv-1".to_string(),
        created_datetime: "2026-02-09T12:00:00+00:00".to_string(),
        net_due_datetime: "2026-03-11T12:00:00+00:00".to_string(),
        receiver: party("Receiver"),
        sender: party("Sender"),
        logo: Some("./logo.png".to_string()),
        line_items: vec![line("A", 1, "10.00"), line("B", 3, "2.50")],
        paid: "5.00".to_string(),
        acct_id: None,
        purchase_order: Some("PO-3".to_string()),
    }
}

#[test]
fn record_decodes_to_an_invoice_with_totals() {
    let inv = decode_invoice(&record()).unwrap();
    assert_eq!(inv.id(), "inv-1");
    assert_eq!(inv.created_datetime().to_rfc3339(), "2026-02-09T12:00:00+00:00");
    assert_eq!(inv.net_due_datetime().to_rfc3339(), "2026-03-11T12:00:00+00:00");
    assert_eq!(inv.receiver().name(), "Receiver");
    assert_eq!(inv.sender().name(), "Sender");
    assert_eq!(inv.logo().as_deref(), Some("./logo.png"));
    assert!(inv.acct_id().is_none());
    assert_eq!(inv.purchase_order().as_deref(), Some("PO-3"));
    assert_eq!(inv.line_items().len(), 2);
    assert_eq!(&inv.line_items()[0].sku(), "A");
    assert_eq!(inv.line_items()[1].quantity(), 3);
    assert_eq!(inv.line_items()[1].total().to_text(), "7.50");
    assert_eq!(inv.paid().to_text(), "5.00");
    assert_eq!(inv.total().to_text(), "17.50");
    assert_eq!(inv.net_due().to_text(), "12.50");
}

#[test]
fn record_without_lines_decodes_to_zero_totals() {
    let mut r = record();
    r.line_items.clear();
    r.paid = "0".to_string();
    let inv = decode_invoice(&r).unwrap();
    assert_eq!(inv.total().to_text(), "0");
    assert_eq!(inv.net_due().to_text(), "0");
}

#[test]
fn unreadable_texts_fail_the_decoding_in_declared_order() {
    let mut r = record();
    r.created_datetime = "yesterday".to_string();
    r.net_due_datetime = "tomorrow".to_string();
    r.line_items[1].price = "cheap".to_string();
    r.paid = "nothing".to_string();

    let e = decode_invoice(&r).unwrap_err();
    assert_eq!(e.field, DecodeField::CreatedDatetime);
    assert!(matches!(e.cause, CodecError::MalformedTimestamp(ref raw) if raw == "yesterday"));

    r.created_datetime = "2026-02-09T12:00:00Z".to_string();
    let e = decode_invoice(&r).unwrap_err();
    assert_eq!(e.field, DecodeField::NetDueDatetime);
    assert!(matches!(e.cause, CodecError::MalformedTimestamp(ref raw) if raw == "tomorrow"));

    r.net_due_datetime = "2026-03-11T12:00:00Z".to_string();
    let e = decode_invoice(&r).unwrap_err();
    assert_eq!(e.field, DecodeField::LinePrice(1));
    assert!(matches!(e.cause, CodecError::MalformedNumber(ref raw) if raw == "cheap"));

    r.line_items[0].price = "".to_string();
    let e = decode_invoice(&r).unwrap_err();
    assert_eq!(e.field, DecodeField::LinePrice(0));
    assert_eq!(e.cause.offending_text(), "");

    r.line_items[0].price = "1".to_string();
    r.line_items[1].price = "2".to_string();
    let e = decode_invoice(&r).unwrap_err();
    assert_eq!(e.field, DecodeField::Paid);
    assert!(matches!(e.cause, CodecError::MalformedNumber(ref raw) if raw == "nothing"));

    r.paid = "0.5".to_string();
    let inv = decode_invoice(&r).unwrap();
    assert_eq!(inv.net_due().to_text(), "6.5");
}

#[test]
fn line_record_decodes_with_its_total() {
    let item = decode_line(&line("A", 2, "9.50")).unwrap();
    assert_eq!(&item.sku(), "A");
    assert_eq!(&item.title(), "Item A");
    assert_eq!(item.quantity(), 2);
    assert_eq!(item.price().to_text(), "9.50");
    assert_eq!(item.total().to_text(), "19.00");
    let e = decode_line(&line("A", 2, "9,50")).unwrap_err();
    assert!(matches!(e, CodecError::MalformedNumber(ref raw) if raw == "9,50"));
}

#[test]
fn party_and_address_records_decode_field_by_field() {
    let address = AddressRecord {
        line1: "1 street st".to_string(),
        line2: Some("Suite 2".to_string()),
        city: "City".to_string(),
        province_code: "PR".to_string(),
        postal_code: "POST".to_string(),
    };
    let decoded = decode_address(&address);
    assert_eq!(decoded.line1(), "1 street st");
    assert_eq!(decoded.line2().as_deref(), Some("Suite 2"));
    assert_eq!(decoded.city(), "City");
    assert_eq!(decoded.province_code(), "PR");
    assert_eq!(decoded.postal_code(), "POST");

    let record = PartyRecord {
        name: "Alice".to_string(),
        phone: Some("555-0100".to_string()),
        email: None,
        address: Some(address),
    };
    let decoded = decode_party(&record);
    assert_eq!(decoded.name(), "Alice");
    assert_eq!(decoded.phone().as_deref(), Some("555-0100"));
    assert!(decoded.email().is_none());
    assert_eq!(decoded.address().as_ref().unwrap().city(), "City");

    let bare = decode_party(&party("Bob"));
    assert!(bare.address().is_none());
    assert!(bare.phone().is_none());
}
