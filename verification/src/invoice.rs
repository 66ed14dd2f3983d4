//! Line items and invoices, their builders and their derived totals.
//!
//! The totals are computed once, when an entity is built, and never again:
//! `total = quantity * price` for a line item, and for an invoice the sum of
//! the line totals and what remains due after the amount paid.

use crate::decimal::{
    law_minus_exact, law_plus_exact, law_times_exact, pow10, Decimal, DecimalView,
};
use crate::party::{opt_text, PartyView};
pub use crate::party::{Address, AddressBuilder, BuildError, Party, PartyBuilder};
use crate::timestamp::{Timestamp, TimestampView};
use vstd::prelude::*;

verus! {

/// The mathematical value of a [`LineItem`].
pub struct LineItemView {
    pub sku: Seq<char>,
    pub title: Seq<char>,
    pub quantity: int,
    pub price: DecimalView,
    pub total: DecimalView,
}

impl LineItemView {
    /// The total is the price taken `quantity` times.
    pub open spec fn consistent(self) -> bool {
        self.total == self.price.times(self.quantity)
    }
}

/// One line of an invoice: a quantity of some article at a unit price.
/// Immutable once built; the total is fixed at construction.
#[derive(Debug)]
pub struct LineItem {
    sku: String,
    title: String,
    quantity: i32,
    price: Decimal,
    total: Decimal,
}

impl View for LineItem {
    type V = LineItemView;

    closed spec fn view(&self) -> LineItemView {
        LineItemView {
            sku: self.sku@,
            title: self.title@,
            quantity: self.quantity as int,
            price: self.price@,
            total: self.total@,
        }
    }
}

impl LineItem {
    #[verifier::type_invariant]
    spec fn total_is_frozen(self) -> bool {
        self@.consistent()
    }

    /// Unit price.
    pub fn price(&self) -> (r: &Decimal)
        ensures
            r@ == self@.price,
    {
        &self.price
    }

    /// Quantity; may be zero or negative.
    pub fn quantity(&self) -> (r: i32)
        ensures
            r == self@.quantity,
    {
        self.quantity
    }

    /// Title.
    pub fn title(&self) -> (r: String)
        ensures
            r@ == self@.title,
    {
        self.title.clone()
    }

    /// Stock keeping unit.
    pub fn sku(&self) -> (r: String)
        ensures
            r@ == self@.sku,
    {
        self.sku.clone()
    }

    /// The total of the line: `quantity * price`, as computed when the item
    /// was built.
    pub fn total(&self) -> (r: &Decimal)
        ensures
            r@ == self@.total,
            r@ == self@.price.times(self@.quantity),
    {
        proof {
            use_type_invariant(self);
        }
        &self.total
    }
}

/// The view of an optional amount.
pub open spec fn opt_decimal(o: Option<Decimal>) -> Option<DecimalView> {
    match o {
        Some(d) => Some(d@),
        None => None,
    }
}

/// What a [`LineItemBuilder`] has been given so far.
pub struct LineItemBuilderView {
    pub sku: Option<Seq<char>>,
    pub title: Option<Seq<char>>,
    pub quantity: Option<int>,
    pub price: Option<DecimalView>,
}

impl LineItemBuilderView {
    /// Whether every required field has been set.
    pub open spec fn complete(self) -> bool {
        self.sku is Some && self.title is Some && self.quantity is Some && self.price is Some
    }

    /// The name of the first required field, in declared order, that has not
    /// been set. Meaningful where the builder is not complete.
    pub open spec fn first_missing(self) -> Seq<char> {
        if self.sku is None {
            "sku"@
        } else if self.title is None {
            "title"@
        } else if self.quantity is None {
            "quantity"@
        } else {
            "price"@
        }
    }

    /// The line item that a complete builder yields.
    pub open spec fn built(self) -> LineItemView {
        LineItemView {
            sku: self.sku->Some_0,
            title: self.title->Some_0,
            quantity: self.quantity->Some_0,
            price: self.price->Some_0,
            total: self.price->Some_0.times(self.quantity->Some_0),
        }
    }
}

/// Accumulates the fields of a [`LineItem`]; consumed by
/// [`build`](LineItemBuilder::build).
#[derive(Debug)]
pub struct LineItemBuilder {
    sku: Option<String>,
    title: Option<String>,
    quantity: Option<i32>,
    price: Option<Decimal>,
}

impl View for LineItemBuilder {
    type V = LineItemBuilderView;

    closed spec fn view(&self) -> LineItemBuilderView {
        LineItemBuilderView {
            sku: opt_text(self.sku),
            title: opt_text(self.title),
            quantity: match self.quantity {
                Some(q) => Some(q as int),
                None => None,
            },
            price: opt_decimal(self.price),
        }
    }
}

impl Default for LineItemBuilder {
    /// A builder with no field set.
    fn default() -> (r: LineItemBuilder)
        ensures
            r@ == (LineItemBuilderView { sku: None, title: None, quantity: None, price: None }),
    {
        LineItemBuilder { sku: None, title: None, quantity: None, price: None }
    }
}

impl LineItemBuilder {
    /// Sets the stock keeping unit; a later call replaces an earlier one.
    pub fn sku(self, value: &str) -> (r: LineItemBuilder)
        ensures
            r@ == (LineItemBuilderView { sku: Some(value@), ..self@ }),
    {
        LineItemBuilder { sku: Some(value.to_owned()), ..self }
    }

    /// Sets the title; a later call replaces an earlier one.
    pub fn title(self, value: &str) -> (r: LineItemBuilder)
        ensures
            r@ == (LineItemBuilderView { title: Some(value@), ..self@ }),
    {
        LineItemBuilder { title: Some(value.to_owned()), ..self }
    }

    /// Sets the quantity; a later call replaces an earlier one.
    pub fn quantity(self, value: i32) -> (r: LineItemBuilder)
        ensures
            r@ == (LineItemBuilderView { quantity: Some(value as int), ..self@ }),
    {
        LineItemBuilder { quantity: Some(value), ..self }
    }

    /// Sets the unit price; a later call replaces an earlier one.
    pub fn price(self, value: Decimal) -> (r: LineItemBuilder)
        ensures
            r@ == (LineItemBuilderView { price: Some(value@), ..self@ }),
    {
        LineItemBuilder { price: Some(value), ..self }
    }

    /// Produces the line item with `total = quantity * price`, or names the
    /// first required field, in declared order, that was never set.
    pub fn build(self) -> (r: Result<LineItem, BuildError>)
        ensures
            r is Ok <==> self@.complete(),
            r matches Ok(item) ==> item@ == self@.built(),
            r matches Err(e) ==> e.field() == self@.first_missing(),
    {
        let sku = match self.sku {
            Some(value) => value,
            None => {
                return Err(BuildError::MissingField("sku"));
            },
        };
        let title = match self.title {
            Some(value) => value,
            None => {
                return Err(BuildError::MissingField("title"));
            },
        };
        let quantity = match self.quantity {
            Some(value) => value,
            None => {
                return Err(BuildError::MissingField("quantity"));
            },
        };
        let price = match self.price {
            Some(value) => value,
            None => {
                return Err(BuildError::MissingField("price"));
            },
        };
        let total = price.times(quantity);
        Ok(LineItem { sku, title, quantity, price, total })
    }
}

/// The views of a sequence of line items, in order.
pub open spec fn line_views(items: Seq<LineItem>) -> Seq<LineItemView> {
    items.map_values(|item: LineItem| item@)
}

/// The sum of the line totals, added from zero in the order of the lines.
pub open spec fn sum_totals(items: Seq<LineItemView>) -> DecimalView
    decreases items.len(),
{
    if items.len() == 0 {
        DecimalView { unscaled: 0, scale: 0 }
    } else {
        sum_totals(items.drop_last()).plus(items.last().total)
    }
}

/// The sum of `quantity * price` over the lines, as an integer at the common
/// scale `s`.
pub open spec fn exact_total(items: Seq<LineItemView>, s: int) -> int
    decreases items.len(),
{
    if items.len() == 0 {
        0
    } else {
        exact_total(items.drop_last(), s) + items.last().quantity * items.last().price.at_scale(s)
    }
}

/// The mathematical value of an [`Invoice`].
pub struct InvoiceView {
    pub id: Seq<char>,
    pub created_datetime: TimestampView,
    pub net_due_datetime: TimestampView,
    pub receiver: PartyView,
    pub sender: PartyView,
    pub logo: Option<Seq<char>>,
    pub line_items: Seq<LineItemView>,
    pub paid: DecimalView,
    pub total: DecimalView,
    pub due: DecimalView,
    pub acct_id: Option<Seq<char>>,
    pub purchase_order: Option<Seq<char>>,
}

impl InvoiceView {
    /// The derived amounts are what the lines and the amount paid give:
    /// each line total is `quantity * price`, the total is the sum of the
    /// line totals, and the amount due is the total less the amount paid.
    pub open spec fn consistent(self) -> bool {
        &&& forall|i: int| 0 <= i < self.line_items.len() ==> (#[trigger] self.line_items[i]).consistent()
        &&& self.total == sum_totals(self.line_items)
        &&& self.due == self.total.minus(self.paid)
    }

    /// Whether `s` is a scale at which every price and the amount paid can
    /// be written as an integer.
    pub open spec fn common_scale(self, s: int) -> bool {
        &&& 0 <= s
        &&& self.paid.scale <= s
        &&& forall|i: int| 0 <= i < self.line_items.len() ==> (#[trigger] self.line_items[i]).price.scale <= s
    }
}

/// An invoice. Immutable once built; the total and the amount due are fixed
/// at construction.
#[derive(Debug)]
pub struct Invoice {
    id: String,
    created_datetime: Timestamp,
    net_due_datetime: Timestamp,
    receiver: Party,
    sender: Party,
    logo: Option<String>,
    line_items: Vec<LineItem>,
    paid: Decimal,
    total: Decimal,
    due: Decimal,
    acct_id: Option<String>,
    purchase_order: Option<String>,
}

impl View for Invoice {
    type V = InvoiceView;

    closed spec fn view(&self) -> InvoiceView {
        InvoiceView {
            id: self.id@,
            created_datetime: self.created_datetime@,
            net_due_datetime: self.net_due_datetime@,
            receiver: self.receiver@,
            sender: self.sender@,
            logo: opt_text(self.logo),
            line_items: line_views(self.line_items@),
            paid: self.paid@,
            total: self.total@,
            due: self.due@,
            acct_id: opt_text(self.acct_id),
            purchase_order: opt_text(self.purchase_order),
        }
    }
}

impl Invoice {
    #[verifier::type_invariant]
    spec fn totals_are_frozen(self) -> bool {
        self@.consistent()
    }

    /// Identifier of the invoice.
    pub fn id(&self) -> (r: &str)
        ensures
            r@ == self@.id,
    {
        self.id.as_str()
    }

    /// When the invoice was created.
    pub fn created_datetime(&self) -> (r: Timestamp)
        ensures
            r@ == self@.created_datetime,
    {
        self.created_datetime
    }

    /// When payment is due.
    pub fn net_due_datetime(&self) -> (r: Timestamp)
        ensures
            r@ == self@.net_due_datetime,
    {
        self.net_due_datetime
    }

    /// The party that receives the invoice.
    pub fn receiver(&self) -> (r: &Party)
        ensures
            r@ == self@.receiver,
    {
        &self.receiver
    }

    /// The party that sends the invoice.
    pub fn sender(&self) -> (r: &Party)
        ensures
            r@ == self@.sender,
    {
        &self.sender
    }

    /// Path of the logo, if any. Whether a file exists there is not checked.
    pub fn logo(&self) -> (r: &Option<String>)
        ensures
            opt_text(*r) == self@.logo,
    {
        &self.logo
    }

    /// The line items, in the order in which they were added.
    pub fn line_items(&self) -> (r: &Vec<LineItem>)
        ensures
            line_views(r@) == self@.line_items,
    {
        &self.line_items
    }

    /// The amount already paid.
    pub fn paid(&self) -> (r: &Decimal)
        ensures
            r@ == self@.paid,
    {
        &self.paid
    }

    /// The sum of the line totals, as computed when the invoice was built.
    pub fn total(&self) -> (r: &Decimal)
        ensures
            r@ == self@.total,
            r@ == sum_totals(self@.line_items),
            self@.consistent(),
    {
        proof {
            use_type_invariant(self);
        }
        &self.total
    }

    /// The total less the amount paid, as computed when the invoice was
    /// built.
    pub fn net_due(&self) -> (r: &Decimal)
        ensures
            r@ == self@.due,
            r@ == sum_totals(self@.line_items).minus(self@.paid),
            self@.consistent(),
    {
        proof {
            use_type_invariant(self);
        }
        &self.due
    }

    /// Account identifier, if any.
    pub fn acct_id(&self) -> (r: &Option<String>)
        ensures
            opt_text(*r) == self@.acct_id,
    {
        &self.acct_id
    }

    /// Purchase order, if any.
    pub fn purchase_order(&self) -> (r: &Option<String>)
        ensures
            opt_text(*r) == self@.purchase_order,
    {
        &self.purchase_order
    }
}

/// The views of an optional list of line items.
pub open spec fn opt_lines(o: Option<Vec<LineItem>>) -> Option<Seq<LineItemView>> {
    match o {
        Some(items) => Some(line_views(items@)),
        None => None,
    }
}

/// The view of an optional timestamp.
pub open spec fn opt_timestamp(o: Option<Timestamp>) -> Option<TimestampView> {
    match o {
        Some(t) => Some(t@),
        None => None,
    }
}

/// The view of an optional party.
pub open spec fn opt_party(o: Option<Party>) -> Option<PartyView> {
    match o {
        Some(p) => Some(p@),
        None => None,
    }
}

/// What an [`InvoiceBuilder`] has been given so far.
pub struct InvoiceBuilderView {
    pub id: Option<Seq<char>>,
    pub created_datetime: Option<TimestampView>,
    pub net_due_datetime: Option<TimestampView>,
    pub receiver: Option<PartyView>,
    pub sender: Option<PartyView>,
    pub logo: Option<Seq<char>>,
    pub line_items: Option<Seq<LineItemView>>,
    pub paid: Option<DecimalView>,
    pub acct_id: Option<Seq<char>>,
    pub purchase_order: Option<Seq<char>>,
}

impl InvoiceBuilderView {
    /// The builder to which nothing has been given.
    pub open spec fn empty() -> InvoiceBuilderView {
        InvoiceBuilderView {
            id: None,
            created_datetime: None,
            net_due_datetime: None,
            receiver: None,
            sender: None,
            logo: None,
            line_items: None,
            paid: None,
            acct_id: None,
            purchase_order: None,
        }
    }

    /// Whether every required field has been set.
    pub open spec fn complete(self) -> bool {
        self.id is Some && self.receiver is Some && self.sender is Some
    }

    /// The name of the first required field, in declared order, that has not
    /// been set. Meaningful where the builder is not complete.
    pub open spec fn first_missing(self) -> Seq<char> {
        if self.id is None {
            "id"@
        } else if self.receiver is None {
            "receiver"@
        } else {
            "sender"@
        }
    }

    /// The line items that the builder holds: none where none was given.
    pub open spec fn lines(self) -> Seq<LineItemView> {
        match self.line_items {
            Some(items) => items,
            None => Seq::empty(),
        }
    }

    /// The amount paid that the builder holds: zero where none was given.
    pub open spec fn paid_or_zero(self) -> DecimalView {
        match self.paid {
            Some(paid) => paid,
            None => DecimalView { unscaled: 0, scale: 0 },
        }
    }

    /// The invoice that a complete builder yields when the clock reads
    /// `now`: a timestamp that was not given is `now`, and the total and the
    /// amount due are derived from the lines and the amount paid.
    pub open spec fn built(self, now: TimestampView) -> InvoiceView {
        InvoiceView {
            id: self.id->Some_0,
            created_datetime: match self.created_datetime {
                Some(t) => t,
                None => now,
            },
            net_due_datetime: match self.net_due_datetime {
                Some(t) => t,
                None => now,
            },
            receiver: self.receiver->Some_0,
            sender: self.sender->Some_0,
            logo: self.logo,
            line_items: self.lines(),
            paid: self.paid_or_zero(),
            total: sum_totals(self.lines()),
            due: sum_totals(self.lines()).minus(self.paid_or_zero()),
            acct_id: self.acct_id,
            purchase_order: self.purchase_order,
        }
    }
}

/// Accumulates the fields of an [`Invoice`]; consumed by
/// [`build`](InvoiceBuilder::build) or [`build_at`](InvoiceBuilder::build_at).
#[derive(Debug)]
pub struct InvoiceBuilder {
    id: Option<String>,
    created_datetime: Option<Timestamp>,
    net_due_datetime: Option<Timestamp>,
    receiver: Option<Party>,
    sender: Option<Party>,
    logo: Option<String>,
    line_items: Option<Vec<LineItem>>,
    paid: Option<Decimal>,
    acct_id: Option<String>,
    purchase_order: Option<String>,
}

impl View for InvoiceBuilder {
    type V = InvoiceBuilderView;

    closed spec fn view(&self) -> InvoiceBuilderView {
        InvoiceBuilderView {
            id: opt_text(self.id),
            created_datetime: opt_timestamp(self.created_datetime),
            net_due_datetime: opt_timestamp(self.net_due_datetime),
            receiver: opt_party(self.receiver),
            sender: opt_party(self.sender),
            logo: opt_text(self.logo),
            line_items: opt_lines(self.line_items),
            paid: opt_decimal(self.paid),
            acct_id: opt_text(self.acct_id),
            purchase_order: opt_text(self.purchase_order),
        }
    }
}

impl Default for InvoiceBuilder {
    /// A builder with no field set.
    fn default() -> (r: InvoiceBuilder)
        ensures
            r@ == InvoiceBuilderView::empty(),
    {
        InvoiceBuilder {
            id: None,
            created_datetime: None,
            net_due_datetime: None,
            receiver: None,
            sender: None,
            logo: None,
            line_items: None,
            paid: None,
            acct_id: None,
            purchase_order: None,
        }
    }
}

/// The sum of the totals of `items`, added from zero in their order.
fn total_of(items: &Vec<LineItem>) -> (r: Decimal)
    ensures
        r@ == sum_totals(line_views(items@)),
        forall|i: int|
            0 <= i < items@.len() ==> (#[trigger] line_views(items@)[i]).consistent(),
{
    let mut total = Decimal::zero();
    let mut i: usize = 0;
    while i < items.len()
        invariant
            i <= items.len(),
            total@ == sum_totals(line_views(items@).take(i as int)),
            forall|j: int| 0 <= j < i ==> (#[trigger] line_views(items@)[j]).consistent(),
        decreases items.len() - i,
    {
        let line_total = items[i].total();
        proof {
            let done = line_views(items@).take(i as int + 1);
            assert(done.drop_last() == line_views(items@).take(i as int));
            assert(done.last() == items@[i as int]@);
        }
        total = total.plus(line_total);
        i += 1;
    }
    proof {
        assert(line_views(items@).take(i as int) == line_views(items@));
    }
    total
}

impl InvoiceBuilder {
    /// Sets the identifier; a later call replaces an earlier one.
    pub fn id(self, value: &str) -> (r: InvoiceBuilder)
        ensures
            r@ == (InvoiceBuilderView { id: Some(value@), ..self@ }),
    {
        InvoiceBuilder { id: Some(value.to_owned()), ..self }
    }

    /// Sets the time of creation; a later call replaces an earlier one.
    pub fn created_datetime(self, value: Timestamp) -> (r: InvoiceBuilder)
        ensures
            r@ == (InvoiceBuilderView { created_datetime: Some(value@), ..self@ }),
    {
        InvoiceBuilder { created_datetime: Some(value), ..self }
    }

    /// Sets the time at which payment is due; a later call replaces an
    /// earlier one.
    pub fn net_due_datetime(self, value: Timestamp) -> (r: InvoiceBuilder)
        ensures
            r@ == (InvoiceBuilderView { net_due_datetime: Some(value@), ..self@ }),
    {
        InvoiceBuilder { net_due_datetime: Some(value), ..self }
    }

    /// Sets the receiver; a later call replaces an earlier one.
    pub fn receiver(self, value: Party) -> (r: InvoiceBuilder)
        ensures
            r@ == (InvoiceBuilderView { receiver: Some(value@), ..self@ }),
    {
        InvoiceBuilder { receiver: Some(value), ..self }
    }

    /// Sets the sender; a later call replaces an earlier one.
    pub fn sender(self, value: Party) -> (r: InvoiceBuilder)
        ensures
            r@ == (InvoiceBuilderView { sender: Some(value@), ..self@ }),
    {
        InvoiceBuilder { sender: Some(value), ..self }
    }

    /// Sets the path of the logo; a later call replaces an earlier one.
    pub fn logo(self, value: &str) -> (r: InvoiceBuilder)
        ensures
            r@ == (InvoiceBuilderView { logo: Some(value@), ..self@ }),
    {
        InvoiceBuilder { logo: Some(value.to_owned()), ..self }
    }

    /// Replaces the whole list of line items.
    pub fn line_items(self, value: Vec<LineItem>) -> (r: InvoiceBuilder)
        ensures
            r@ == (InvoiceBuilderView { line_items: Some(line_views(value@)), ..self@ }),
    {
        InvoiceBuilder { line_items: Some(value), ..self }
    }

    /// Appends one line item after those already held. Repeated calls add
    /// up, in the order of the calls.
    pub fn add_line(self, line: LineItem) -> (r: InvoiceBuilder)
        ensures
            r@ == (InvoiceBuilderView { line_items: Some(self@.lines().push(line@)), ..self@ }),
    {
        let InvoiceBuilder {
            id,
            created_datetime,
            net_due_datetime,
            receiver,
            sender,
            logo,
            line_items,
            paid,
            acct_id,
            purchase_order,
        } = self;
        let mut lines = match line_items {
            Some(lines) => lines,
            None => Vec::new(),
        };
        proof {
            assert(line_views(lines@) =~= self@.lines());
            assert(line_views(lines@.push(line)) =~= line_views(lines@).push(line@));
        }
        lines.push(line);
        InvoiceBuilder {
            id,
            created_datetime,
            net_due_datetime,
            receiver,
            sender,
            logo,
            line_items: Some(lines),
            paid,
            acct_id,
            purchase_order,
        }
    }

    /// Sets the amount already paid; a later call replaces an earlier one.
    pub fn paid(self, value: Decimal) -> (r: InvoiceBuilder)
        ensures
            r@ == (InvoiceBuilderView { paid: Some(value@), ..self@ }),
    {
        InvoiceBuilder { paid: Some(value), ..self }
    }

    /// Sets the account identifier; a later call replaces an earlier one.
    pub fn acct_id(self, value: &str) -> (r: InvoiceBuilder)
        ensures
            r@ == (InvoiceBuilderView { acct_id: Some(value@), ..self@ }),
    {
        InvoiceBuilder { acct_id: Some(value.to_owned()), ..self }
    }

    /// Sets the purchase order; a later call replaces an earlier one.
    pub fn purchase_order(self, value: &str) -> (r: InvoiceBuilder)
        ensures
            r@ == (InvoiceBuilderView { purchase_order: Some(value@), ..self@ }),
    {
        InvoiceBuilder { purchase_order: Some(value.to_owned()), ..self }
    }

    /// Produces the invoice as it is when the clock reads `now`, or names the
    /// first required field, in declared order, that was never set. Defaults:
    /// no line items, nothing paid, and `now` for a timestamp not given; the
    /// due date gets no term of payment added.
    pub fn build_at(self, now: Timestamp) -> (r: Result<Invoice, BuildError>)
        ensures
            r is Ok <==> self@.complete(),
            r matches Ok(invoice) ==> invoice@ == self@.built(now@) && invoice@.consistent(),
            r matches Err(e) ==> e.field() == self@.first_missing(),
    {
        let id = match self.id {
            Some(value) => value,
            None => {
                return Err(BuildError::MissingField("id"));
            },
        };
        let receiver = match self.receiver {
            Some(value) => value,
            None => {
                return Err(BuildError::MissingField("receiver"));
            },
        };
        let sender = match self.sender {
            Some(value) => value,
            None => {
                return Err(BuildError::MissingField("sender"));
            },
        };
        let created_datetime = match self.created_datetime {
            Some(value) => value,
            None => now,
        };
        let net_due_datetime = match self.net_due_datetime {
            Some(value) => value,
            None => now,
        };
        let line_items = match self.line_items {
            Some(value) => value,
            None => Vec::new(),
        };
        let paid = match self.paid {
            Some(value) => value,
            None => Decimal::zero(),
        };
        let total = total_of(&line_items);
        let due = total.minus(&paid);
        proof {
            assert(line_views(line_items@) =~= self@.lines());
        }
        Ok(
            Invoice {
                id,
                created_datetime,
                net_due_datetime,
                receiver,
                sender,
                logo: self.logo,
                line_items,
                paid,
                total,
                due,
                acct_id: self.acct_id,
                purchase_order: self.purchase_order,
            },
        )
    }

    /// Produces the invoice, reading the clock once for the timestamps that
    /// were not given. It succeeds exactly when every required field is
    /// set, whatever the clock reads.
    pub fn build(self) -> (r: Result<Invoice, BuildError>)
        ensures
            r is Ok <==> self@.complete(),
            r matches Ok(invoice) ==> invoice@.consistent() && exists|now: TimestampView|
                now.valid() && invoice@ == #[trigger] self@.built(now),
            r matches Err(e) ==> e.field() == self@.first_missing(),
    {
        let now = Timestamp::now();
        let ghost reading = now@;
        let built = self.build_at(now);
        proof {
            if let Ok(invoice) = &built {
                assert(reading.valid());
                assert(invoice@ == self@.built(reading));
            }
        }
        built
    }
}

/// The sum of the line totals is exact: at every common scale it is the sum
/// of `quantity * price` over the lines, with nothing rounded.
pub proof fn law_total_exact(items: Seq<LineItemView>, s: int)
    requires
        0 <= s,
        forall|i: int| 0 <= i < items.len() ==> (#[trigger] items[i]).consistent(),
        forall|i: int| 0 <= i < items.len() ==> (#[trigger] items[i]).price.scale <= s,
    ensures
        sum_totals(items).scale <= s,
        sum_totals(items).at_scale(s) == exact_total(items, s),
    decreases items.len(),
{
    if items.len() == 0 {
        assert(sum_totals(items).at_scale(s) == 0 * pow10(s as nat));
    } else {
        let rest = items.drop_last();
        let last = items.last();
        assert forall|i: int| 0 <= i < rest.len() implies (#[trigger] rest[i]).consistent() by {
            assert(rest[i] == items[i]);
        }
        assert forall|i: int| 0 <= i < rest.len() implies (#[trigger] rest[i]).price.scale
            <= s by {
            assert(rest[i] == items[i]);
        }
        law_total_exact(rest, s);
        assert(last == items[items.len() - 1]);
        law_plus_exact(sum_totals(rest), last.total, s);
        law_times_exact(last.price, last.quantity, s);
    }
}

/// The amounts of an invoice are exact: at every common scale the total is
/// the sum of `quantity * price` over the lines, and the amount due is the
/// total less the amount paid.
pub proof fn law_invoice_amounts_exact(invoice: InvoiceView, s: int)
    requires
        invoice.consistent(),
        invoice.common_scale(s),
    ensures
        invoice.total.scale <= s,
        invoice.due.scale <= s,
        invoice.total.at_scale(s) == exact_total(invoice.line_items, s),
        invoice.due.at_scale(s) == invoice.total.at_scale(s) - invoice.paid.at_scale(s),
{
    law_total_exact(invoice.line_items, s);
    law_minus_exact(invoice.total, invoice.paid, s);
}

/// The required fields suffice: an invoice built from its identifier and
/// its two parties alone has no line items, nothing paid, a total and an
/// amount due of zero, both timestamps at the clock's reading, and none of
/// the optional fields.
pub proof fn law_required_fields_suffice(
    id: Seq<char>,
    receiver: PartyView,
    sender: PartyView,
    now: TimestampView,
)
    ensures
        ({
            let builder = InvoiceBuilderView {
                id: Some(id),
                receiver: Some(receiver),
                sender: Some(sender),
                ..InvoiceBuilderView::empty()
            };
            let invoice = builder.built(now);
            let zero = DecimalView { unscaled: 0, scale: 0 };
            &&& builder.complete()
            &&& invoice.id == id && invoice.receiver == receiver && invoice.sender == sender
            &&& invoice.created_datetime == now && invoice.net_due_datetime == now
            &&& invoice.line_items.len() == 0
            &&& invoice.paid == zero && invoice.total == zero && invoice.due == zero
            &&& invoice.logo is None && invoice.acct_id is None && invoice.purchase_order is None
            &&& invoice.consistent()
        }),
{
}

/// A missing required field is named: where an invoice builder is not
/// complete, the field it names is one of the three required ones and has
/// not been set, and every required field declared before it has.
pub proof fn law_missing_invoice_field_is_named(builder: InvoiceBuilderView)
    requires
        !builder.complete(),
    ensures
        builder.first_missing() == "id"@ ==> builder.id is None,
        builder.first_missing() == "receiver"@ ==> builder.receiver is None && builder.id is Some,
        builder.first_missing() == "sender"@ ==> builder.sender is None && builder.id is Some
            && builder.receiver is Some,
        builder.first_missing() == "id"@ || builder.first_missing() == "receiver"@
            || builder.first_missing() == "sender"@,
{
    reveal_strlit("id");
    reveal_strlit("receiver");
    reveal_strlit("sender");
    assert("id"@.len() == 2 && "receiver"@.len() == 8 && "sender"@.len() == 6);
}

/// Only the required fields decide whether an invoice can be built, and
/// which field is reported missing: whatever else a builder is given, before
/// or after, changes neither.
pub proof fn law_only_required_invoice_fields_decide(a: InvoiceBuilderView, b: InvoiceBuilderView)
    requires
        a.id is Some <==> b.id is Some,
        a.receiver is Some <==> b.receiver is Some,
        a.sender is Some <==> b.sender is Some,
    ensures
        a.complete() == b.complete(),
        a.first_missing() == b.first_missing(),
{
}

/// Only the required fields decide whether a line item can be built, and
/// which field is reported missing. All four fields of a line item are
/// required.
pub proof fn law_only_required_line_fields_decide(a: LineItemBuilderView, b: LineItemBuilderView)
    requires
        a.sku is Some <==> b.sku is Some,
        a.title is Some <==> b.title is Some,
        a.quantity is Some <==> b.quantity is Some,
        a.price is Some <==> b.price is Some,
    ensures
        a.complete() == b.complete(),
        a.first_missing() == b.first_missing(),
{
}

} // verus!
