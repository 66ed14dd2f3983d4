//! Invoices as validated, immutable values with exact totals, and the
//! decisions that surround printing them as PDF documents.
//!
//! * [`decimal`] and [`timestamp`] hold exact amounts and instants with an
//!   offset; [`codec`] is their text form in the exchange format.
//! * [`party`] and [`invoice`] hold the entities and their one-shot
//!   builders: required fields are checked, defaults applied and totals
//!   derived in a single `build`.
//! * [`record`] decodes invoices from the exchange format.
//! * [`error`] is the failure that collects context as it crosses layers.
//! * [`template_env`] holds the text filters of the invoice template.
//! * [`driver`], [`pdf`] and [`cli`] decide what happens next while the
//!   browser driver is started, a document is printed and delivered; the
//!   caller performs the steps.

pub mod cli;
pub mod codec;
pub mod decimal;
pub mod driver;
pub mod error;
pub mod invoice;
pub mod party;
pub mod pdf;
pub mod record;
pub mod template_env;
pub mod timestamp;

pub use cli::Cli;
pub use codec::CodecError;
pub use decimal::Decimal;
pub use error::{AddContext, Error, ErrorKind};
pub use invoice::{Invoice, InvoiceBuilder, LineItem, LineItemBuilder};
pub use party::{Address, AddressBuilder, BuildError, Party, PartyBuilder};
pub use timestamp::Timestamp;
