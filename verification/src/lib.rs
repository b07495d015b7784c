//! Typed decoding of ISO 20022 `camt.053.001.02` bank-to-customer statement
//! XML into a schema-validated model: header, balances and entries, with
//! choice points resolved by tag and cardinality rules enforced.  The XML
//! tokenizer, the calendar arithmetic and the report formatting are outside
//! collaborators; the schema mapping itself is specified and proved here.

pub mod dates;
pub mod decimal;
pub mod error;
pub mod events;
pub mod mapper;
pub mod model;
pub mod xml;

pub use dates::{CalendarDate, Timestamp};
pub use decimal::DecimalValue;
pub use error::ParseError;
pub use model::{
    AccountId, AccountIdentification, Amount, Balance, BalanceType, BankToCustomerStatement,
    CodeOrPropietary, CodeOrPropietaryChoice, CreditOrDebit, Date, Document, Entry, EntryDetails,
    Header, ISO20022Document, PartyAccount, PartyId, RelatedParties, RemittanceInfo, Statement,
    TransactionDetails,
};
pub use xml::XmlElement;
