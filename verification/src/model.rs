use vstd::prelude::*;
use crate::dates::{CalendarDate, Timestamp};
use crate::decimal::DecimalValue;
use crate::xml::str_eq;

verus! {

/// Whether a movement increases or decreases the account, from the bank's
/// side; the source text holds `CRDT` or `DBIT`.
#[derive(Debug, Clone, Copy, PartialEq, Eq, Structural)]
pub enum CreditOrDebit {
    Credit,
    Debit,
}

/// A monetary value: the `Ccy` attribute's currency code, taken verbatim,
/// and the element text's fixed-point value.
#[derive(Debug, Clone)]
pub struct Amount {
    pub currency: String,
    pub amount: DecimalValue,
}

pub ghost struct AmountView {
    pub currency: Seq<char>,
    pub amount: DecimalValue,
}

impl DeepView for Amount {
    type V = AmountView;

    open spec fn deep_view(&self) -> AmountView {
        AmountView { currency: self.currency@, amount: self.amount }
    }
}

/// A calendar date, as the `Dt` child of a date element holds it.
#[derive(Debug, Clone)]
pub struct Date {
    pub dt: CalendarDate,
}

pub ghost struct DateView {
    pub dt: CalendarDate,
}

impl DeepView for Date {
    type V = DateView;

    open spec fn deep_view(&self) -> DateView {
        DateView { dt: self.dt }
    }
}

/// Message metadata: the statement's creation timestamp.
#[derive(Debug, Clone)]
pub struct Header {
    pub creation_date: Timestamp,
}

pub ghost struct HeaderView {
    pub creation_date: Timestamp,
}

impl DeepView for Header {
    type V = HeaderView;

    open spec fn deep_view(&self) -> HeaderView {
        HeaderView { creation_date: self.creation_date }
    }
}

/// The balance-type choice: a proprietary code string today.
#[derive(Debug, Clone)]
pub enum CodeOrPropietary {
    Code(String),
}

pub ghost enum CodeOrPropietaryView {
    Code(Seq<char>),
}

impl DeepView for CodeOrPropietary {
    type V = CodeOrPropietaryView;

    open spec fn deep_view(&self) -> CodeOrPropietaryView {
        match self {
            CodeOrPropietary::Code(c) => CodeOrPropietaryView::Code(c@),
        }
    }
}

/// The `CdOrPrtry` element wrapping the balance-type choice.
#[derive(Debug, Clone)]
pub struct CodeOrPropietaryChoice {
    pub choice: CodeOrPropietary,
}

pub ghost struct CodeOrPropietaryChoiceView {
    pub choice: CodeOrPropietaryView,
}

impl DeepView for CodeOrPropietaryChoice {
    type V = CodeOrPropietaryChoiceView;

    open spec fn deep_view(&self) -> CodeOrPropietaryChoiceView {
        CodeOrPropietaryChoiceView { choice: self.choice.deep_view() }
    }
}

/// A balance snapshot's classification.
#[derive(Debug, Clone)]
pub struct BalanceType {
    pub code_or_proprietary: CodeOrPropietaryChoice,
}

pub ghost struct BalanceTypeView {
    pub code_or_proprietary: CodeOrPropietaryChoiceView,
}

impl DeepView for BalanceType {
    type V = BalanceTypeView;

    open spec fn deep_view(&self) -> BalanceTypeView {
        BalanceTypeView { code_or_proprietary: self.code_or_proprietary.deep_view() }
    }
}

/// The code a balance type carries.
pub open spec fn spec_balance_code(bt: BalanceTypeView) -> Seq<char> {
    match bt.code_or_proprietary.choice {
        CodeOrPropietaryView::Code(c) => c,
    }
}

impl BalanceType {
    /// The classification code, e.g. `OPBD` or `CLBD`.
    pub fn code(&self) -> (r: &str)
        ensures
            r@ == spec_balance_code(self.deep_view()),
    {
        match &self.code_or_proprietary.choice {
            CodeOrPropietary::Code(code) => code.as_str(),
        }
    }
}

/// A named balance snapshot.
#[derive(Debug, Clone)]
pub struct Balance {
    pub type_: BalanceType,
    pub amount: Amount,
    pub date: Date,
    pub credit_or_debit: CreditOrDebit,
}

pub ghost struct BalanceView {
    pub type_: BalanceTypeView,
    pub amount: AmountView,
    pub date: DateView,
    pub credit_or_debit: CreditOrDebit,
}

impl DeepView for Balance {
    type V = BalanceView;

    open spec fn deep_view(&self) -> BalanceView {
        BalanceView {
            type_: self.type_.deep_view(),
            amount: self.amount.deep_view(),
            date: self.date.deep_view(),
            credit_or_debit: self.credit_or_debit,
        }
    }
}

/// Per-entry narrative: the unstructured remittance text.
#[derive(Debug, Clone)]
pub struct RemittanceInfo {
    pub unstructured: String,
}

pub ghost struct RemittanceInfoView {
    pub unstructured: Seq<char>,
}

impl DeepView for RemittanceInfo {
    type V = RemittanceInfoView;

    open spec fn deep_view(&self) -> RemittanceInfoView {
        RemittanceInfoView { unstructured: self.unstructured@ }
    }
}

impl RemittanceInfo {
    /// The remittance text, as the narrative shows it.
    pub fn as_text(&self) -> (r: &str)
        ensures
            r@ == self.unstructured@,
    {
        self.unstructured.as_str()
    }
}

/// A counterparty's display name.
#[derive(Debug, Clone)]
pub struct PartyId {
    pub name: String,
}

pub ghost struct PartyIdView {
    pub name: Seq<char>,
}

impl DeepView for PartyId {
    type V = PartyIdView;

    open spec fn deep_view(&self) -> PartyIdView {
        PartyIdView { name: self.name@ }
    }
}

/// The account-identification choice: IBAN today; any other scheme is kept
/// with its raw tag and text, so that later schemes do not break a parse.
#[derive(Debug, Clone)]
pub enum AccountIdentification {
    IBAN(String),
    Other { scheme: String, value: String },
}

pub ghost enum AccountIdentificationView {
    IBAN(Seq<char>),
    Other { scheme: Seq<char>, value: Seq<char> },
}

impl DeepView for AccountIdentification {
    type V = AccountIdentificationView;

    open spec fn deep_view(&self) -> AccountIdentificationView {
        match self {
            AccountIdentification::IBAN(s) => AccountIdentificationView::IBAN(s@),
            AccountIdentification::Other { scheme, value } => AccountIdentificationView::Other {
                scheme: scheme@,
                value: value@,
            },
        }
    }
}

/// The `Id` element of a counterparty account.
#[derive(Debug, Clone)]
pub struct AccountId {
    pub identification: AccountIdentification,
}

pub ghost struct AccountIdView {
    pub identification: AccountIdentificationView,
}

impl DeepView for AccountId {
    type V = AccountIdView;

    open spec fn deep_view(&self) -> AccountIdView {
        AccountIdView { identification: self.identification.deep_view() }
    }
}

/// A counterparty's account reference.
#[derive(Debug, Clone)]
pub struct PartyAccount {
    pub id: AccountId,
}

pub ghost struct PartyAccountView {
    pub id: AccountIdView,
}

impl DeepView for PartyAccount {
    type V = PartyAccountView;

    open spec fn deep_view(&self) -> PartyAccountView {
        PartyAccountView { id: self.id.deep_view() }
    }
}

/// The counterparties of a movement; every part is independently optional,
/// and a party's presence never implies its account's.
#[derive(Debug, Clone)]
pub struct RelatedParties {
    pub creditor: Option<PartyId>,
    pub creditor_account: Option<PartyAccount>,
    pub debitor: Option<PartyId>,
    pub debitor_account: Option<PartyAccount>,
}

pub ghost struct RelatedPartiesView {
    pub creditor: Option<PartyIdView>,
    pub creditor_account: Option<PartyAccountView>,
    pub debitor: Option<PartyIdView>,
    pub debitor_account: Option<PartyAccountView>,
}

impl DeepView for RelatedParties {
    type V = RelatedPartiesView;

    open spec fn deep_view(&self) -> RelatedPartiesView {
        RelatedPartiesView {
            creditor: self.creditor.deep_view(),
            creditor_account: self.creditor_account.deep_view(),
            debitor: self.debitor.deep_view(),
            debitor_account: self.debitor_account.deep_view(),
        }
    }
}

/// Narrative details of one movement.
#[derive(Debug, Clone)]
pub struct TransactionDetails {
    pub remittance_info: Option<RemittanceInfo>,
    pub related_parties: Option<RelatedParties>,
}

pub ghost struct TransactionDetailsView {
    pub remittance_info: Option<RemittanceInfoView>,
    pub related_parties: Option<RelatedPartiesView>,
}

impl DeepView for TransactionDetails {
    type V = TransactionDetailsView;

    open spec fn deep_view(&self) -> TransactionDetailsView {
        TransactionDetailsView {
            remittance_info: self.remittance_info.deep_view(),
            related_parties: self.related_parties.deep_view(),
        }
    }
}

/// The `NtryDtls` element wrapping one movement's details.
#[derive(Debug, Clone)]
pub struct EntryDetails {
    pub transaction: TransactionDetails,
}

pub ghost struct EntryDetailsView {
    pub transaction: TransactionDetailsView,
}

impl DeepView for EntryDetails {
    type V = EntryDetailsView;

    open spec fn deep_view(&self) -> EntryDetailsView {
        EntryDetailsView { transaction: self.transaction.deep_view() }
    }
}

/// One ledger movement.
#[derive(Debug, Clone)]
pub struct Entry {
    pub amount: Amount,
    pub credit_or_debit: CreditOrDebit,
    pub book_date: Date,
    pub value_date: Date,
    pub details: EntryDetails,
    pub additional_info: Option<String>,
}

pub ghost struct EntryView {
    pub amount: AmountView,
    pub credit_or_debit: CreditOrDebit,
    pub book_date: DateView,
    pub value_date: DateView,
    pub details: EntryDetailsView,
    pub additional_info: Option<Seq<char>>,
}

impl DeepView for Entry {
    type V = EntryView;

    open spec fn deep_view(&self) -> EntryView {
        EntryView {
            amount: self.amount.deep_view(),
            credit_or_debit: self.credit_or_debit,
            book_date: self.book_date.deep_view(),
            value_date: self.value_date.deep_view(),
            details: self.details.deep_view(),
            additional_info: self.additional_info.deep_view(),
        }
    }
}

/// One account statement: balances and movements in document order.
#[derive(Debug, Clone)]
pub struct Statement {
    pub balances: Vec<Balance>,
    pub entries: Vec<Entry>,
}

pub ghost struct StatementView {
    pub balances: Seq<BalanceView>,
    pub entries: Seq<EntryView>,
}

impl DeepView for Statement {
    type V = StatementView;

    open spec fn deep_view(&self) -> StatementView {
        StatementView { balances: self.balances.deep_view(), entries: self.entries.deep_view() }
    }
}

/// The code tagging the opening balance.
pub open spec fn opening_code() -> Seq<char> {
    "OPBD"@
}

/// The code tagging the closing balance.
pub open spec fn closing_code() -> Seq<char> {
    "CLBD"@
}

/// Index of the first balance at or after `from` whose code is `code`.
pub open spec fn first_balance_from(bals: Seq<BalanceView>, code: Seq<char>, from: int) -> Option<
    int,
>
    decreases bals.len() - from,
{
    if from < 0 || from >= bals.len() {
        None
    } else if spec_balance_code(bals[from].type_) == code {
        Some(from)
    } else {
        first_balance_from(bals, code, from + 1)
    }
}

/// The balance pick is exactly the first match in document order: it is
/// absent exactly when no balance carries the code, and otherwise it is the
/// earliest balance that does.
pub proof fn lemma_first_balance_character(bals: Seq<BalanceView>, code: Seq<char>, from: int)
    requires
        0 <= from,
    ensures
        (forall|i: int|
            from <= i < bals.len() ==> spec_balance_code(#[trigger] bals[i].type_) != code)
            ==> first_balance_from(bals, code, from) is None,
        first_balance_from(bals, code, from) is None ==> (forall|i: int|
            from <= i < bals.len() ==> spec_balance_code(#[trigger] bals[i].type_) != code),
        first_balance_from(bals, code, from) matches Some(i) ==> {
            &&& from <= i < bals.len()
            &&& spec_balance_code(bals[i].type_) == code
            &&& forall|j: int|
                from <= j < i ==> spec_balance_code(#[trigger] bals[j].type_) != code
        },
    decreases bals.len() - from,
{
    if from < 0 || from >= bals.len() {
    } else if spec_balance_code(bals[from].type_) == code {
        assert(!(spec_balance_code(bals[from].type_) != code));
    } else {
        lemma_first_balance_character(bals, code, from + 1);
        if first_balance_from(bals, code, from + 1) is None {
            assert forall|i: int|
                from <= i < bals.len() implies spec_balance_code(
                #[trigger] bals[i].type_,
            ) != code by {
                if i > from {
                    assert(spec_balance_code(bals[i].type_) != code);
                }
            }
        }
    }
}

impl Statement {
    /// The first balance, in document order, whose code is `code`.
    fn balance_with_code(&self, code: &str) -> (r: Option<&Balance>)
        ensures
            match r {
                Some(b) => {
                    &&& first_balance_from(self.balances.deep_view(), code@, 0) matches Some(i)
                    &&& 0 <= i < self.balances@.len()
                    &&& *b == self.balances@[i]
                },
                None => first_balance_from(self.balances.deep_view(), code@, 0) is None,
            },
    {
        let ghost bals = self.balances.deep_view();
        let mut i: usize = 0;
        while i < self.balances.len()
            invariant
                0 <= i <= self.balances@.len(),
                bals == self.balances.deep_view(),
                first_balance_from(bals, code@, 0) == first_balance_from(bals, code@, i as int),
            decreases self.balances@.len() - i,
        {
            if str_eq(self.balances[i].type_.code(), code) {
                assert(spec_balance_code(bals[i as int].type_) == code@);
                return Some(&self.balances[i]);
            }
            proof {
                assert(spec_balance_code(bals[i as int].type_) != code@);
            }
            i = i + 1;
        }
        None
    }

    /// The first balance tagged with the opening code, if any.
    pub fn opening_balance(&self) -> (r: Option<&Balance>)
        ensures
            match r {
                Some(b) => {
                    &&& first_balance_from(self.balances.deep_view(), opening_code(), 0)
                        matches Some(i)
                    &&& 0 <= i < self.balances@.len()
                    &&& *b == self.balances@[i]
                },
                None => first_balance_from(self.balances.deep_view(), opening_code(), 0) is None,
            },
    {
        self.balance_with_code("OPBD")
    }

    /// The first balance tagged with the closing code, if any.
    pub fn closing_balance(&self) -> (r: Option<&Balance>)
        ensures
            match r {
                Some(b) => {
                    &&& first_balance_from(self.balances.deep_view(), closing_code(), 0)
                        matches Some(i)
                    &&& 0 <= i < self.balances@.len()
                    &&& *b == self.balances@[i]
                },
                None => first_balance_from(self.balances.deep_view(), closing_code(), 0) is None,
            },
    {
        self.balance_with_code("CLBD")
    }
}

/// The statement payload: metadata and the one statement.
#[derive(Debug, Clone)]
pub struct BankToCustomerStatement {
    pub header: Header,
    pub statement: Statement,
}

pub ghost struct BankToCustomerStatementView {
    pub header: HeaderView,
    pub statement: StatementView,
}

impl DeepView for BankToCustomerStatement {
    type V = BankToCustomerStatementView;

    open spec fn deep_view(&self) -> BankToCustomerStatementView {
        BankToCustomerStatementView {
            header: self.header.deep_view(),
            statement: self.statement.deep_view(),
        }
    }
}

/// The message variant the envelope holds.
#[derive(Debug, Clone)]
pub enum Document {
    BankToCustomerStatement(BankToCustomerStatement),
}

pub ghost enum DocumentView {
    BankToCustomerStatement(BankToCustomerStatementView),
}

impl DeepView for Document {
    type V = DocumentView;

    open spec fn deep_view(&self) -> DocumentView {
        match self {
            Document::BankToCustomerStatement(s) => DocumentView::BankToCustomerStatement(
                s.deep_view(),
            ),
        }
    }
}

/// The top-level envelope.
#[derive(Debug, Clone)]
pub struct ISO20022Document {
    pub document: Document,
}

pub ghost struct ISO20022DocumentView {
    pub document: DocumentView,
}

impl DeepView for ISO20022Document {
    type V = ISO20022DocumentView;

    open spec fn deep_view(&self) -> ISO20022DocumentView {
        ISO20022DocumentView { document: self.document.deep_view() }
    }
}

} // verus!
