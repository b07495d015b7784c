use vstd::prelude::*;
use crate::dates::{parse_iso_date, parse_rfc3339, iso_date_of, rfc3339_of};
use crate::decimal::{dec_of, parse_decimal};
use crate::error::{ErrorView, ParseError};
use crate::events::{build_document, events_of, read_events, sp_document};
use crate::model::{
    AccountId, AccountIdView, AccountIdentification, AccountIdentificationView, Amount, AmountView,
    Balance, BalanceType, BalanceTypeView, BalanceView, BankToCustomerStatement,
    BankToCustomerStatementView, CodeOrPropietary, CodeOrPropietaryChoice,
    CodeOrPropietaryChoiceView, CodeOrPropietaryView, CreditOrDebit, Date, DateView, Document,
    DocumentView, Entry, EntryDetails, EntryDetailsView, EntryView, Header, HeaderView,
    ISO20022Document, ISO20022DocumentView, PartyAccount, PartyAccountView, PartyId, PartyIdView,
    RelatedParties, RelatedPartiesView, RemittanceInfo, RemittanceInfoView, Statement,
    StatementView, TransactionDetails, TransactionDetailsView,
};
use crate::xml::{XmlElement, XmlView, elem_view, empty_view, spec_attr, spec_child, str_eq};

verus! {

/// The first child carrying the tag, or an empty element where none does.
pub open spec fn child_or_empty(e: XmlView, name: Seq<char>) -> XmlView {
    match spec_child(e, name) {
        Some(c) => c,
        None => empty_view(),
    }
}

/// An `Amt` element: the `Ccy` attribute and the text's decimal value.
pub open spec fn sv_amount(e: XmlView) -> Result<AmountView, ErrorView> {
    match spec_attr(e, "Ccy"@) {
        Some(cur) => match dec_of(e.text) {
            Some(v) => Ok(AmountView { currency: cur, amount: v }),
            None => Err(ErrorView::InvalidAmount),
        },
        None => Err(ErrorView::MissingField { entity: "Amount"@, field: "Ccy"@ }),
    }
}

/// A date element: the required `Dt` child's text as a calendar date.
pub open spec fn sv_date(e: XmlView) -> Result<DateView, ErrorView> {
    match spec_child(e, "Dt"@) {
        Some(d) => match iso_date_of(d.text) {
            Some(cd) => Ok(DateView { dt: cd }),
            None => Err(ErrorView::InvalidDate),
        },
        None => Err(ErrorView::MissingField { entity: "Date"@, field: "Dt"@ }),
    }
}

/// A `CdtDbtInd` text: one of the two domain values, nothing else.
pub open spec fn sv_credit_debit(t: Seq<char>) -> Result<CreditOrDebit, ErrorView> {
    if t == "CRDT"@ {
        Ok(CreditOrDebit::Credit)
    } else if t == "DBIT"@ {
        Ok(CreditOrDebit::Debit)
    } else {
        Err(ErrorView::UnknownVariant { choice: "CdtDbtInd"@, tag: t })
    }
}

/// A `GrpHdr` element: the required `CreDtTm` child as a timestamp.
pub open spec fn sv_header(e: XmlView) -> Result<HeaderView, ErrorView> {
    match spec_child(e, "CreDtTm"@) {
        Some(c) => match rfc3339_of(c.text) {
            Some(ts) => Ok(HeaderView { creation_date: ts }),
            None => Err(ErrorView::InvalidTimestamp),
        },
        None => Err(ErrorView::MissingField { entity: "Header"@, field: "CreDtTm"@ }),
    }
}

/// A `Tp` element: the `CdOrPrtry` choice, resolved by its first child's
/// tag; only `Cd` is recognized.
pub open spec fn sv_balance_type(e: XmlView) -> Result<BalanceTypeView, ErrorView> {
    match spec_child(e, "CdOrPrtry"@) {
        Some(c) => {
            if c.children.len() == 0 {
                Err(
                    ErrorView::UnknownVariant {
                        choice: "CodeOrPropietary"@,
                        tag: Seq::empty(),
                    },
                )
            } else if c.children[0].name == "Cd"@ {
                Ok(
                    BalanceTypeView {
                        code_or_proprietary: CodeOrPropietaryChoiceView {
                            choice: CodeOrPropietaryView::Code(c.children[0].text),
                        },
                    },
                )
            } else {
                Err(
                    ErrorView::UnknownVariant {
                        choice: "CodeOrPropietary"@,
                        tag: c.children[0].name,
                    },
                )
            }
        },
        None => Err(ErrorView::MissingField { entity: "BalanceType"@, field: "CdOrPrtry"@ }),
    }
}

/// A `Bal` element.
pub open spec fn sv_balance(e: XmlView) -> Result<BalanceView, ErrorView> {
    match spec_child(e, "Tp"@) {
        Some(tp) => match sv_balance_type(tp) {
            Ok(bt) => match spec_child(e, "Amt"@) {
                Some(am) => match sv_amount(am) {
                    Ok(a) => match spec_child(e, "Dt"@) {
                        Some(dt) => match sv_date(dt) {
                            Ok(d) => match spec_child(e, "CdtDbtInd"@) {
                                Some(cd) => match sv_credit_debit(cd.text) {
                                    Ok(ind) => Ok(
                                        BalanceView {
                                            type_: bt,
                                            amount: a,
                                            date: d,
                                            credit_or_debit: ind,
                                        },
                                    ),
                                    Err(er) => Err(er),
                                },
                                None => Err(
                                    ErrorView::MissingField {
                                        entity: "Balance"@,
                                        field: "CdtDbtInd"@,
                                    },
                                ),
                            },
                            Err(er) => Err(er),
                        },
                        None => Err(
                            ErrorView::MissingField { entity: "Balance"@, field: "Dt"@ },
                        ),
                    },
                    Err(er) => Err(er),
                },
                None => Err(ErrorView::MissingField { entity: "Balance"@, field: "Amt"@ }),
            },
            Err(er) => Err(er),
        },
        None => Err(ErrorView::MissingField { entity: "Balance"@, field: "Tp"@ }),
    }
}

/// A `Nm`-carrying party element.
pub open spec fn sv_party(e: XmlView) -> Result<PartyIdView, ErrorView> {
    match spec_child(e, "Nm"@) {
        Some(n) => Ok(PartyIdView { name: n.text }),
        None => Err(ErrorView::MissingField { entity: "PartyId"@, field: "Nm"@ }),
    }
}

/// An `Id` element: the account-identification choice, resolved by its
/// first child's tag; an unrecognized scheme is kept raw.
pub open spec fn sv_account_ident(e: XmlView) -> Result<AccountIdentificationView, ErrorView> {
    if e.children.len() == 0 {
        Err(ErrorView::UnknownVariant { choice: "AccountIdentification"@, tag: Seq::empty() })
    } else if e.children[0].name == "IBAN"@ {
        Ok(AccountIdentificationView::IBAN(e.children[0].text))
    } else {
        Ok(
            AccountIdentificationView::Other {
                scheme: e.children[0].name,
                value: e.children[0].text,
            },
        )
    }
}

/// A party-account element: the required `Id` child.
pub open spec fn sv_account(e: XmlView) -> Result<PartyAccountView, ErrorView> {
    match spec_child(e, "Id"@) {
        Some(id) => match sv_account_ident(id) {
            Ok(ai) => Ok(PartyAccountView { id: AccountIdView { identification: ai } }),
            Err(er) => Err(er),
        },
        None => Err(ErrorView::MissingField { entity: "PartyAccount"@, field: "Id"@ }),
    }
}

/// A `RltdPties` element: four independently optional parts.
pub open spec fn sv_related(e: XmlView) -> Result<RelatedPartiesView, ErrorView> {
    let cr = match spec_child(e, "Cdtr"@) {
        Some(p) => match sv_party(p) {
            Ok(v) => Ok(Some(v)),
            Err(er) => Err(er),
        },
        None => Ok(None),
    };
    let cra = match spec_child(e, "CdtrAcct"@) {
        Some(a) => match sv_account(a) {
            Ok(v) => Ok(Some(v)),
            Err(er) => Err(er),
        },
        None => Ok(None),
    };
    let db = match spec_child(e, "Dbtr"@) {
        Some(p) => match sv_party(p) {
            Ok(v) => Ok(Some(v)),
            Err(er) => Err(er),
        },
        None => Ok(None),
    };
    let dba = match spec_child(e, "DbtrAcct"@) {
        Some(a) => match sv_account(a) {
            Ok(v) => Ok(Some(v)),
            Err(er) => Err(er),
        },
        None => Ok(None),
    };
    match (cr, cra, db, dba) {
        (Ok(c), Ok(ca), Ok(d), Ok(da)) => Ok(
            RelatedPartiesView {
                creditor: c,
                creditor_account: ca,
                debitor: d,
                debitor_account: da,
            },
        ),
        (Err(er), _, _, _) => Err(er),
        (_, Err(er), _, _) => Err(er),
        (_, _, Err(er), _) => Err(er),
        (_, _, _, Err(er)) => Err(er),
    }
}

/// A `RmtInf` element: the required `Ustrd` child's text.
pub open spec fn sv_rmtinf(e: XmlView) -> Result<RemittanceInfoView, ErrorView> {
    match spec_child(e, "Ustrd"@) {
        Some(u) => Ok(RemittanceInfoView { unstructured: u.text }),
        None => Err(ErrorView::MissingField { entity: "RemittanceInfo"@, field: "Ustrd"@ }),
    }
}

/// A `TxDtls` element: optional remittance text and related parties.
pub open spec fn sv_txdetails(e: XmlView) -> Result<TransactionDetailsView, ErrorView> {
    let ri = match spec_child(e, "RmtInf"@) {
        Some(r) => match sv_rmtinf(r) {
            Ok(v) => Ok(Some(v)),
            Err(er) => Err(er),
        },
        None => Ok(None),
    };
    let rp = match spec_child(e, "RltdPties"@) {
        Some(r) => match sv_related(r) {
            Ok(v) => Ok(Some(v)),
            Err(er) => Err(er),
        },
        None => Ok(None),
    };
    match (ri, rp) {
        (Ok(r), Ok(p)) => Ok(TransactionDetailsView { remittance_info: r, related_parties: p }),
        (Err(er), _) => Err(er),
        (_, Err(er)) => Err(er),
    }
}

/// An `NtryDtls` element: the required `TxDtls` child.
pub open spec fn sv_entry_details(e: XmlView) -> Result<EntryDetailsView, ErrorView> {
    match spec_child(e, "TxDtls"@) {
        Some(t) => match sv_txdetails(t) {
            Ok(v) => Ok(EntryDetailsView { transaction: v }),
            Err(er) => Err(er),
        },
        None => Err(ErrorView::MissingField { entity: "EntryDetails"@, field: "TxDtls"@ }),
    }
}

/// An `Ntry` element.
pub open spec fn sv_entry(e: XmlView) -> Result<EntryView, ErrorView> {
    match spec_child(e, "Amt"@) {
        Some(am) => match sv_amount(am) {
            Ok(a) => match spec_child(e, "CdtDbtInd"@) {
                Some(cd) => match sv_credit_debit(cd.text) {
                    Ok(ind) => match spec_child(e, "BookgDt"@) {
                        Some(bd) => match sv_date(bd) {
                            Ok(b) => match spec_child(e, "ValDt"@) {
                                Some(vd) => match sv_date(vd) {
                                    Ok(v) => match spec_child(e, "NtryDtls"@) {
                                        Some(nd) => match sv_entry_details(nd) {
                                            Ok(det) => Ok(
                                                EntryView {
                                                    amount: a,
                                                    credit_or_debit: ind,
                                                    book_date: b,
                                                    value_date: v,
                                                    details: det,
                                                    additional_info: match spec_child(
                                                        e,
                                                        "AddtlNtryInf"@,
                                                    ) {
                                                        Some(ai) => Some(ai.text),
                                                        None => None,
                                                    },
                                                },
                                            ),
                                            Err(er) => Err(er),
                                        },
                                        None => Err(
                                            ErrorView::MissingField {
                                                entity: "Entry"@,
                                                field: "NtryDtls"@,
                                            },
                                        ),
                                    },
                                    Err(er) => Err(er),
                                },
                                None => Err(
                                    ErrorView::MissingField {
                                        entity: "Entry"@,
                                        field: "ValDt"@,
                                    },
                                ),
                            },
                            Err(er) => Err(er),
                        },
                        None => Err(
                            ErrorView::MissingField { entity: "Entry"@, field: "BookgDt"@ },
                        ),
                    },
                    Err(er) => Err(er),
                },
                None => Err(
                    ErrorView::MissingField { entity: "Entry"@, field: "CdtDbtInd"@ },
                ),
            },
            Err(er) => Err(er),
        },
        None => Err(ErrorView::MissingField { entity: "Entry"@, field: "Amt"@ }),
    }
}

/// The `Bal` children at or after `from`, each mapped; the first failure
/// wins.
pub open spec fn sv_balances(cs: Seq<XmlView>, from: int) -> Result<Seq<BalanceView>, ErrorView>
    decreases cs.len() - from,
{
    if from < 0 || from >= cs.len() {
        Ok(Seq::empty())
    } else if cs[from].name == "Bal"@ {
        match sv_balance(cs[from]) {
            Ok(b) => match sv_balances(cs, from + 1) {
                Ok(rest) => Ok(seq![b] + rest),
                Err(er) => Err(er),
            },
            Err(er) => Err(er),
        }
    } else {
        sv_balances(cs, from + 1)
    }
}

/// The `Ntry` children at or after `from`, each mapped; the first failure
/// wins.
pub open spec fn sv_entries(cs: Seq<XmlView>, from: int) -> Result<Seq<EntryView>, ErrorView>
    decreases cs.len() - from,
{
    if from < 0 || from >= cs.len() {
        Ok(Seq::empty())
    } else if cs[from].name == "Ntry"@ {
        match sv_entry(cs[from]) {
            Ok(en) => match sv_entries(cs, from + 1) {
                Ok(rest) => Ok(seq![en] + rest),
                Err(er) => Err(er),
            },
            Err(er) => Err(er),
        }
    } else {
        sv_entries(cs, from + 1)
    }
}

/// A `Stmt` element: balances first, then entries; both in document order.
pub open spec fn sv_statement(e: XmlView) -> Result<StatementView, ErrorView> {
    match sv_balances(e.children, 0) {
        Ok(bals) => match sv_entries(e.children, 0) {
            Ok(ens) => Ok(StatementView { balances: bals, entries: ens }),
            Err(er) => Err(er),
        },
        Err(er) => Err(er),
    }
}

/// A `BkToCstmrStmt` element: the required `GrpHdr` and `Stmt` children.
pub open spec fn sv_b2c(e: XmlView) -> Result<BankToCustomerStatementView, ErrorView> {
    match spec_child(e, "GrpHdr"@) {
        Some(h) => match sv_header(h) {
            Ok(hd) => match spec_child(e, "Stmt"@) {
                Some(st) => match sv_statement(st) {
                    Ok(s) => Ok(BankToCustomerStatementView { header: hd, statement: s }),
                    Err(er) => Err(er),
                },
                None => Err(
                    ErrorView::MissingField {
                        entity: "BankToCustomerStatement"@,
                        field: "Stmt"@,
                    },
                ),
            },
            Err(er) => Err(er),
        },
        None => Err(
            ErrorView::MissingField { entity: "BankToCustomerStatement"@, field: "GrpHdr"@ },
        ),
    }
}

/// The whole tree: the root must be `Document`, its message variant is
/// chosen by its sole child element's tag, and only `BkToCstmrStmt` is
/// recognized; a second child element is as unrecognized as a wrong one.
pub open spec fn sv_document(root: XmlView) -> Result<ISO20022DocumentView, ErrorView> {
    if root.name != "Document"@ {
        Err(ErrorView::UnknownVariant { choice: "Document"@, tag: root.name })
    } else if root.children.len() == 0 {
        Err(ErrorView::UnknownVariant { choice: "Document"@, tag: Seq::empty() })
    } else if root.children[0].name != "BkToCstmrStmt"@ {
        Err(ErrorView::UnknownVariant { choice: "Document"@, tag: root.children[0].name })
    } else if root.children.len() > 1 {
        Err(ErrorView::UnknownVariant { choice: "Document"@, tag: root.children[1].name })
    } else {
        match sv_b2c(root.children[0]) {
            Ok(b) => Ok(
                ISO20022DocumentView { document: DocumentView::BankToCustomerStatement(b) },
            ),
            Err(er) => Err(er),
        }
    }
}

/// The children carrying the given tag at or after `from`, in document
/// order.
pub open spec fn named_from(cs: Seq<XmlView>, name: Seq<char>, from: int) -> Seq<XmlView>
    decreases cs.len() - from,
{
    if from < 0 || from >= cs.len() {
        Seq::empty()
    } else if cs[from].name == name {
        seq![cs[from]] + named_from(cs, name, from + 1)
    } else {
        named_from(cs, name, from + 1)
    }
}

/// Mapped entry runs keep document order: a successful `sv_entries` holds
/// one entry for each `Ntry` child at or after `from`, the `j`-th entry
/// being the mapping of the `j`-th such child.
pub proof fn lemma_entries_in_document_order(cs: Seq<XmlView>, from: int, ens: Seq<EntryView>)
    requires
        sv_entries(cs, from) == Ok::<Seq<EntryView>, ErrorView>(ens),
    ensures
        ens.len() == named_from(cs, "Ntry"@, from).len(),
        forall|j: int|
            0 <= j < ens.len() ==> sv_entry(named_from(cs, "Ntry"@, from)[j]) == Ok::<
                EntryView,
                ErrorView,
            >(ens[j]),
    decreases cs.len() - from,
{
    if from < 0 || from >= cs.len() {
    } else if cs[from].name == "Ntry"@ {
        match sv_entry(cs[from]) {
            Ok(en) => {
                match sv_entries(cs, from + 1) {
                    Ok(rest) => {
                        lemma_entries_in_document_order(cs, from + 1, rest);
                        let nf = named_from(cs, "Ntry"@, from);
                        let nf1 = named_from(cs, "Ntry"@, from + 1);
                        assert(nf == seq![cs[from]] + nf1);
                        assert(ens == seq![en] + rest);
                        assert forall|j: int| 0 <= j < ens.len() implies sv_entry(nf[j]) == Ok::<
                            EntryView,
                            ErrorView,
                        >(ens[j]) by {
                            if j == 0 {
                                assert(nf[0] == cs[from]);
                                assert(ens[0] == en);
                            } else {
                                assert(nf[j] == nf1[j - 1]);
                                assert(ens[j] == rest[j - 1]);
                            }
                        }
                    },
                    Err(_) => {
                        assert(false);
                    },
                }
            },
            Err(_) => {
                assert(false);
            },
        }
    } else {
        lemma_entries_in_document_order(cs, from + 1, ens);
    }
}

/// A successfully mapped statement holds exactly one entry for each `Ntry`
/// child, in document order.
pub proof fn lemma_statement_entries(e: XmlView, st: StatementView)
    requires
        sv_statement(e) == Ok::<StatementView, ErrorView>(st),
    ensures
        st.entries.len() == named_from(e.children, "Ntry"@, 0).len(),
        forall|j: int|
            0 <= j < st.entries.len() ==> sv_entry(named_from(e.children, "Ntry"@, 0)[j]) == Ok::<
                EntryView,
                ErrorView,
            >(st.entries[j]),
{
    match sv_entries(e.children, 0) {
        Ok(ens) => {
            lemma_entries_in_document_order(e.children, 0, ens);
        },
        Err(_) => {
            assert(false);
        },
    }
}

/// A document whose root wraps `BkToCstmrStmt`, whose `GrpHdr/CreDtTm`
/// holds a valid timestamp, and whose `Stmt` maps without failure, parses
/// as a whole, and the model's creation timestamp is exactly the one the
/// source text denotes, offset included.
pub proof fn lemma_parse_keeps_creation_timestamp(root: XmlView)
    requires
        root.name == "Document"@,
        root.children.len() == 1,
        root.children[0].name == "BkToCstmrStmt"@,
        spec_child(root.children[0], "GrpHdr"@) is Some,
        spec_child(child_or_empty(root.children[0], "GrpHdr"@), "CreDtTm"@) is Some,
        rfc3339_of(
            child_or_empty(child_or_empty(root.children[0], "GrpHdr"@), "CreDtTm"@).text,
        ) is Some,
        spec_child(root.children[0], "Stmt"@) is Some,
        sv_statement(child_or_empty(root.children[0], "Stmt"@)) is Ok,
    ensures
        sv_document(root) is Ok,
        sv_document(root) matches Ok(d) && (d.document matches DocumentView::BankToCustomerStatement(
            b,
        ) && Some(b.header.creation_date) == rfc3339_of(
            child_or_empty(child_or_empty(root.children[0], "GrpHdr"@), "CreDtTm"@).text,
        )),
{
}

/// A `MissingField` value naming the entity and the field.
fn mk_missing(entity: &str, field: &str) -> (r: ParseError)
    ensures
        r.deep_view() == (ErrorView::MissingField { entity: entity@, field: field@ }),
{
    ParseError::MissingField { entity: entity.to_owned(), field: field.to_owned() }
}

/// An `UnknownVariant` value naming the choice point and the offending tag.
fn mk_unknown(choice: &str, tag: String) -> (r: ParseError)
    ensures
        r.deep_view() == (ErrorView::UnknownVariant { choice: choice@, tag: tag@ }),
{
    ParseError::UnknownVariant { choice: choice.to_owned(), tag }
}

/// Maps an `Amt` element, exactly as `sv_amount` reads it.
pub fn map_amount(e: &XmlElement) -> (r: Result<Amount, ParseError>)
    ensures
        match r {
            Ok(v) => sv_amount(elem_view(*e)) == Ok::<AmountView, ErrorView>(v.deep_view()),
            Err(er) => sv_amount(elem_view(*e)) == Err::<AmountView, ErrorView>(er.deep_view()),
        },
{
    match e.find_attr("Ccy") {
        Some(cur) => match parse_decimal(e.text.as_str()) {
            Some(v) => Ok(Amount { currency: cur.clone(), amount: v }),
            None => Err(ParseError::InvalidAmount),
        },
        None => Err(mk_missing("Amount", "Ccy")),
    }
}

/// Maps a date element, exactly as `sv_date` reads it.
pub fn map_date(e: &XmlElement) -> (r: Result<Date, ParseError>)
    ensures
        match r {
            Ok(v) => sv_date(elem_view(*e)) == Ok::<DateView, ErrorView>(v.deep_view()),
            Err(er) => sv_date(elem_view(*e)) == Err::<DateView, ErrorView>(er.deep_view()),
        },
{
    match e.find_child("Dt") {
        Some(d) => match parse_iso_date(d.text.as_str()) {
            Some(cd) => Ok(Date { dt: cd }),
            None => Err(ParseError::InvalidDate),
        },
        None => Err(mk_missing("Date", "Dt")),
    }
}

/// Maps a `CdtDbtInd` text, exactly as `sv_credit_debit` reads it.
pub fn map_credit_debit(t: &str) -> (r: Result<CreditOrDebit, ParseError>)
    ensures
        match r {
            Ok(v) => sv_credit_debit(t@) == Ok::<CreditOrDebit, ErrorView>(v),
            Err(er) => sv_credit_debit(t@) == Err::<CreditOrDebit, ErrorView>(er.deep_view()),
        },
{
    if str_eq(t, "CRDT") {
        Ok(CreditOrDebit::Credit)
    } else if str_eq(t, "DBIT") {
        Ok(CreditOrDebit::Debit)
    } else {
        Err(mk_unknown("CdtDbtInd", t.to_owned()))
    }
}

/// Maps a `GrpHdr` element, exactly as `sv_header` reads it.
pub fn map_header(e: &XmlElement) -> (r: Result<Header, ParseError>)
    ensures
        match r {
            Ok(v) => sv_header(elem_view(*e)) == Ok::<HeaderView, ErrorView>(v.deep_view()),
            Err(er) => sv_header(elem_view(*e)) == Err::<HeaderView, ErrorView>(er.deep_view()),
        },
{
    match e.find_child("CreDtTm") {
        Some(c) => match parse_rfc3339(c.text.as_str()) {
            Some(ts) => Ok(Header { creation_date: ts }),
            None => Err(ParseError::InvalidTimestamp),
        },
        None => Err(mk_missing("Header", "CreDtTm")),
    }
}

/// Maps a `Tp` element, exactly as `sv_balance_type` reads it.
pub fn map_balance_type(e: &XmlElement) -> (r: Result<BalanceType, ParseError>)
    ensures
        match r {
            Ok(v) => sv_balance_type(elem_view(*e)) == Ok::<BalanceTypeView, ErrorView>(
                v.deep_view(),
            ),
            Err(er) => sv_balance_type(elem_view(*e)) == Err::<BalanceTypeView, ErrorView>(
                er.deep_view(),
            ),
        },
{
    match e.find_child("CdOrPrtry") {
        Some(c) => {
            if c.children.len() == 0 {
                Err(mk_unknown("CodeOrPropietary", String::new()))
            } else {
                let ch = &c.children[0];
                proof {
                    assert(elem_view(*c).children[0] == elem_view(c.children@[0]));
                }
                if str_eq(ch.name.as_str(), "Cd") {
                    Ok(
                        BalanceType {
                            code_or_proprietary: CodeOrPropietaryChoice {
                                choice: CodeOrPropietary::Code(ch.text.clone()),
                            },
                        },
                    )
                } else {
                    Err(mk_unknown("CodeOrPropietary", ch.name.clone()))
                }
            }
        },
        None => Err(mk_missing("BalanceType", "CdOrPrtry")),
    }
}

/// Maps a `Bal` element, exactly as `sv_balance` reads it.
pub fn map_balance(e: &XmlElement) -> (r: Result<Balance, ParseError>)
    ensures
        match r {
            Ok(v) => sv_balance(elem_view(*e)) == Ok::<BalanceView, ErrorView>(v.deep_view()),
            Err(er) => sv_balance(elem_view(*e)) == Err::<BalanceView, ErrorView>(er.deep_view()),
        },
{
    let tp = match e.find_child("Tp") {
        Some(t) => t,
        None => {
            return Err(mk_missing("Balance", "Tp"));
        },
    };
    let bt = match map_balance_type(tp) {
        Ok(v) => v,
        Err(er) => {
            return Err(er);
        },
    };
    let am = match e.find_child("Amt") {
        Some(a) => a,
        None => {
            return Err(mk_missing("Balance", "Amt"));
        },
    };
    let a = match map_amount(am) {
        Ok(v) => v,
        Err(er) => {
            return Err(er);
        },
    };
    let dt = match e.find_child("Dt") {
        Some(d) => d,
        None => {
            return Err(mk_missing("Balance", "Dt"));
        },
    };
    let d = match map_date(dt) {
        Ok(v) => v,
        Err(er) => {
            return Err(er);
        },
    };
    let cd = match e.find_child("CdtDbtInd") {
        Some(c) => c,
        None => {
            return Err(mk_missing("Balance", "CdtDbtInd"));
        },
    };
    let ind = match map_credit_debit(cd.text.as_str()) {
        Ok(v) => v,
        Err(er) => {
            return Err(er);
        },
    };
    Ok(Balance { type_: bt, amount: a, date: d, credit_or_debit: ind })
}

/// Maps a party element, exactly as `sv_party` reads it.
pub fn map_party(e: &XmlElement) -> (r: Result<PartyId, ParseError>)
    ensures
        match r {
            Ok(v) => sv_party(elem_view(*e)) == Ok::<PartyIdView, ErrorView>(v.deep_view()),
            Err(er) => sv_party(elem_view(*e)) == Err::<PartyIdView, ErrorView>(er.deep_view()),
        },
{
    match e.find_child("Nm") {
        Some(n) => Ok(PartyId { name: n.text.clone() }),
        None => Err(mk_missing("PartyId", "Nm")),
    }
}

/// Maps an `Id` element, exactly as `sv_account_ident` reads it.
pub fn map_account_ident(e: &XmlElement) -> (r: Result<AccountIdentification, ParseError>)
    ensures
        match r {
            Ok(v) => sv_account_ident(elem_view(*e)) == Ok::<
                AccountIdentificationView,
                ErrorView,
            >(v.deep_view()),
            Err(er) => sv_account_ident(elem_view(*e)) == Err::<
                AccountIdentificationView,
                ErrorView,
            >(er.deep_view()),
        },
{
    if e.children.len() == 0 {
        Err(mk_unknown("AccountIdentification", String::new()))
    } else {
        let ch = &e.children[0];
        proof {
            assert(elem_view(*e).children[0] == elem_view(e.children@[0]));
        }
        if str_eq(ch.name.as_str(), "IBAN") {
            Ok(AccountIdentification::IBAN(ch.text.clone()))
        } else {
            Ok(AccountIdentification::Other { scheme: ch.name.clone(), value: ch.text.clone() })
        }
    }
}

/// Maps a party-account element, exactly as `sv_account` reads it.
pub fn map_account(e: &XmlElement) -> (r: Result<PartyAccount, ParseError>)
    ensures
        match r {
            Ok(v) => sv_account(elem_view(*e)) == Ok::<PartyAccountView, ErrorView>(v.deep_view()),
            Err(er) => sv_account(elem_view(*e)) == Err::<PartyAccountView, ErrorView>(
                er.deep_view(),
            ),
        },
{
    match e.find_child("Id") {
        Some(id) => match map_account_ident(id) {
            Ok(ai) => Ok(PartyAccount { id: AccountId { identification: ai } }),
            Err(er) => Err(er),
        },
        None => Err(mk_missing("PartyAccount", "Id")),
    }
}

/// Maps a `RltdPties` element, exactly as `sv_related` reads it.
pub fn map_related(e: &XmlElement) -> (r: Result<RelatedParties, ParseError>)
    ensures
        match r {
            Ok(v) => sv_related(elem_view(*e)) == Ok::<RelatedPartiesView, ErrorView>(
                v.deep_view(),
            ),
            Err(er) => sv_related(elem_view(*e)) == Err::<RelatedPartiesView, ErrorView>(
                er.deep_view(),
            ),
        },
{
    let creditor = match e.find_child("Cdtr") {
        Some(p) => match map_party(p) {
            Ok(v) => Some(v),
            Err(er) => {
                return Err(er);
            },
        },
        None => None,
    };
    let creditor_account = match e.find_child("CdtrAcct") {
        Some(a) => match map_account(a) {
            Ok(v) => Some(v),
            Err(er) => {
                return Err(er);
            },
        },
        None => None,
    };
    let debitor = match e.find_child("Dbtr") {
        Some(p) => match map_party(p) {
            Ok(v) => Some(v),
            Err(er) => {
                return Err(er);
            },
        },
        None => None,
    };
    let debitor_account = match e.find_child("DbtrAcct") {
        Some(a) => match map_account(a) {
            Ok(v) => Some(v),
            Err(er) => {
                return Err(er);
            },
        },
        None => None,
    };
    Ok(RelatedParties { creditor, creditor_account, debitor, debitor_account })
}

/// Maps a `RmtInf` element, exactly as `sv_rmtinf` reads it.
pub fn map_rmtinf(e: &XmlElement) -> (r: Result<RemittanceInfo, ParseError>)
    ensures
        match r {
            Ok(v) => sv_rmtinf(elem_view(*e)) == Ok::<RemittanceInfoView, ErrorView>(
                v.deep_view(),
            ),
            Err(er) => sv_rmtinf(elem_view(*e)) == Err::<RemittanceInfoView, ErrorView>(
                er.deep_view(),
            ),
        },
{
    match e.find_child("Ustrd") {
        Some(u) => Ok(RemittanceInfo { unstructured: u.text.clone() }),
        None => Err(mk_missing("RemittanceInfo", "Ustrd")),
    }
}

/// Maps a `TxDtls` element, exactly as `sv_txdetails` reads it.
pub fn map_txdetails(e: &XmlElement) -> (r: Result<TransactionDetails, ParseError>)
    ensures
        match r {
            Ok(v) => sv_txdetails(elem_view(*e)) == Ok::<TransactionDetailsView, ErrorView>(
                v.deep_view(),
            ),
            Err(er) => sv_txdetails(elem_view(*e)) == Err::<TransactionDetailsView, ErrorView>(
                er.deep_view(),
            ),
        },
{
    let remittance_info = match e.find_child("RmtInf") {
        Some(ri) => match map_rmtinf(ri) {
            Ok(v) => Some(v),
            Err(er) => {
                return Err(er);
            },
        },
        None => None,
    };
    let related_parties = match e.find_child("RltdPties") {
        Some(rp) => match map_related(rp) {
            Ok(v) => Some(v),
            Err(er) => {
                return Err(er);
            },
        },
        None => None,
    };
    Ok(TransactionDetails { remittance_info, related_parties })
}

/// Maps an `NtryDtls` element, exactly as `sv_entry_details` reads it.
pub fn map_entry_details(e: &XmlElement) -> (r: Result<EntryDetails, ParseError>)
    ensures
        match r {
            Ok(v) => sv_entry_details(elem_view(*e)) == Ok::<EntryDetailsView, ErrorView>(
                v.deep_view(),
            ),
            Err(er) => sv_entry_details(elem_view(*e)) == Err::<EntryDetailsView, ErrorView>(
                er.deep_view(),
            ),
        },
{
    match e.find_child("TxDtls") {
        Some(t) => match map_txdetails(t) {
            Ok(v) => Ok(EntryDetails { transaction: v }),
            Err(er) => Err(er),
        },
        None => Err(mk_missing("EntryDetails", "TxDtls")),
    }
}

/// Maps an `Ntry` element, exactly as `sv_entry` reads it.
pub fn map_entry(e: &XmlElement) -> (r: Result<Entry, ParseError>)
    ensures
        match r {
            Ok(v) => sv_entry(elem_view(*e)) == Ok::<EntryView, ErrorView>(v.deep_view()),
            Err(er) => sv_entry(elem_view(*e)) == Err::<EntryView, ErrorView>(er.deep_view()),
        },
{
    let am = match e.find_child("Amt") {
        Some(a) => a,
        None => {
            return Err(mk_missing("Entry", "Amt"));
        },
    };
    let a = match map_amount(am) {
        Ok(v) => v,
        Err(er) => {
            return Err(er);
        },
    };
    let cd = match e.find_child("CdtDbtInd") {
        Some(c) => c,
        None => {
            return Err(mk_missing("Entry", "CdtDbtInd"));
        },
    };
    let ind = match map_credit_debit(cd.text.as_str()) {
        Ok(v) => v,
        Err(er) => {
            return Err(er);
        },
    };
    let bd = match e.find_child("BookgDt") {
        Some(b) => b,
        None => {
            return Err(mk_missing("Entry", "BookgDt"));
        },
    };
    let b = match map_date(bd) {
        Ok(v) => v,
        Err(er) => {
            return Err(er);
        },
    };
    let vd = match e.find_child("ValDt") {
        Some(v) => v,
        None => {
            return Err(mk_missing("Entry", "ValDt"));
        },
    };
    let v = match map_date(vd) {
        Ok(x) => x,
        Err(er) => {
            return Err(er);
        },
    };
    let nd = match e.find_child("NtryDtls") {
        Some(n) => n,
        None => {
            return Err(mk_missing("Entry", "NtryDtls"));
        },
    };
    let det = match map_entry_details(nd) {
        Ok(x) => x,
        Err(er) => {
            return Err(er);
        },
    };
    let additional_info = match e.find_child("AddtlNtryInf") {
        Some(ai) => Some(ai.text.clone()),
        None => None,
    };
    Ok(
        Entry {
            amount: a,
            credit_or_debit: ind,
            book_date: b,
            value_date: v,
            details: det,
            additional_info,
        },
    )
}

/// Maps every `Bal` child of a `Stmt` element, in document order.
pub fn map_balances(e: &XmlElement) -> (r: Result<Vec<Balance>, ParseError>)
    ensures
        match r {
            Ok(v) => sv_balances(elem_view(*e).children, 0) == Ok::<Seq<BalanceView>, ErrorView>(
                v.deep_view(),
            ),
            Err(er) => sv_balances(elem_view(*e).children, 0) == Err::<
                Seq<BalanceView>,
                ErrorView,
            >(er.deep_view()),
        },
{
    let ghost cs = elem_view(*e).children;
    let mut out: Vec<Balance> = Vec::new();
    let mut i: usize = 0;
    while i < e.children.len()
        invariant
            0 <= i <= e.children@.len(),
            cs == elem_view(*e).children,
            cs.len() == e.children@.len(),
            match sv_balances(cs, i as int) {
                Ok(rest) => sv_balances(cs, 0) == Ok::<Seq<BalanceView>, ErrorView>(
                    out.deep_view() + rest,
                ),
                Err(er) => sv_balances(cs, 0) == Err::<Seq<BalanceView>, ErrorView>(er),
            },
        decreases e.children@.len() - i,
    {
        let c = &e.children[i];
        proof {
            assert(cs[i as int] == elem_view(e.children@[i as int]));
        }
        if str_eq(c.name.as_str(), "Bal") {
            match map_balance(c) {
                Ok(b) => {
                    let ghost prev = out.deep_view();
                    out.push(b);
                    proof {
                        assert(out.deep_view() =~= prev.push(b.deep_view()));
                        assert forall|rest: Seq<BalanceView>|
                            true implies prev + (seq![b.deep_view()] + rest) =~= out.deep_view()
                            + rest by {}
                    }
                },
                Err(er) => {
                    return Err(er);
                },
            }
        }
        i = i + 1;
    }
    proof {
        assert(out.deep_view() + Seq::<BalanceView>::empty() =~= out.deep_view());
    }
    Ok(out)
}

/// Maps every `Ntry` child of a `Stmt` element, in document order.
pub fn map_entries(e: &XmlElement) -> (r: Result<Vec<Entry>, ParseError>)
    ensures
        match r {
            Ok(v) => sv_entries(elem_view(*e).children, 0) == Ok::<Seq<EntryView>, ErrorView>(
                v.deep_view(),
            ),
            Err(er) => sv_entries(elem_view(*e).children, 0) == Err::<Seq<EntryView>, ErrorView>(
                er.deep_view(),
            ),
        },
{
    let ghost cs = elem_view(*e).children;
    let mut out: Vec<Entry> = Vec::new();
    let mut i: usize = 0;
    while i < e.children.len()
        invariant
            0 <= i <= e.children@.len(),
            cs == elem_view(*e).children,
            cs.len() == e.children@.len(),
            match sv_entries(cs, i as int) {
                Ok(rest) => sv_entries(cs, 0) == Ok::<Seq<EntryView>, ErrorView>(
                    out.deep_view() + rest,
                ),
                Err(er) => sv_entries(cs, 0) == Err::<Seq<EntryView>, ErrorView>(er),
            },
        decreases e.children@.len() - i,
    {
        let c = &e.children[i];
        proof {
            assert(cs[i as int] == elem_view(e.children@[i as int]));
        }
        if str_eq(c.name.as_str(), "Ntry") {
            match map_entry(c) {
                Ok(en) => {
                    let ghost prev = out.deep_view();
                    out.push(en);
                    proof {
                        assert(out.deep_view() =~= prev.push(en.deep_view()));
                        assert forall|rest: Seq<EntryView>|
                            true implies prev + (seq![en.deep_view()] + rest) =~= out.deep_view()
                            + rest by {}
                    }
                },
                Err(er) => {
                    return Err(er);
                },
            }
        }
        i = i + 1;
    }
    proof {
        assert(out.deep_view() + Seq::<EntryView>::empty() =~= out.deep_view());
    }
    Ok(out)
}

/// Maps a `Stmt` element, exactly as `sv_statement` reads it.
pub fn map_statement(e: &XmlElement) -> (r: Result<Statement, ParseError>)
    ensures
        match r {
            Ok(v) => sv_statement(elem_view(*e)) == Ok::<StatementView, ErrorView>(v.deep_view()),
            Err(er) => sv_statement(elem_view(*e)) == Err::<StatementView, ErrorView>(
                er.deep_view(),
            ),
        },
{
    match map_balances(e) {
        Ok(balances) => match map_entries(e) {
            Ok(entries) => Ok(Statement { balances, entries }),
            Err(er) => Err(er),
        },
        Err(er) => Err(er),
    }
}

/// Maps a `BkToCstmrStmt` element, exactly as `sv_b2c` reads it.
pub fn map_b2c(e: &XmlElement) -> (r: Result<BankToCustomerStatement, ParseError>)
    ensures
        match r {
            Ok(v) => sv_b2c(elem_view(*e)) == Ok::<BankToCustomerStatementView, ErrorView>(
                v.deep_view(),
            ),
            Err(er) => sv_b2c(elem_view(*e)) == Err::<BankToCustomerStatementView, ErrorView>(
                er.deep_view(),
            ),
        },
{
    match e.find_child("GrpHdr") {
        Some(h) => match map_header(h) {
            Ok(hd) => match e.find_child("Stmt") {
                Some(st) => match map_statement(st) {
                    Ok(s) => Ok(BankToCustomerStatement { header: hd, statement: s }),
                    Err(er) => Err(er),
                },
                None => Err(mk_missing("BankToCustomerStatement", "Stmt")),
            },
            Err(er) => Err(er),
        },
        None => Err(mk_missing("BankToCustomerStatement", "GrpHdr")),
    }
}

/// Maps the whole tree, exactly as `sv_document` reads it.
pub fn map_document(root: &XmlElement) -> (r: Result<ISO20022Document, ParseError>)
    ensures
        match r {
            Ok(v) => sv_document(elem_view(*root)) == Ok::<ISO20022DocumentView, ErrorView>(
                v.deep_view(),
            ),
            Err(er) => sv_document(elem_view(*root)) == Err::<ISO20022DocumentView, ErrorView>(
                er.deep_view(),
            ),
        },
{
    if !str_eq(root.name.as_str(), "Document") {
        return Err(mk_unknown("Document", root.name.clone()));
    }
    if root.children.len() == 0 {
        return Err(mk_unknown("Document", String::new()));
    }
    let ch = &root.children[0];
    proof {
        assert(elem_view(*root).children[0] == elem_view(root.children@[0]));
    }
    if str_eq(ch.name.as_str(), "BkToCstmrStmt") {
        if root.children.len() > 1 {
            proof {
                assert(elem_view(*root).children[1] == elem_view(root.children@[1]));
            }
            return Err(mk_unknown("Document", root.children[1].name.clone()));
        }
        match map_b2c(ch) {
            Ok(b) => Ok(ISO20022Document { document: Document::BankToCustomerStatement(b) }),
            Err(er) => Err(er),
        }
    } else {
        Err(mk_unknown("Document", ch.name.clone()))
    }
}

impl ISO20022Document {
    /// Parses one XML text into the typed model, or the first failure: a
    /// pure function of the input.  The text's event run (`events_of`) is
    /// read as one element tree (`sp_document`) and mapped onto the model
    /// (`sv_document`); a fault of the tokenizer or an ill-formed tree is
    /// `MalformedXml`, and otherwise the result is exactly what the
    /// mapping gives.
    pub fn from_str(document: &str) -> (r: Result<ISO20022Document, ParseError>)
        ensures
            ({
                let (evs, ok) = events_of(document@);
                if !ok {
                    r matches Err(e) && e.deep_view() == ErrorView::MalformedXml
                } else {
                    match sp_document(evs) {
                        None => r matches Err(e) && e.deep_view() == ErrorView::MalformedXml,
                        Some(v) => match sv_document(v) {
                            Ok(d) => r matches Ok(m) && m.deep_view() == d,
                            Err(er) => r matches Err(e) && e.deep_view() == er,
                        },
                    }
                }
            }),
    {
        match read_events(document) {
            Ok(evs) => match build_document(&evs) {
                Ok(root) => map_document(&root),
                Err(er) => Err(er),
            },
            Err(er) => Err(er),
        }
    }
}


} // verus!
