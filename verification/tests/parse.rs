use camt053::{
    AccountIdentification, CreditOrDebit, Document, ISO20022Document, ParseError,
};
use camt053::decimal::parse_decimal;

fn full_doc() -> &'static str {
    r#"<?xml version="1.0" encoding="UTF-8"?>
<Document>
  <BkToCstmrStmt>
    <GrpHdr><CreDtTm>2023-04-05T10:15:30+02:00</CreDtTm></GrpHdr>
    <Stmt>
      <Bal>
        <Tp><CdOrPrtry><Cd>OPBD</Cd></CdOrPrtry></Tp>
        <Amt Ccy="EUR">100.00</Amt>
        <Dt><Dt>2023-04-01</Dt></Dt>
        <CdtDbtInd>CRDT</CdtDbtInd>
      </Bal>
      <Bal>
        <Tp><CdOrPrtry><Cd>CLBD</Cd></CdOrPrtry></Tp>
        <Amt Ccy="EUR">223.45</Amt>
        <Dt><Dt>2023-04-30</Dt></Dt>
        <CdtDbtInd>CRDT</CdtDbtInd>
      </Bal>
      <Ntry>
        <Amt Ccy="EUR">123.45</Amt>
        <CdtDbtInd>CRDT</CdtDbtInd>
        <BookgDt><Dt>2023-04-02</Dt></BookgDt>
        <ValDt><Dt>2023-04-03</Dt></ValDt>
        <NtryDtls><TxDtls>
          <RmtInf><Ustrd>Invoice 100</Ustrd></RmtInf>
          <RltdPties><Cdtr><Nm>ACME</Nm></Cdtr></RltdPties>
        </TxDtls></NtryDtls>
        <AddtlNtryInf>monthly invoice</AddtlNtryInf>
      </Ntry>
      <Ntry>
        <Amt Ccy="USD">7.50</Amt>
        <CdtDbtInd>DBIT</CdtDbtInd>
        <BookgDt><Dt>2023-04-10</Dt></BookgDt>
        <ValDt><Dt>2023-04-10</Dt></ValDt>
        <NtryDtls><TxDtls>
          <RltdPties>
            <Dbtr><Nm>Jo Doe</Nm></Dbtr>
            <DbtrAcct><Id><IBAN>DE02120300000000202051</IBAN></Id></DbtrAcct>
          </RltdPties>
        </TxDtls></NtryDtls>
      </Ntry>
    </Stmt>
  </BkToCstmrStmt>
</Document>"#
}

#[test]
fn creation_timestamp_is_kept_with_offset() {
    let d = ISO20022Document::from_str(full_doc()).unwrap();
    let Document::BankToCustomerStatement(s) = d.document;
    let ts = s.header.creation_date;
    assert_eq!(ts.year, 2023);
    assert_eq!(ts.month, 4);
    assert_eq!(ts.day, 5);
    assert_eq!(ts.hour, 10);
    assert_eq!(ts.minute, 15);
    assert_eq!(ts.second, 30);
    assert_eq!(ts.offset_seconds, 2 * 3600);
}

#[test]
fn entries_keep_length_and_document_order() {
    let d = ISO20022Document::from_str(full_doc()).unwrap();
    let Document::BankToCustomerStatement(s) = d.document;
    let entries = &s.statement.entries;
    assert_eq!(entries.len(), 2);
    assert_eq!(entries[0].amount.currency, "EUR");
    assert_eq!(entries[0].credit_or_debit, CreditOrDebit::Credit);
    assert_eq!(entries[1].amount.currency, "USD");
    assert_eq!(entries[1].credit_or_debit, CreditOrDebit::Debit);
    assert_eq!(entries[0].book_date.dt.day, 2);
    assert_eq!(entries[1].book_date.dt.day, 10);
}

#[test]
fn opening_and_closing_balance_pick_by_code() {
    let d = ISO20022Document::from_str(full_doc()).unwrap();
    let Document::BankToCustomerStatement(s) = d.document;
    let ob = s.statement.opening_balance().unwrap();
    assert_eq!(ob.type_.code(), "OPBD");
    assert_eq!(ob.amount.amount.mantissa, 10000);
    let cb = s.statement.closing_balance().unwrap();
    assert_eq!(cb.type_.code(), "CLBD");
    assert_eq!(cb.date.dt.day, 30);
}

#[test]
fn opening_balance_absent_when_no_opening_code() {
    let text = r#"<Document><BkToCstmrStmt>
        <GrpHdr><CreDtTm>2023-04-05T10:15:30Z</CreDtTm></GrpHdr>
        <Stmt>
          <Bal>
            <Tp><CdOrPrtry><Cd>CLBD</Cd></CdOrPrtry></Tp>
            <Amt Ccy="EUR">1.00</Amt>
            <Dt><Dt>2023-04-30</Dt></Dt>
            <CdtDbtInd>DBIT</CdtDbtInd>
          </Bal>
        </Stmt>
    </BkToCstmrStmt></Document>"#;
    let d = ISO20022Document::from_str(text).unwrap();
    let Document::BankToCustomerStatement(s) = d.document;
    assert!(s.statement.opening_balance().is_none());
    assert!(s.statement.closing_balance().is_some());
}

#[test]
fn opening_balance_takes_first_of_several() {
    let text = r#"<Document><BkToCstmrStmt>
        <GrpHdr><CreDtTm>2023-04-05T10:15:30Z</CreDtTm></GrpHdr>
        <Stmt>
          <Bal>
            <Tp><CdOrPrtry><Cd>OPBD</Cd></CdOrPrtry></Tp>
            <Amt Ccy="EUR">1.00</Amt>
            <Dt><Dt>2023-04-01</Dt></Dt>
            <CdtDbtInd>CRDT</CdtDbtInd>
          </Bal>
          <Bal>
            <Tp><CdOrPrtry><Cd>OPBD</Cd></CdOrPrtry></Tp>
            <Amt Ccy="EUR">2.00</Amt>
            <Dt><Dt>2023-04-02</Dt></Dt>
            <CdtDbtInd>CRDT</CdtDbtInd>
          </Bal>
        </Stmt>
    </BkToCstmrStmt></Document>"#;
    let d = ISO20022Document::from_str(text).unwrap();
    let Document::BankToCustomerStatement(s) = d.document;
    let ob = s.statement.opening_balance().unwrap();
    assert_eq!(ob.amount.amount.mantissa, 100);
}

#[test]
fn amount_parses_currency_and_value() {
    let d = ISO20022Document::from_str(full_doc()).unwrap();
    let Document::BankToCustomerStatement(s) = d.document;
    let a = &s.statement.entries[0].amount;
    assert_eq!(a.currency, "EUR");
    assert_eq!(a.amount.mantissa, 12345);
    assert_eq!(a.amount.scale, 2);
    assert!(!a.amount.negative);
}

#[test]
fn unknown_root_variant_is_refused() {
    let text = r#"<Document><UnknownMsg><X>1</X></UnknownMsg></Document>"#;
    let e = ISO20022Document::from_str(text).unwrap_err();
    match e {
        ParseError::UnknownVariant { choice, tag } => {
            assert_eq!(choice, "Document");
            assert_eq!(tag, "UnknownMsg");
        },
        other => panic!("expected UnknownVariant, got {:?}", other),
    }
}

#[test]
fn missing_booking_date_is_refused_by_name() {
    let text = r#"<Document><BkToCstmrStmt>
        <GrpHdr><CreDtTm>2023-04-05T10:15:30Z</CreDtTm></GrpHdr>
        <Stmt>
          <Ntry>
            <Amt Ccy="EUR">1.00</Amt>
            <CdtDbtInd>CRDT</CdtDbtInd>
            <ValDt><Dt>2023-04-03</Dt></ValDt>
            <NtryDtls><TxDtls></TxDtls></NtryDtls>
          </Ntry>
        </Stmt>
    </BkToCstmrStmt></Document>"#;
    let e = ISO20022Document::from_str(text).unwrap_err();
    match e {
        ParseError::MissingField { entity, field } => {
            assert_eq!(entity, "Entry");
            assert_eq!(field, "BookgDt");
        },
        other => panic!("expected MissingField, got {:?}", other),
    }
}

#[test]
fn creditor_without_account_parses() {
    let text = r#"<Document><BkToCstmrStmt>
        <GrpHdr><CreDtTm>2023-04-05T10:15:30Z</CreDtTm></GrpHdr>
        <Stmt>
          <Ntry>
            <Amt Ccy="EUR">50.00</Amt>
            <CdtDbtInd>CRDT</CdtDbtInd>
            <BookgDt><Dt>2023-04-02</Dt></BookgDt>
            <ValDt><Dt>2023-04-03</Dt></ValDt>
            <NtryDtls><TxDtls>
              <RmtInf><Ustrd>Invoice 100</Ustrd></RmtInf>
              <RltdPties><Cdtr><Nm>ACME</Nm></Cdtr></RltdPties>
            </TxDtls></NtryDtls>
          </Ntry>
        </Stmt>
    </BkToCstmrStmt></Document>"#;
    let d = ISO20022Document::from_str(text).unwrap();
    let Document::BankToCustomerStatement(s) = d.document;
    let entry = &s.statement.entries[0];
    assert_eq!(entry.credit_or_debit, CreditOrDebit::Credit);
    let tx = &entry.details.transaction;
    assert_eq!(tx.remittance_info.as_ref().unwrap().unstructured, "Invoice 100");
    let related = tx.related_parties.as_ref().unwrap();
    assert_eq!(related.creditor.as_ref().unwrap().name, "ACME");
    assert!(related.creditor_account.is_none());
    assert!(related.debitor.is_none());
    assert!(related.debitor_account.is_none());
}

#[test]
fn iban_and_unrecognized_scheme() {
    let d = ISO20022Document::from_str(full_doc()).unwrap();
    let Document::BankToCustomerStatement(s) = d.document;
    let related = s.statement.entries[1]
        .details
        .transaction
        .related_parties
        .as_ref()
        .unwrap();
    let acct = related.debitor_account.as_ref().unwrap();
    match &acct.id.identification {
        AccountIdentification::IBAN(v) => assert_eq!(v, "DE02120300000000202051"),
        other => panic!("expected IBAN, got {:?}", other),
    }

    let text = r#"<Document><BkToCstmrStmt>
        <GrpHdr><CreDtTm>2023-04-05T10:15:30Z</CreDtTm></GrpHdr>
        <Stmt>
          <Ntry>
            <Amt Ccy="EUR">1.00</Amt>
            <CdtDbtInd>DBIT</CdtDbtInd>
            <BookgDt><Dt>2023-04-02</Dt></BookgDt>
            <ValDt><Dt>2023-04-03</Dt></ValDt>
            <NtryDtls><TxDtls>
              <RltdPties>
                <Dbtr><Nm>Jo</Nm></Dbtr>
                <DbtrAcct><Id><BBAN>12345</BBAN></Id></DbtrAcct>
              </RltdPties>
            </TxDtls></NtryDtls>
          </Ntry>
        </Stmt>
    </BkToCstmrStmt></Document>"#;
    let d2 = ISO20022Document::from_str(text).unwrap();
    let Document::BankToCustomerStatement(s2) = d2.document;
    let rel2 = s2.statement.entries[0]
        .details
        .transaction
        .related_parties
        .as_ref()
        .unwrap();
    match &rel2.debitor_account.as_ref().unwrap().id.identification {
        AccountIdentification::Other { scheme, value } => {
            assert_eq!(scheme, "BBAN");
            assert_eq!(value, "12345");
        },
        other => panic!("expected Other, got {:?}", other),
    }
}

#[test]
fn invalid_amount_text_is_refused() {
    let text = r#"<Document><BkToCstmrStmt>
        <GrpHdr><CreDtTm>2023-04-05T10:15:30Z</CreDtTm></GrpHdr>
        <Stmt>
          <Bal>
            <Tp><CdOrPrtry><Cd>OPBD</Cd></CdOrPrtry></Tp>
            <Amt Ccy="EUR">abc</Amt>
            <Dt><Dt>2023-04-01</Dt></Dt>
            <CdtDbtInd>CRDT</CdtDbtInd>
          </Bal>
        </Stmt>
    </BkToCstmrStmt></Document>"#;
    assert!(matches!(
        ISO20022Document::from_str(text),
        Err(ParseError::InvalidAmount)
    ));
}

#[test]
fn invalid_date_text_is_refused() {
    let text = r#"<Document><BkToCstmrStmt>
        <GrpHdr><CreDtTm>2023-04-05T10:15:30Z</CreDtTm></GrpHdr>
        <Stmt>
          <Ntry>
            <Amt Ccy="EUR">1.00</Amt>
            <CdtDbtInd>CRDT</CdtDbtInd>
            <BookgDt><Dt>2023-13-40</Dt></BookgDt>
            <ValDt><Dt>2023-04-03</Dt></ValDt>
            <NtryDtls><TxDtls></TxDtls></NtryDtls>
          </Ntry>
        </Stmt>
    </BkToCstmrStmt></Document>"#;
    assert!(matches!(
        ISO20022Document::from_str(text),
        Err(ParseError::InvalidDate)
    ));
}

#[test]
fn invalid_timestamp_text_is_refused() {
    let text = r#"<Document><BkToCstmrStmt>
        <GrpHdr><CreDtTm>yesterday</CreDtTm></GrpHdr>
        <Stmt></Stmt>
    </BkToCstmrStmt></Document>"#;
    assert!(matches!(
        ISO20022Document::from_str(text),
        Err(ParseError::InvalidTimestamp)
    ));
}

#[test]
fn missing_currency_attribute_is_refused() {
    let text = r#"<Document><BkToCstmrStmt>
        <GrpHdr><CreDtTm>2023-04-05T10:15:30Z</CreDtTm></GrpHdr>
        <Stmt>
          <Ntry>
            <Amt>1.00</Amt>
            <CdtDbtInd>CRDT</CdtDbtInd>
            <BookgDt><Dt>2023-04-02</Dt></BookgDt>
            <ValDt><Dt>2023-04-03</Dt></ValDt>
            <NtryDtls><TxDtls></TxDtls></NtryDtls>
          </Ntry>
        </Stmt>
    </BkToCstmrStmt></Document>"#;
    let e = ISO20022Document::from_str(text).unwrap_err();
    match e {
        ParseError::MissingField { entity, field } => {
            assert_eq!(entity, "Amount");
            assert_eq!(field, "Ccy");
        },
        other => panic!("expected MissingField, got {:?}", other),
    }
}

#[test]
fn unknown_credit_debit_text_is_refused() {
    let text = r#"<Document><BkToCstmrStmt>
        <GrpHdr><CreDtTm>2023-04-05T10:15:30Z</CreDtTm></GrpHdr>
        <Stmt>
          <Ntry>
            <Amt Ccy="EUR">1.00</Amt>
            <CdtDbtInd>MAYBE</CdtDbtInd>
            <BookgDt><Dt>2023-04-02</Dt></BookgDt>
            <ValDt><Dt>2023-04-03</Dt></ValDt>
            <NtryDtls><TxDtls></TxDtls></NtryDtls>
          </Ntry>
        </Stmt>
    </BkToCstmrStmt></Document>"#;
    let e = ISO20022Document::from_str(text).unwrap_err();
    match e {
        ParseError::UnknownVariant { choice, tag } => {
            assert_eq!(choice, "CdtDbtInd");
            assert_eq!(tag, "MAYBE");
        },
        other => panic!("expected UnknownVariant, got {:?}", other),
    }
}

#[test]
fn unknown_balance_type_choice_is_refused() {
    let text = r#"<Document><BkToCstmrStmt>
        <GrpHdr><CreDtTm>2023-04-05T10:15:30Z</CreDtTm></GrpHdr>
        <Stmt>
          <Bal>
            <Tp><CdOrPrtry><Prtry>XYZ</Prtry></CdOrPrtry></Tp>
            <Amt Ccy="EUR">1.00</Amt>
            <Dt><Dt>2023-04-01</Dt></Dt>
            <CdtDbtInd>CRDT</CdtDbtInd>
          </Bal>
        </Stmt>
    </BkToCstmrStmt></Document>"#;
    let e = ISO20022Document::from_str(text).unwrap_err();
    match e {
        ParseError::UnknownVariant { choice, tag } => {
            assert_eq!(choice, "CodeOrPropietary");
            assert_eq!(tag, "Prtry");
        },
        other => panic!("expected UnknownVariant, got {:?}", other),
    }
}

#[test]
fn malformed_xml_is_refused() {
    assert!(matches!(
        ISO20022Document::from_str("<Document><BkToCstmrStmt></Document>"),
        Err(ParseError::MalformedXml)
    ));
    assert!(matches!(
        ISO20022Document::from_str("no xml at all"),
        Err(ParseError::MalformedXml)
    ));
}

#[test]
fn escaped_text_is_unescaped() {
    let text = r#"<Document><BkToCstmrStmt>
        <GrpHdr><CreDtTm>2023-04-05T10:15:30Z</CreDtTm></GrpHdr>
        <Stmt>
          <Ntry>
            <Amt Ccy="EUR">1.00</Amt>
            <CdtDbtInd>CRDT</CdtDbtInd>
            <BookgDt><Dt>2023-04-02</Dt></BookgDt>
            <ValDt><Dt>2023-04-03</Dt></ValDt>
            <NtryDtls><TxDtls>
              <RmtInf><Ustrd>Fish &amp; Chips &lt;Ltd&gt;</Ustrd></RmtInf>
            </TxDtls></NtryDtls>
          </Ntry>
        </Stmt>
    </BkToCstmrStmt></Document>"#;
    let d = ISO20022Document::from_str(text).unwrap();
    let Document::BankToCustomerStatement(s) = d.document;
    let ri = s.statement.entries[0]
        .details
        .transaction
        .remittance_info
        .as_ref()
        .unwrap();
    assert_eq!(ri.unstructured, "Fish & Chips <Ltd>");
    assert_eq!(ri.as_text(), "Fish & Chips <Ltd>");
}

#[test]
fn decimal_grammar_accepts_and_refuses() {
    let v = parse_decimal("123.45").unwrap();
    assert_eq!((v.negative, v.mantissa, v.scale), (false, 12345, 2));
    let v = parse_decimal("-0.01").unwrap();
    assert_eq!((v.negative, v.mantissa, v.scale), (true, 1, 2));
    let v = parse_decimal("+7").unwrap();
    assert_eq!((v.negative, v.mantissa, v.scale), (false, 7, 0));
    let v = parse_decimal("5.").unwrap();
    assert_eq!((v.negative, v.mantissa, v.scale), (false, 5, 0));
    let v = parse_decimal(".5").unwrap();
    assert_eq!((v.negative, v.mantissa, v.scale), (false, 5, 1));
    let v = parse_decimal("9999999999999999999").unwrap();
    assert_eq!((v.mantissa, v.scale), (9999999999999999999, 0));
    assert!(parse_decimal("").is_none());
    assert!(parse_decimal(".").is_none());
    assert!(parse_decimal("-").is_none());
    assert!(parse_decimal("1e5").is_none());
    assert!(parse_decimal("12.3.4").is_none());
    assert!(parse_decimal("12345678901234567890").is_none());
    assert!(parse_decimal("1,5").is_none());
}

#[test]
fn negative_utc_offset_is_kept() {
    let text = r#"<Document><BkToCstmrStmt>
        <GrpHdr><CreDtTm>2023-04-05T10:15:30-05:30</CreDtTm></GrpHdr>
        <Stmt></Stmt>
    </BkToCstmrStmt></Document>"#;
    let d = ISO20022Document::from_str(text).unwrap();
    let Document::BankToCustomerStatement(s) = d.document;
    assert_eq!(s.header.creation_date.offset_seconds, -(5 * 3600 + 30 * 60));
}

#[test]
fn empty_statement_has_no_balances_or_entries() {
    let text = r#"<Document><BkToCstmrStmt>
        <GrpHdr><CreDtTm>2023-04-05T10:15:30Z</CreDtTm></GrpHdr>
        <Stmt></Stmt>
    </BkToCstmrStmt></Document>"#;
    let d = ISO20022Document::from_str(text).unwrap();
    let Document::BankToCustomerStatement(s) = d.document;
    assert!(s.statement.balances.is_empty());
    assert!(s.statement.entries.is_empty());
    assert!(s.statement.opening_balance().is_none());
}

#[test]
fn missing_group_header_is_refused() {
    let text = r#"<Document><BkToCstmrStmt><Stmt></Stmt></BkToCstmrStmt></Document>"#;
    let e = ISO20022Document::from_str(text).unwrap_err();
    match e {
        ParseError::MissingField { entity, field } => {
            assert_eq!(entity, "BankToCustomerStatement");
            assert_eq!(field, "GrpHdr");
        },
        other => panic!("expected MissingField, got {:?}", other),
    }
}

#[test]
fn self_closing_statement_parses_empty() {
    let text = r#"<Document><BkToCstmrStmt>
        <GrpHdr><CreDtTm>2023-04-05T10:15:30Z</CreDtTm></GrpHdr>
        <Stmt/>
    </BkToCstmrStmt></Document>"#;
    let d = ISO20022Document::from_str(text).unwrap();
    let Document::BankToCustomerStatement(s) = d.document;
    assert!(s.statement.balances.is_empty());
    assert!(s.statement.entries.is_empty());
}

#[test]
fn root_other_than_document_is_refused() {
    let text = r#"<Doc><BkToCstmrStmt></BkToCstmrStmt></Doc>"#;
    let e = ISO20022Document::from_str(text).unwrap_err();
    match e {
        ParseError::UnknownVariant { choice, tag } => {
            assert_eq!(choice, "Document");
            assert_eq!(tag, "Doc");
        },
        other => panic!("expected UnknownVariant, got {:?}", other),
    }
}

#[test]
fn extra_root_sibling_is_refused() {
    let text = r#"<Document>
        <BkToCstmrStmt>
          <GrpHdr><CreDtTm>2023-04-05T10:15:30Z</CreDtTm></GrpHdr>
          <Stmt></Stmt>
        </BkToCstmrStmt>
        <Extra></Extra>
    </Document>"#;
    let e = ISO20022Document::from_str(text).unwrap_err();
    match e {
        ParseError::UnknownVariant { choice, tag } => {
            assert_eq!(choice, "Document");
            assert_eq!(tag, "Extra");
        },
        other => panic!("expected UnknownVariant, got {:?}", other),
    }
}

#[test]
fn cdata_text_is_kept() {
    let text = r#"<Document><BkToCstmrStmt>
        <GrpHdr><CreDtTm>2023-04-05T10:15:30Z</CreDtTm></GrpHdr>
        <Stmt>
          <Ntry>
            <Amt Ccy="EUR">1.00</Amt>
            <CdtDbtInd>CRDT</CdtDbtInd>
            <BookgDt><Dt>2023-04-02</Dt></BookgDt>
            <ValDt><Dt>2023-04-03</Dt></ValDt>
            <NtryDtls><TxDtls>
              <RmtInf><Ustrd><![CDATA[a < b & c]]></Ustrd></RmtInf>
            </TxDtls></NtryDtls>
          </Ntry>
        </Stmt>
    </BkToCstmrStmt></Document>"#;
    let d = ISO20022Document::from_str(text).unwrap();
    let Document::BankToCustomerStatement(s) = d.document;
    let ri = s.statement.entries[0]
        .details
        .transaction
        .remittance_info
        .as_ref()
        .unwrap();
    assert_eq!(ri.unstructured, "a < b & c");
}

#[test]
fn escaped_attribute_value_is_unescaped() {
    let text = r#"<Document><BkToCstmrStmt>
        <GrpHdr><CreDtTm>2023-04-05T10:15:30Z</CreDtTm></GrpHdr>
        <Stmt>
          <Ntry>
            <Amt Ccy="E&#85;R">1.00</Amt>
            <CdtDbtInd>CRDT</CdtDbtInd>
            <BookgDt><Dt>2023-04-02</Dt></BookgDt>
            <ValDt><Dt>2023-04-03</Dt></ValDt>
            <NtryDtls><TxDtls></TxDtls></NtryDtls>
          </Ntry>
        </Stmt>
    </BkToCstmrStmt></Document>"#;
    let d = ISO20022Document::from_str(text).unwrap();
    let Document::BankToCustomerStatement(s) = d.document;
    assert_eq!(s.statement.entries[0].amount.currency, "EUR");
}
