use puccinia::date::CalendarDate;
use puccinia::markup::Event;
use puccinia::request::Request;
use puccinia::token::Tokens;

const ALPHABET: &str = "0123456789ABCDEFGHIJKLMNOPQRSTUVWXYZabcdefghijklmnopqrstuvwxyz";

fn date(y: u32, m: u32, d: u32) -> CalendarDate {
    CalendarDate::new(y, m, d).unwrap()
}

fn request(account_type: &'static str) -> Request<'static> {
    Request {
        url: "https://ofx.example.com",
        ofx_ver: "102",
        username: "user",
        password: "pass",
        language: "ENG",
        fid: "1001",
        fid_org: "Example",
        app_id: "QWIN",
        app_ver: "2500",
        client_id: "",
        broker_id: "B1",
        bank_id: "111000025",
        account_id: "A1",
        account_type,
        start: None,
        end: None,
    }
}

fn fixed_tokens() -> Tokens {
    Tokens {
        file_uid: "F".repeat(32),
        transaction_uid: "T".repeat(32),
        cookie: "C0C0C".to_string(),
    }
}

fn encode_text(r: &Request) -> String {
    String::from_utf8(r.encode().unwrap()).unwrap()
}

fn body_of(text: &str) -> &str {
    let at = text.find("\r\n\r\n").unwrap();
    &text[at + 4..]
}

fn value_after<'t>(text: &'t str, marker: &str, len: usize) -> &'t str {
    let at = text.find(marker).unwrap() + marker.len();
    &text[at..at + len]
}

fn is_token(s: &str, len: usize) -> bool {
    s.chars().count() == len && s.chars().all(|c| ALPHABET.contains(c))
}

#[test]
fn header_lines_for_every_account_type() {
    for account_type in ["", "INVESTMENT", "CREDITCARD", "ANYTHINGELSE"] {
        let text = encode_text(&request(account_type));
        let lines: Vec<&str> = text.split("\r\n").collect();
        assert_eq!(lines[0], "OFXHEADER:100");
        assert_eq!(lines[1], "DATA:OFXSGML");
        assert_eq!(lines[2], "VERSION:102");
        assert_eq!(lines[3], "SECURITY:NONE");
        assert_eq!(lines[4], "ENCODING:USASCII");
        assert_eq!(lines[5], "CHARSET:1252");
        assert_eq!(lines[6], "COMPRESSION:NONE");
        assert_eq!(lines[7], "OLDFILEUID:NONE");
        assert!(lines[8].starts_with("NEWFILEUID:"));
        assert!(is_token(&lines[8]["NEWFILEUID:".len()..], 32));
        assert_eq!(lines[9], "");
        assert!(lines[10].starts_with("<OFX><SIGNONMSGSRQV1><SONRQ><DTCLIENT>"));
        assert!(text.ends_with("</OFX>"));
    }
}

#[test]
fn random_string_lengths_and_alphabet() {
    for n in [0usize, 1, 5, 32] {
        let s = puccinia::token::random_string(n);
        assert!(is_token(&s, n));
    }
}

#[test]
fn generated_tokens_have_protocol_lengths() {
    let t = Tokens::generate();
    assert!(is_token(&t.file_uid, 32));
    assert!(is_token(&t.transaction_uid, 32));
    assert!(is_token(&t.cookie, 5));
}

#[test]
fn no_dates_no_range_leaves() {
    for account_type in ["", "INVESTMENT", "CREDITCARD", "ANYTHINGELSE"] {
        let text = encode_text(&request(account_type));
        assert!(!text.contains("<DTSTART>"));
        assert!(!text.contains("<DTEND>"));
    }
}

#[test]
fn only_the_given_date_leaf_appears() {
    for account_type in ["INVESTMENT", "CREDITCARD", "CHECKING"] {
        let mut r = request(account_type);
        r.start = Some(date(2023, 1, 1));
        let text = encode_text(&r);
        assert!(text.contains("<DTSTART>20230101<"));
        assert!(!text.contains("<DTEND>"));

        let mut r = request(account_type);
        r.end = Some(date(2023, 12, 31));
        let text = encode_text(&r);
        assert!(!text.contains("<DTSTART>"));
        assert!(text.contains("<DTEND>20231231<"));

        let mut r = request(account_type);
        r.start = Some(date(2023, 1, 1));
        r.end = Some(date(2023, 12, 31));
        let text = encode_text(&r);
        assert!(text.contains("<INCTRAN><DTSTART>20230101<DTEND>20231231<INCLUDE>Y</INCTRAN>"));
    }
}

#[test]
fn account_discovery_ignores_dates() {
    let mut r = request("");
    r.start = Some(date(2023, 1, 1));
    r.end = Some(date(2023, 2, 1));
    let text = encode_text(&r);
    assert!(!text.contains("<DTSTART>"));
    assert!(!text.contains("<DTEND>"));
}

#[test]
fn client_uid_only_when_given() {
    let text = encode_text(&request("CHECKING"));
    assert!(!text.contains("<CLIENTUID>"));

    let mut r = request("CHECKING");
    r.client_id = "abc-123";
    let text = encode_text(&r);
    assert!(text.contains("<APPVER>2500<CLIENTUID>abc-123</SONRQ>"));
}

#[test]
fn account_discovery_message() {
    let text = encode_text(&request(""));
    let body = body_of(&text);
    assert_eq!(body.matches("<SIGNUPMSGSRQV1>").count(), 1);
    assert_eq!(body.matches("<ACCTINFOTRNRQ>").count(), 1);
    assert!(body.contains("<ACCTINFORQ><DTACCTUP>19700101</ACCTINFORQ></ACCTINFOTRNRQ></SIGNUPMSGSRQV1></OFX>"));
    assert!(!body.contains("<ACCTID>"));
    assert!(!body.contains("<BROKERID>"));
    assert!(!body.contains("<BANKID>"));
    assert!(!body.contains("ACCTFROM>"));
    assert!(!body.contains("STMT"));
}

#[test]
fn credit_card_statement_request() {
    let mut r = request("CREDITCARD");
    r.account_id = "1234";
    let text = encode_text(&r);
    let body = body_of(&text);
    assert!(body.contains("<CREDITCARDMSGSRQV1><CCSTMTTRNRQ><TRNUID>"));
    assert!(body.contains(
        "<CCSTMTRQ><CCACCTFROM><ACCTID>1234</CCACCTFROM><INCTRAN><INCLUDE>Y</INCTRAN></CCSTMTRQ></CCSTMTTRNRQ></CREDITCARDMSGSRQV1></OFX>"
    ));
    assert!(!body.contains("</ACCTID>"));
    assert!(!body.contains("<DTSTART>"));
    assert!(!body.contains("<DTEND>"));
}

#[test]
fn investment_statement_request() {
    let mut r = request("INVESTMENT");
    r.broker_id = "B1";
    r.account_id = "A1";
    r.start = Some(date(2023, 1, 1));
    let text = encode_text(&r);
    let body = body_of(&text);
    assert!(body.contains(
        "<INVSTMTRQ><INVACCTFROM><BROKERID>B1<ACCTID>A1</INVACCTFROM><INCTRAN><DTSTART>20230101<INCLUDE>Y</INCTRAN><INCOO>Y<INCPOS><INCLUDE>Y</INCPOS><INCBAL>Y</INVSTMTRQ></INVSTMTTRNRQ></INVSTMTMSGSRQV1></OFX>"
    ));
    assert!(!body.contains("<DTEND>"));
}

#[test]
fn other_account_types_get_a_bank_statement() {
    let mut r = request("SAVINGS");
    r.bank_id = "987";
    r.account_id = "555";
    let text = encode_text(&r);
    assert!(text.contains(
        "<STMTRQ><BANKACCTFROM><BANKID>987<ACCTID>555<ACCTTYPE>SAVINGS</BANKACCTFROM><INCTRAN><INCLUDE>Y</INCTRAN></STMTRQ></STMTTRNRQ></BANKMSGSRQV1></OFX>"
    ));
}

#[test]
fn exact_document_with_fixed_tokens() {
    let mut r = request("CHECKING");
    r.end = Some(date(2024, 2, 29));
    let out = r.encode_with(&date(2024, 3, 5), &fixed_tokens()).unwrap();
    let expected = format!(
        "OFXHEADER:100\r\nDATA:OFXSGML\r\nVERSION:102\r\nSECURITY:NONE\r\nENCODING:USASCII\r\n\
         CHARSET:1252\r\nCOMPRESSION:NONE\r\nOLDFILEUID:NONE\r\nNEWFILEUID:{}\r\n\r\n\
         <OFX><SIGNONMSGSRQV1><SONRQ><DTCLIENT>20240305<USERID>user<USERPASS>pass<LANGUAGE>ENG\
         <FI><ORG>Example<FID>1001</FI><APPID>QWIN<APPVER>2500</SONRQ></SIGNONMSGSRQV1>\
         <BANKMSGSRQV1><STMTTRNRQ><TRNUID>{}<CLTCOOKIE>C0C0C<STMTRQ><BANKACCTFROM>\
         <BANKID>111000025<ACCTID>A1<ACCTTYPE>CHECKING</BANKACCTFROM><INCTRAN>\
         <DTEND>20240229<INCLUDE>Y</INCTRAN></STMTRQ></STMTTRNRQ></BANKMSGSRQV1></OFX>",
        "F".repeat(32),
        "T".repeat(32)
    );
    assert_eq!(String::from_utf8(out).unwrap(), expected);
}

#[test]
fn text_content_is_escaped() {
    let mut r = request("CHECKING");
    r.username = "a&b<c>d";
    r.password = "p\"q'";
    let out = r.encode_with(&date(2024, 1, 2), &fixed_tokens()).unwrap();
    let text = String::from_utf8(out).unwrap();
    assert!(text.contains("<USERID>a&amp;b&lt;c&gt;d<USERPASS>p\"q'<LANGUAGE>"));
}

#[test]
fn non_ascii_text_is_utf8() {
    let mut r = request("CHECKING");
    r.username = "Jürgen";
    let out = r.encode_with(&date(2024, 1, 2), &fixed_tokens()).unwrap();
    let text = String::from_utf8(out).unwrap();
    assert!(text.contains("<USERID>Jürgen<USERPASS>"));
}

#[test]
fn repeated_calls_differ_only_in_random_fields() {
    let r = request("INVESTMENT");
    let a = encode_text(&r);
    let b = encode_text(&r);
    for text in [&a, &b] {
        let tokens = Tokens {
            file_uid: value_after(text, "NEWFILEUID:", 32).to_string(),
            transaction_uid: value_after(text, "<TRNUID>", 32).to_string(),
            cookie: value_after(text, "<CLTCOOKIE>", 5).to_string(),
        };
        let d = value_after(text, "<DTCLIENT>", 8);
        let today = date(
            d[0..4].parse().unwrap(),
            d[4..6].parse().unwrap(),
            d[6..8].parse().unwrap(),
        );
        let again = r.encode_with(&today, &tokens).unwrap();
        assert_eq!(String::from_utf8(again).unwrap(), *text);
    }
}

#[test]
fn body_containers_are_balanced() {
    for account_type in ["", "INVESTMENT", "CREDITCARD", "CHECKING"] {
        let mut r = request(account_type);
        r.client_id = "c";
        r.start = Some(date(2020, 5, 6));
        r.end = Some(date(2020, 6, 7));
        let events = r.body_events(&date(2021, 1, 1), &fixed_tokens());
        let mut stack: Vec<String> = Vec::new();
        let mut last_open: Option<String> = None;
        for e in &events {
            match e {
                Event::Open(n) => {
                    if let Some(prev) = last_open.take() {
                        stack.push(prev);
                    }
                    last_open = Some(n.clone());
                }
                Event::Text(_) => {
                    assert!(last_open.take().is_some());
                }
                Event::Close(n) => {
                    if let Some(prev) = last_open.take() {
                        stack.push(prev);
                    }
                    assert_eq!(stack.pop().as_ref(), Some(n));
                }
            }
        }
        assert!(stack.is_empty());
        assert!(last_open.is_none());
    }
}

#[test]
fn encode_with_succeeds_on_odd_input() {
    let mut r = request("");
    r.account_id = "";
    r.bank_id = "";
    r.start = Some(date(2024, 5, 1));
    r.end = Some(date(2020, 1, 1));
    for account_type in ["", "INVESTMENT", "CREDITCARD", "x", "investment"] {
        r.account_type = account_type;
        assert!(r.encode_with(&date(2024, 1, 1), &fixed_tokens()).is_ok());
    }
    let mut r = request("CHECKING");
    r.start = Some(date(2024, 5, 1));
    r.end = Some(date(2020, 1, 1));
    let text = String::from_utf8(r.encode_with(&date(2024, 1, 1), &fixed_tokens()).unwrap()).unwrap();
    assert!(text.contains("<INCTRAN><DTSTART>20240501<DTEND>20200101<INCLUDE>Y</INCTRAN>"));
}

#[test]
fn token_spelled_by_draws() {
    assert_eq!(puccinia::token::token_from_draws(&vec![0, 10, 36, 61, 9]), "0Aaz9");
    assert_eq!(puccinia::token::token_from_draws(&vec![]), "");
}

#[test]
fn header_writer_gives_nine_lines_and_a_blank_one() {
    let r = request("CHECKING");
    let uid = puccinia::token::random_string(32);
    let h = r.write_header(&uid);
    let expected = format!(
        "OFXHEADER:100\r\nDATA:OFXSGML\r\nVERSION:102\r\nSECURITY:NONE\r\nENCODING:USASCII\r\n\
         CHARSET:1252\r\nCOMPRESSION:NONE\r\nOLDFILEUID:NONE\r\nNEWFILEUID:{}\r\n\r\n",
        uid
    );
    assert_eq!(h, expected);
    assert!(is_token(&uid, 32));
}

fn signon_texts(r: &Request) -> Vec<String> {
    let mut out: Vec<Event> = Vec::new();
    r.write_signon(&date(2024, 6, 7), &mut out);
    out.iter()
        .map(|e| match e {
            Event::Open(n) => format!("<{}>", n),
            Event::Text(t) => t.clone(),
            Event::Close(n) => format!("</{}>", n),
        })
        .collect()
}

#[test]
fn signon_client_uid_leaf() {
    let r = request("CHECKING");
    let plain = signon_texts(&r);
    assert!(!plain.contains(&"<CLIENTUID>".to_string()));
    assert_eq!(plain[0], "<SIGNONMSGSRQV1>");
    assert_eq!(plain[3], "20240607");

    let mut r = request("CHECKING");
    r.client_id = "cid-9";
    let with_uid = signon_texts(&r);
    let n = with_uid.len();
    assert_eq!(&with_uid[n - 4..], &["<CLIENTUID>", "cid-9", "</SONRQ>", "</SIGNONMSGSRQV1>"]);
    assert_eq!(n, plain.len() + 2);
}
