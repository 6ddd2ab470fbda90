//! The request document: header, sign-on block and one message set.

use vstd::prelude::*;
use vstd::utf8::encode_utf8;
use crate::date::{date_text, date_to_string, CalendarDate};
use crate::markup::{
    lemma_utf8_concat, leaf, pieces, push_close, push_leaf, push_open, render, write_events, Event, Piece,
};
use crate::token::Tokens;

verus! {

/// The message set that a request asks for, chosen by its account type.
pub enum MessageKind {
    /// Account discovery (sign-up), for the empty account type.
    AccountInfo,
    /// Investment statement, for `INVESTMENT`.
    Investment,
    /// Credit-card statement, for `CREDITCARD`.
    CreditCard,
    /// Bank statement, for every other account type.
    Bank,
}

pub open spec fn message_kind(account_type: Seq<char>) -> MessageKind {
    if account_type.len() == 0 {
        MessageKind::AccountInfo
    } else if account_type == "INVESTMENT"@ {
        MessageKind::Investment
    } else if account_type == "CREDITCARD"@ {
        MessageKind::CreditCard
    } else {
        MessageKind::Bank
    }
}

/// Why a request could not be encoded.
#[derive(Debug)]
pub enum EncodeError {
    /// The element writer failed.
    Write(xml::writer::Error),
    /// The system clock gave no date of a year in `0..=9999`: it reads before
    /// 1970, or past what fits the eight-digit date format.
    Clock,
}

/// What one request asks of a financial institution.
pub struct Request<'a> {
    pub url: &'a str,
    pub ofx_ver: &'a str,

    pub username: &'a str,
    pub password: &'a str,
    pub language: &'a str,
    pub fid: &'a str,
    pub fid_org: &'a str,
    pub app_id: &'a str,
    pub app_ver: &'a str,
    /// Client UID; empty where there is none.
    pub client_id: &'a str,

    pub broker_id: &'a str,
    pub bank_id: &'a str,
    pub account_id: &'a str,
    pub account_type: &'a str,
    pub start: Option<CalendarDate>,
    pub end: Option<CalendarDate>,
}

/// The text header, with its lines in their fixed order.
pub open spec fn header_text(ofx_ver: Seq<char>, file_uid: Seq<char>) -> Seq<char> {
    "OFXHEADER:100\r\n"@ + "DATA:OFXSGML\r\n"@ + "VERSION:"@ + ofx_ver + "\r\n"@
        + "SECURITY:NONE\r\n"@ + "ENCODING:USASCII\r\n"@ + "CHARSET:1252\r\n"@
        + "COMPRESSION:NONE\r\n"@ + "OLDFILEUID:NONE\r\n"@ + "NEWFILEUID:"@ + file_uid
        + "\r\n"@ + "\r\n"@
}

/// The transaction UID and client cookie that open every message.
pub open spec fn transaction_ids(trn: Seq<char>, cookie: Seq<char>) -> Seq<Piece> {
    leaf("TRNUID"@, trn) + leaf("CLTCOOKIE"@, cookie)
}

impl<'a> Request<'a> {
    /// Both dates of the range, where given, are days of four-digit years.
    pub open spec fn wf(&self) -> bool {
        &&& (self.start matches Some(d) ==> d.wf())
        &&& (self.end matches Some(d) ==> d.wf())
    }

    pub open spec fn kind(&self) -> MessageKind {
        message_kind(self.account_type@)
    }

    /// The sign-on block; the client UID leaf only where a client id is given.
    pub open spec fn signon_pieces(&self, dtclient: Seq<char>) -> Seq<Piece> {
        seq![Piece::Open("SIGNONMSGSRQV1"@), Piece::Open("SONRQ"@)]
            + leaf("DTCLIENT"@, dtclient)
            + leaf("USERID"@, self.username@)
            + leaf("USERPASS"@, self.password@)
            + leaf("LANGUAGE"@, self.language@)
            + seq![Piece::Open("FI"@)]
            + leaf("ORG"@, self.fid_org@)
            + leaf("FID"@, self.fid@)
            + seq![Piece::Close("FI"@)]
            + leaf("APPID"@, self.app_id@)
            + leaf("APPVER"@, self.app_ver@)
            + (if self.client_id@.len() > 0 { leaf("CLIENTUID"@, self.client_id@) } else { seq![] })
            + seq![Piece::Close("SONRQ"@), Piece::Close("SIGNONMSGSRQV1"@)]
    }

    /// The start and end leaves of the date range, each only where its date is given.
    pub open spec fn range_pieces(&self) -> Seq<Piece> {
        (match self.start {
            Some(d) => leaf("DTSTART"@, date_text(d)),
            None => seq![],
        }) + (match self.end {
            Some(d) => leaf("DTEND"@, date_text(d)),
            None => seq![],
        })
    }

    /// The transaction filter: the date range and the request for transactions.
    pub open spec fn inctran_pieces(&self) -> Seq<Piece> {
        seq![Piece::Open("INCTRAN"@)] + self.range_pieces() + leaf("INCLUDE"@, "Y"@)
            + seq![Piece::Close("INCTRAN"@)]
    }

    pub open spec fn account_info_pieces(&self, trn: Seq<char>, cookie: Seq<char>) -> Seq<Piece> {
        seq![Piece::Open("SIGNUPMSGSRQV1"@), Piece::Open("ACCTINFOTRNRQ"@)]
            + transaction_ids(trn, cookie)
            + seq![Piece::Open("ACCTINFORQ"@)]
            + leaf("DTACCTUP"@, "19700101"@)
            + seq![Piece::Close("ACCTINFORQ"@), Piece::Close("ACCTINFOTRNRQ"@), Piece::Close("SIGNUPMSGSRQV1"@)]
    }

    pub open spec fn investment_pieces(&self, trn: Seq<char>, cookie: Seq<char>) -> Seq<Piece> {
        seq![Piece::Open("INVSTMTMSGSRQV1"@), Piece::Open("INVSTMTTRNRQ"@)]
            + transaction_ids(trn, cookie)
            + seq![Piece::Open("INVSTMTRQ"@), Piece::Open("INVACCTFROM"@)]
            + leaf("BROKERID"@, self.broker_id@)
            + leaf("ACCTID"@, self.account_id@)
            + seq![Piece::Close("INVACCTFROM"@)]
            + self.inctran_pieces()
            + leaf("INCOO"@, "Y"@)
            + seq![Piece::Open("INCPOS"@)]
            + leaf("INCLUDE"@, "Y"@)
            + seq![Piece::Close("INCPOS"@)]
            + leaf("INCBAL"@, "Y"@)
            + seq![Piece::Close("INVSTMTRQ"@), Piece::Close("INVSTMTTRNRQ"@), Piece::Close("INVSTMTMSGSRQV1"@)]
    }

    pub open spec fn credit_card_pieces(&self, trn: Seq<char>, cookie: Seq<char>) -> Seq<Piece> {
        seq![Piece::Open("CREDITCARDMSGSRQV1"@), Piece::Open("CCSTMTTRNRQ"@)]
            + transaction_ids(trn, cookie)
            + seq![Piece::Open("CCSTMTRQ"@), Piece::Open("CCACCTFROM"@)]
            + leaf("ACCTID"@, self.account_id@)
            + seq![Piece::Close("CCACCTFROM"@)]
            + self.inctran_pieces()
            + seq![Piece::Close("CCSTMTRQ"@), Piece::Close("CCSTMTTRNRQ"@), Piece::Close("CREDITCARDMSGSRQV1"@)]
    }

    pub open spec fn bank_pieces(&self, trn: Seq<char>, cookie: Seq<char>) -> Seq<Piece> {
        seq![Piece::Open("BANKMSGSRQV1"@), Piece::Open("STMTTRNRQ"@)]
            + transaction_ids(trn, cookie)
            + seq![Piece::Open("STMTRQ"@), Piece::Open("BANKACCTFROM"@)]
            + leaf("BANKID"@, self.bank_id@)
            + leaf("ACCTID"@, self.account_id@)
            + leaf("ACCTTYPE"@, self.account_type@)
            + seq![Piece::Close("BANKACCTFROM"@)]
            + self.inctran_pieces()
            + seq![Piece::Close("STMTRQ"@), Piece::Close("STMTTRNRQ"@), Piece::Close("BANKMSGSRQV1"@)]
    }

    /// The message set that the account type selects.
    pub open spec fn message_pieces(&self, trn: Seq<char>, cookie: Seq<char>) -> Seq<Piece> {
        match self.kind() {
            MessageKind::AccountInfo => self.account_info_pieces(trn, cookie),
            MessageKind::Investment => self.investment_pieces(trn, cookie),
            MessageKind::CreditCard => self.credit_card_pieces(trn, cookie),
            MessageKind::Bank => self.bank_pieces(trn, cookie),
        }
    }

    /// The body with the given texts for the client date, the transaction UID
    /// and the cookie: the `OFX` root holding the sign-on block and one message set.
    pub open spec fn body_of_texts(&self, dtclient: Seq<char>, trn: Seq<char>, cookie: Seq<char>) -> Seq<Piece> {
        seq![Piece::Open("OFX"@)] + self.signon_pieces(dtclient) + self.message_pieces(trn, cookie)
            + seq![Piece::Close("OFX"@)]
    }

    /// The body for the date `today` and the tokens `t`.
    pub open spec fn body_pieces(&self, today: CalendarDate, t: Tokens) -> Seq<Piece> {
        self.body_of_texts(date_text(today), t.transaction_uid@, t.cookie@)
    }

    /// The whole document as text, with the given texts in its variable fields.
    pub open spec fn document_of_texts(
        &self,
        dtclient: Seq<char>,
        file_uid: Seq<char>,
        trn: Seq<char>,
        cookie: Seq<char>,
    ) -> Seq<char> {
        header_text(self.ofx_ver@, file_uid) + render(self.body_of_texts(dtclient, trn, cookie))
    }

    /// The whole document as text.
    pub open spec fn document(&self, today: CalendarDate, t: Tokens) -> Seq<char> {
        self.document_of_texts(date_text(today), t.file_uid@, t.transaction_uid@, t.cookie@)
    }
}

/// Whether two strings hold the same characters.
fn same_text(a: &str, b: &str) -> (r: bool)
    ensures
        r == (a@ == b@),
{
    let x = a.to_owned();
    let y = b.to_owned();
    x.eq(&y)
}

impl<'a> Request<'a> {
    /// The text header, ending in its blank line.
    pub fn write_header(&self, file_uid: &str) -> (r: String)
        ensures
            r@ == header_text(self.ofx_ver@, file_uid@),
    {
        let mut h = String::new();
        h.append("OFXHEADER:100\r\n");
        h.append("DATA:OFXSGML\r\n");
        h.append("VERSION:");
        h.append(self.ofx_ver);
        h.append("\r\n");
        h.append("SECURITY:NONE\r\n");
        h.append("ENCODING:USASCII\r\n");
        h.append("CHARSET:1252\r\n");
        h.append("COMPRESSION:NONE\r\n");
        h.append("OLDFILEUID:NONE\r\n");
        h.append("NEWFILEUID:");
        h.append(file_uid);
        h.append("\r\n");
        h.append("\r\n");
        h
    }

    /// The sign-on block, dated `today`.
    pub fn write_signon(&self, today: &CalendarDate, out: &mut Vec<Event>)
        requires
            today.wf(),
        ensures
            pieces(final(out)@) == pieces(old(out)@) + self.signon_pieces(date_text(*today)),
    {
        let dt = date_to_string(today);
        push_open(out, "SIGNONMSGSRQV1");
        push_open(out, "SONRQ");
        push_leaf(out, "DTCLIENT", dt.as_str());
        push_leaf(out, "USERID", self.username);
        push_leaf(out, "USERPASS", self.password);
        push_leaf(out, "LANGUAGE", self.language);
        push_open(out, "FI");
        push_leaf(out, "ORG", self.fid_org);
        push_leaf(out, "FID", self.fid);
        push_close(out, "FI");
        push_leaf(out, "APPID", self.app_id);
        push_leaf(out, "APPVER", self.app_ver);
        let ghost mid = pieces(out@);
        if !self.client_id.is_empty() {
            push_leaf(out, "CLIENTUID", self.client_id);
        } else {
            assert(pieces(out@) =~= mid + seq![]);
        }
        push_close(out, "SONRQ");
        push_close(out, "SIGNONMSGSRQV1");
        assert(pieces(out@) =~= pieces(old(out)@) + self.signon_pieces(date_text(*today)));
    }

    fn write_transaction_ids(&self, t: &Tokens, out: &mut Vec<Event>)
        ensures
            pieces(final(out)@) == pieces(old(out)@) + transaction_ids(t.transaction_uid@, t.cookie@),
    {
        push_leaf(out, "TRNUID", t.transaction_uid.as_str());
        push_leaf(out, "CLTCOOKIE", t.cookie.as_str());
        assert(pieces(out@) =~= pieces(old(out)@) + transaction_ids(t.transaction_uid@, t.cookie@));
    }

    fn write_inctran(&self, out: &mut Vec<Event>)
        requires
            self.wf(),
        ensures
            pieces(final(out)@) == pieces(old(out)@) + self.inctran_pieces(),
    {
        push_open(out, "INCTRAN");
        let ghost p0 = pieces(out@);
        match self.start {
            Some(d) => {
                let s = date_to_string(&d);
                push_leaf(out, "DTSTART", s.as_str());
            },
            None => {},
        }
        let ghost p1 = pieces(out@);
        assert(p1 =~= p0 + (match self.start {
            Some(d) => leaf("DTSTART"@, date_text(d)),
            None => seq![],
        }));
        match self.end {
            Some(d) => {
                let s = date_to_string(&d);
                push_leaf(out, "DTEND", s.as_str());
            },
            None => {},
        }
        let ghost p2 = pieces(out@);
        assert(p2 =~= p0 + self.range_pieces());
        push_leaf(out, "INCLUDE", "Y");
        push_close(out, "INCTRAN");
        assert(pieces(out@) =~= pieces(old(out)@) + self.inctran_pieces());
    }
}

impl<'a> Request<'a> {
    fn write_account_info(&self, t: &Tokens, out: &mut Vec<Event>)
        ensures
            pieces(final(out)@) == pieces(old(out)@) + self.account_info_pieces(t.transaction_uid@, t.cookie@),
    {
        push_open(out, "SIGNUPMSGSRQV1");
        push_open(out, "ACCTINFOTRNRQ");
        self.write_transaction_ids(t, out);
        push_open(out, "ACCTINFORQ");
        push_leaf(out, "DTACCTUP", "19700101");
        push_close(out, "ACCTINFORQ");
        push_close(out, "ACCTINFOTRNRQ");
        push_close(out, "SIGNUPMSGSRQV1");
        assert(pieces(out@) =~= pieces(old(out)@) + self.account_info_pieces(t.transaction_uid@, t.cookie@));
    }

    #[verifier::rlimit(40)]
    fn write_investment(&self, t: &Tokens, out: &mut Vec<Event>)
        requires
            self.wf(),
        ensures
            pieces(final(out)@) == pieces(old(out)@) + self.investment_pieces(t.transaction_uid@, t.cookie@),
    {
        push_open(out, "INVSTMTMSGSRQV1");
        push_open(out, "INVSTMTTRNRQ");
        self.write_transaction_ids(t, out);
        push_open(out, "INVSTMTRQ");
        push_open(out, "INVACCTFROM");
        push_leaf(out, "BROKERID", self.broker_id);
        push_leaf(out, "ACCTID", self.account_id);
        push_close(out, "INVACCTFROM");
        self.write_inctran(out);
        push_leaf(out, "INCOO", "Y");
        push_open(out, "INCPOS");
        push_leaf(out, "INCLUDE", "Y");
        push_close(out, "INCPOS");
        push_leaf(out, "INCBAL", "Y");
        push_close(out, "INVSTMTRQ");
        push_close(out, "INVSTMTTRNRQ");
        push_close(out, "INVSTMTMSGSRQV1");
        assert(pieces(out@) =~= pieces(old(out)@) + self.investment_pieces(t.transaction_uid@, t.cookie@));
    }

    fn write_credit_card(&self, t: &Tokens, out: &mut Vec<Event>)
        requires
            self.wf(),
        ensures
            pieces(final(out)@) == pieces(old(out)@) + self.credit_card_pieces(t.transaction_uid@, t.cookie@),
    {
        push_open(out, "CREDITCARDMSGSRQV1");
        push_open(out, "CCSTMTTRNRQ");
        self.write_transaction_ids(t, out);
        push_open(out, "CCSTMTRQ");
        push_open(out, "CCACCTFROM");
        push_leaf(out, "ACCTID", self.account_id);
        push_close(out, "CCACCTFROM");
        self.write_inctran(out);
        push_close(out, "CCSTMTRQ");
        push_close(out, "CCSTMTTRNRQ");
        push_close(out, "CREDITCARDMSGSRQV1");
        assert(pieces(out@) =~= pieces(old(out)@) + self.credit_card_pieces(t.transaction_uid@, t.cookie@));
    }

    fn write_bank(&self, t: &Tokens, out: &mut Vec<Event>)
        requires
            self.wf(),
        ensures
            pieces(final(out)@) == pieces(old(out)@) + self.bank_pieces(t.transaction_uid@, t.cookie@),
    {
        push_open(out, "BANKMSGSRQV1");
        push_open(out, "STMTTRNRQ");
        self.write_transaction_ids(t, out);
        push_open(out, "STMTRQ");
        push_open(out, "BANKACCTFROM");
        push_leaf(out, "BANKID", self.bank_id);
        push_leaf(out, "ACCTID", self.account_id);
        push_leaf(out, "ACCTTYPE", self.account_type);
        push_close(out, "BANKACCTFROM");
        self.write_inctran(out);
        push_close(out, "STMTRQ");
        push_close(out, "STMTTRNRQ");
        push_close(out, "BANKMSGSRQV1");
        assert(pieces(out@) =~= pieces(old(out)@) + self.bank_pieces(t.transaction_uid@, t.cookie@));
    }

    /// The message set that the account type selects.
    fn write_message(&self, t: &Tokens, out: &mut Vec<Event>)
        requires
            self.wf(),
        ensures
            pieces(final(out)@) == pieces(old(out)@) + self.message_pieces(t.transaction_uid@, t.cookie@),
    {
        if self.account_type.is_empty() {
            self.write_account_info(t, out);
        } else if same_text(self.account_type, "INVESTMENT") {
            self.write_investment(t, out);
        } else if same_text(self.account_type, "CREDITCARD") {
            self.write_credit_card(t, out);
        } else {
            self.write_bank(t, out);
        }
    }

    /// The element events of the body.
    pub fn body_events(&self, today: &CalendarDate, t: &Tokens) -> (r: Vec<Event>)
        requires
            self.wf(),
            today.wf(),
        ensures
            pieces(r@) == self.body_pieces(*today, *t),
    {
        let mut events: Vec<Event> = Vec::new();
        assert(pieces(events@) =~= seq![]);
        push_open(&mut events, "OFX");
        self.write_signon(today, &mut events);
        self.write_message(t, &mut events);
        push_close(&mut events, "OFX");
        assert(pieces(events@) =~= self.body_pieces(*today, *t));
        events
    }

    /// The document for the date `today` and the tokens `t`: the header, then
    /// the body as written by xml-rs. It always succeeds.
    pub fn encode_with(&self, today: &CalendarDate, t: &Tokens) -> (r: Result<Vec<u8>, EncodeError>)
        requires
            self.wf(),
            today.wf(),
        ensures
            r matches Ok(b) && b@ == encode_utf8(self.document(*today, *t)),
    {
        let header = self.write_header(t.file_uid.as_str());
        let head = header.as_str().as_bytes_vec();
        let events = self.body_events(today, t);
        match write_events(head, &events) {
            Ok(b) => {
                proof {
                    lemma_utf8_concat(header@, render(pieces(events@)));
                }
                Ok(b)
            },
            Err(e) => Err(EncodeError::Write(e)),
        }
    }

    /// The document for today's date and freshly drawn tokens. Apart from the
    /// clock's date and the tokens, it is the one that `encode_with` gives; it
    /// fails only where the clock gives no date of a year in `0..=9999`.
    pub fn encode(&self) -> (r: Result<Vec<u8>, EncodeError>)
        requires
            self.wf(),
        ensures
            r matches Ok(b) ==> exists|today: CalendarDate, t: Tokens|
                today.wf() && t.wf() && b@ == encode_utf8(#[trigger] self.document(today, t)),
            r matches Err(e) ==> e is Clock,
    {
        let t = Tokens::generate();
        let today = match CalendarDate::today() {
            Some(d) => d,
            None => return Err(EncodeError::Clock),
        };
        let r = self.encode_with(&today, &t);
        proof {
            if r is Ok {
                assert(today.wf() && t.wf() && r->Ok_0@ == encode_utf8(self.document(today, t)));
            }
        }
        r
    }
}

} // verus!
