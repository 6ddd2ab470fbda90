//! Properties of the request body that follow from how it is built.

use vstd::prelude::*;
use crate::date::{date_text, CalendarDate};
use crate::markup::{lemma_utf8_concat, render, Piece};
use crate::request::{header_text, transaction_ids, MessageKind, Request};
use crate::token::{is_token, Tokens};
use vstd::utf8::encode_utf8;

verus! {

/// An element occurs in a concatenation where it occurs in either part.
pub broadcast proof fn lemma_contains_concat(a: Seq<Piece>, b: Seq<Piece>, x: Piece)
    ensures
        #[trigger] (a + b).contains(x) <==> (a.contains(x) || b.contains(x)),
{
    if a.contains(x) {
        let i = choose|i: int| 0 <= i < a.len() && a[i] == x;
        assert((a + b)[i] == x);
    }
    if b.contains(x) {
        let i = choose|i: int| 0 <= i < b.len() && b[i] == x;
        assert((a + b)[a.len() + i] == x);
    }
    if (a + b).contains(x) {
        let i = choose|i: int| 0 <= i < (a + b).len() && (a + b)[i] == x;
        if i < a.len() {
            assert(a[i] == x);
        } else {
            assert(b[i - a.len()] == x);
        }
    }
}

/// An element occurs in `s.push(y)` where it occurs in `s` or is `y`.
pub broadcast proof fn lemma_contains_push(s: Seq<Piece>, y: Piece, x: Piece)
    ensures
        #[trigger] s.push(y).contains(x) <==> (s.contains(x) || y == x),
{
    if s.contains(x) {
        let i = choose|i: int| 0 <= i < s.len() && s[i] == x;
        assert(s.push(y)[i] == x);
    }
    if y == x {
        assert(s.push(y)[s.len() as int] == x);
    }
    if s.push(y).contains(x) {
        let i = choose|i: int| 0 <= i < s.push(y).len() && s.push(y)[i] == x;
        if i < s.len() {
            assert(s[i] == x);
        }
    }
}

pub broadcast proof fn lemma_contains_empty(x: Piece)
    ensures
        !#[trigger] Seq::<Piece>::empty().contains(x),
{
}

pub broadcast group group_contains {
    lemma_contains_concat,
    lemma_contains_push,
    lemma_contains_empty,
}

/// The element names of the body, character by character.
pub proof fn lemma_element_names()
    ensures
        "OFX"@ == seq!['O', 'F', 'X'],
        "SIGNONMSGSRQV1"@ == seq!['S', 'I', 'G', 'N', 'O', 'N', 'M', 'S', 'G', 'S', 'R', 'Q', 'V', '1'],
        "SONRQ"@ == seq!['S', 'O', 'N', 'R', 'Q'],
        "DTCLIENT"@ == seq!['D', 'T', 'C', 'L', 'I', 'E', 'N', 'T'],
        "USERID"@ == seq!['U', 'S', 'E', 'R', 'I', 'D'],
        "USERPASS"@ == seq!['U', 'S', 'E', 'R', 'P', 'A', 'S', 'S'],
        "LANGUAGE"@ == seq!['L', 'A', 'N', 'G', 'U', 'A', 'G', 'E'],
        "FI"@ == seq!['F', 'I'],
        "ORG"@ == seq!['O', 'R', 'G'],
        "FID"@ == seq!['F', 'I', 'D'],
        "APPID"@ == seq!['A', 'P', 'P', 'I', 'D'],
        "APPVER"@ == seq!['A', 'P', 'P', 'V', 'E', 'R'],
        "CLIENTUID"@ == seq!['C', 'L', 'I', 'E', 'N', 'T', 'U', 'I', 'D'],
        "TRNUID"@ == seq!['T', 'R', 'N', 'U', 'I', 'D'],
        "CLTCOOKIE"@ == seq!['C', 'L', 'T', 'C', 'O', 'O', 'K', 'I', 'E'],
        "SIGNUPMSGSRQV1"@ == seq!['S', 'I', 'G', 'N', 'U', 'P', 'M', 'S', 'G', 'S', 'R', 'Q', 'V', '1'],
        "ACCTINFOTRNRQ"@ == seq!['A', 'C', 'C', 'T', 'I', 'N', 'F', 'O', 'T', 'R', 'N', 'R', 'Q'],
        "ACCTINFORQ"@ == seq!['A', 'C', 'C', 'T', 'I', 'N', 'F', 'O', 'R', 'Q'],
        "DTACCTUP"@ == seq!['D', 'T', 'A', 'C', 'C', 'T', 'U', 'P'],
        "INVSTMTMSGSRQV1"@ == seq!['I', 'N', 'V', 'S', 'T', 'M', 'T', 'M', 'S', 'G', 'S', 'R', 'Q', 'V', '1'],
        "INVSTMTTRNRQ"@ == seq!['I', 'N', 'V', 'S', 'T', 'M', 'T', 'T', 'R', 'N', 'R', 'Q'],
        "INVSTMTRQ"@ == seq!['I', 'N', 'V', 'S', 'T', 'M', 'T', 'R', 'Q'],
        "INVACCTFROM"@ == seq!['I', 'N', 'V', 'A', 'C', 'C', 'T', 'F', 'R', 'O', 'M'],
        "BROKERID"@ == seq!['B', 'R', 'O', 'K', 'E', 'R', 'I', 'D'],
        "ACCTID"@ == seq!['A', 'C', 'C', 'T', 'I', 'D'],
        "INCTRAN"@ == seq!['I', 'N', 'C', 'T', 'R', 'A', 'N'],
        "DTSTART"@ == seq!['D', 'T', 'S', 'T', 'A', 'R', 'T'],
        "DTEND"@ == seq!['D', 'T', 'E', 'N', 'D'],
        "INCLUDE"@ == seq!['I', 'N', 'C', 'L', 'U', 'D', 'E'],
        "INCOO"@ == seq!['I', 'N', 'C', 'O', 'O'],
        "INCPOS"@ == seq!['I', 'N', 'C', 'P', 'O', 'S'],
        "INCBAL"@ == seq!['I', 'N', 'C', 'B', 'A', 'L'],
        "CREDITCARDMSGSRQV1"@ == seq!['C', 'R', 'E', 'D', 'I', 'T', 'C', 'A', 'R', 'D', 'M', 'S', 'G', 'S', 'R', 'Q', 'V', '1'],
        "CCSTMTTRNRQ"@ == seq!['C', 'C', 'S', 'T', 'M', 'T', 'T', 'R', 'N', 'R', 'Q'],
        "CCSTMTRQ"@ == seq!['C', 'C', 'S', 'T', 'M', 'T', 'R', 'Q'],
        "CCACCTFROM"@ == seq!['C', 'C', 'A', 'C', 'C', 'T', 'F', 'R', 'O', 'M'],
        "BANKMSGSRQV1"@ == seq!['B', 'A', 'N', 'K', 'M', 'S', 'G', 'S', 'R', 'Q', 'V', '1'],
        "STMTTRNRQ"@ == seq!['S', 'T', 'M', 'T', 'T', 'R', 'N', 'R', 'Q'],
        "STMTRQ"@ == seq!['S', 'T', 'M', 'T', 'R', 'Q'],
        "BANKACCTFROM"@ == seq!['B', 'A', 'N', 'K', 'A', 'C', 'C', 'T', 'F', 'R', 'O', 'M'],
        "BANKID"@ == seq!['B', 'A', 'N', 'K', 'I', 'D'],
        "ACCTTYPE"@ == seq!['A', 'C', 'C', 'T', 'T', 'Y', 'P', 'E'],
{
    reveal_strlit("OFX");
    assert("OFX"@ =~= seq!['O', 'F', 'X']);
    reveal_strlit("SIGNONMSGSRQV1");
    assert("SIGNONMSGSRQV1"@ =~= seq!['S', 'I', 'G', 'N', 'O', 'N', 'M', 'S', 'G', 'S', 'R', 'Q', 'V', '1']);
    reveal_strlit("SONRQ");
    assert("SONRQ"@ =~= seq!['S', 'O', 'N', 'R', 'Q']);
    reveal_strlit("DTCLIENT");
    assert("DTCLIENT"@ =~= seq!['D', 'T', 'C', 'L', 'I', 'E', 'N', 'T']);
    reveal_strlit("USERID");
    assert("USERID"@ =~= seq!['U', 'S', 'E', 'R', 'I', 'D']);
    reveal_strlit("USERPASS");
    assert("USERPASS"@ =~= seq!['U', 'S', 'E', 'R', 'P', 'A', 'S', 'S']);
    reveal_strlit("LANGUAGE");
    assert("LANGUAGE"@ =~= seq!['L', 'A', 'N', 'G', 'U', 'A', 'G', 'E']);
    reveal_strlit("FI");
    assert("FI"@ =~= seq!['F', 'I']);
    reveal_strlit("ORG");
    assert("ORG"@ =~= seq!['O', 'R', 'G']);
    reveal_strlit("FID");
    assert("FID"@ =~= seq!['F', 'I', 'D']);
    reveal_strlit("APPID");
    assert("APPID"@ =~= seq!['A', 'P', 'P', 'I', 'D']);
    reveal_strlit("APPVER");
    assert("APPVER"@ =~= seq!['A', 'P', 'P', 'V', 'E', 'R']);
    reveal_strlit("CLIENTUID");
    assert("CLIENTUID"@ =~= seq!['C', 'L', 'I', 'E', 'N', 'T', 'U', 'I', 'D']);
    reveal_strlit("TRNUID");
    assert("TRNUID"@ =~= seq!['T', 'R', 'N', 'U', 'I', 'D']);
    reveal_strlit("CLTCOOKIE");
    assert("CLTCOOKIE"@ =~= seq!['C', 'L', 'T', 'C', 'O', 'O', 'K', 'I', 'E']);
    reveal_strlit("SIGNUPMSGSRQV1");
    assert("SIGNUPMSGSRQV1"@ =~= seq!['S', 'I', 'G', 'N', 'U', 'P', 'M', 'S', 'G', 'S', 'R', 'Q', 'V', '1']);
    reveal_strlit("ACCTINFOTRNRQ");
    assert("ACCTINFOTRNRQ"@ =~= seq!['A', 'C', 'C', 'T', 'I', 'N', 'F', 'O', 'T', 'R', 'N', 'R', 'Q']);
    reveal_strlit("ACCTINFORQ");
    assert("ACCTINFORQ"@ =~= seq!['A', 'C', 'C', 'T', 'I', 'N', 'F', 'O', 'R', 'Q']);
    reveal_strlit("DTACCTUP");
    assert("DTACCTUP"@ =~= seq!['D', 'T', 'A', 'C', 'C', 'T', 'U', 'P']);
    reveal_strlit("INVSTMTMSGSRQV1");
    assert("INVSTMTMSGSRQV1"@ =~= seq!['I', 'N', 'V', 'S', 'T', 'M', 'T', 'M', 'S', 'G', 'S', 'R', 'Q', 'V', '1']);
    reveal_strlit("INVSTMTTRNRQ");
    assert("INVSTMTTRNRQ"@ =~= seq!['I', 'N', 'V', 'S', 'T', 'M', 'T', 'T', 'R', 'N', 'R', 'Q']);
    reveal_strlit("INVSTMTRQ");
    assert("INVSTMTRQ"@ =~= seq!['I', 'N', 'V', 'S', 'T', 'M', 'T', 'R', 'Q']);
    reveal_strlit("INVACCTFROM");
    assert("INVACCTFROM"@ =~= seq!['I', 'N', 'V', 'A', 'C', 'C', 'T', 'F', 'R', 'O', 'M']);
    reveal_strlit("BROKERID");
    assert("BROKERID"@ =~= seq!['B', 'R', 'O', 'K', 'E', 'R', 'I', 'D']);
    reveal_strlit("ACCTID");
    assert("ACCTID"@ =~= seq!['A', 'C', 'C', 'T', 'I', 'D']);
    reveal_strlit("INCTRAN");
    assert("INCTRAN"@ =~= seq!['I', 'N', 'C', 'T', 'R', 'A', 'N']);
    reveal_strlit("DTSTART");
    assert("DTSTART"@ =~= seq!['D', 'T', 'S', 'T', 'A', 'R', 'T']);
    reveal_strlit("DTEND");
    assert("DTEND"@ =~= seq!['D', 'T', 'E', 'N', 'D']);
    reveal_strlit("INCLUDE");
    assert("INCLUDE"@ =~= seq!['I', 'N', 'C', 'L', 'U', 'D', 'E']);
    reveal_strlit("INCOO");
    assert("INCOO"@ =~= seq!['I', 'N', 'C', 'O', 'O']);
    reveal_strlit("INCPOS");
    assert("INCPOS"@ =~= seq!['I', 'N', 'C', 'P', 'O', 'S']);
    reveal_strlit("INCBAL");
    assert("INCBAL"@ =~= seq!['I', 'N', 'C', 'B', 'A', 'L']);
    reveal_strlit("CREDITCARDMSGSRQV1");
    assert("CREDITCARDMSGSRQV1"@ =~= seq!['C', 'R', 'E', 'D', 'I', 'T', 'C', 'A', 'R', 'D', 'M', 'S', 'G', 'S', 'R', 'Q', 'V', '1']);
    reveal_strlit("CCSTMTTRNRQ");
    assert("CCSTMTTRNRQ"@ =~= seq!['C', 'C', 'S', 'T', 'M', 'T', 'T', 'R', 'N', 'R', 'Q']);
    reveal_strlit("CCSTMTRQ");
    assert("CCSTMTRQ"@ =~= seq!['C', 'C', 'S', 'T', 'M', 'T', 'R', 'Q']);
    reveal_strlit("CCACCTFROM");
    assert("CCACCTFROM"@ =~= seq!['C', 'C', 'A', 'C', 'C', 'T', 'F', 'R', 'O', 'M']);
    reveal_strlit("BANKMSGSRQV1");
    assert("BANKMSGSRQV1"@ =~= seq!['B', 'A', 'N', 'K', 'M', 'S', 'G', 'S', 'R', 'Q', 'V', '1']);
    reveal_strlit("STMTTRNRQ");
    assert("STMTTRNRQ"@ =~= seq!['S', 'T', 'M', 'T', 'T', 'R', 'N', 'R', 'Q']);
    reveal_strlit("STMTRQ");
    assert("STMTRQ"@ =~= seq!['S', 'T', 'M', 'T', 'R', 'Q']);
    reveal_strlit("BANKACCTFROM");
    assert("BANKACCTFROM"@ =~= seq!['B', 'A', 'N', 'K', 'A', 'C', 'C', 'T', 'F', 'R', 'O', 'M']);
    reveal_strlit("BANKID");
    assert("BANKID"@ =~= seq!['B', 'A', 'N', 'K', 'I', 'D']);
    reveal_strlit("ACCTTYPE");
    assert("ACCTTYPE"@ =~= seq!['A', 'C', 'C', 'T', 'T', 'Y', 'P', 'E']);
}

/// The sign-on block holds the client UID leaf if and only if the client id
/// is not empty.
pub proof fn lemma_signon_client_uid(r: Request, today: CalendarDate)
    ensures
        r.signon_pieces(date_text(today)).contains(Piece::Open("CLIENTUID"@)) <==> r.client_id@.len() > 0,
{
    broadcast use group_contains;
    lemma_element_names();
}

proof fn lemma_message_no_client_uid(r: Request, t: Tokens)
    ensures
        !r.message_pieces(t.transaction_uid@, t.cookie@).contains(Piece::Open("CLIENTUID"@)),
{
    broadcast use group_contains;
    lemma_element_names();
    let x = Piece::Open("CLIENTUID"@);
    assert(!transaction_ids(t.transaction_uid@, t.cookie@).contains(x));
    assert(!r.range_pieces().contains(x));
    assert(!r.inctran_pieces().contains(x));
    match r.kind() {
        MessageKind::AccountInfo => assert(!r.account_info_pieces(t.transaction_uid@, t.cookie@).contains(x)),
        MessageKind::Investment => assert(!r.investment_pieces(t.transaction_uid@, t.cookie@).contains(x)),
        MessageKind::CreditCard => assert(!r.credit_card_pieces(t.transaction_uid@, t.cookie@).contains(x)),
        MessageKind::Bank => assert(!r.bank_pieces(t.transaction_uid@, t.cookie@).contains(x)),
    }
}

/// The client UID leaf is in the body if and only if the client id is not empty.
pub proof fn lemma_client_uid_leaf(r: Request, today: CalendarDate, t: Tokens)
    ensures
        r.body_pieces(today, t).contains(Piece::Open("CLIENTUID"@)) <==> r.client_id@.len() > 0,
{
    broadcast use group_contains;
    lemma_element_names();
    lemma_signon_client_uid(r, today);
    lemma_message_no_client_uid(r, t);
}

proof fn lemma_range_leaves(r: Request)
    ensures
        r.range_pieces().contains(Piece::Open("DTSTART"@)) <==> r.start is Some,
        r.range_pieces().contains(Piece::Open("DTEND"@)) <==> r.end is Some,
        r.start matches Some(d) ==> r.range_pieces().contains(Piece::Text(date_text(d))),
        r.end matches Some(d) ==> r.range_pieces().contains(Piece::Text(date_text(d))),
{
    broadcast use group_contains;
    lemma_element_names();
}

proof fn lemma_inctran_leaves(r: Request)
    ensures
        r.inctran_pieces().contains(Piece::Open("DTSTART"@)) <==> r.start is Some,
        r.inctran_pieces().contains(Piece::Open("DTEND"@)) <==> r.end is Some,
        r.start matches Some(d) ==> r.inctran_pieces().contains(Piece::Text(date_text(d))),
        r.end matches Some(d) ==> r.inctran_pieces().contains(Piece::Text(date_text(d))),
{
    broadcast use group_contains;
    lemma_element_names();
    lemma_range_leaves(r);
}

proof fn lemma_investment_date_leaves(r: Request, t: Tokens)
    ensures
        r.investment_pieces(t.transaction_uid@, t.cookie@).contains(Piece::Open("DTSTART"@)) <==> r.start is Some,
        r.investment_pieces(t.transaction_uid@, t.cookie@).contains(Piece::Open("DTEND"@)) <==> r.end is Some,
        r.start matches Some(d) ==> r.investment_pieces(t.transaction_uid@, t.cookie@).contains(Piece::Text(date_text(d))),
        r.end matches Some(d) ==> r.investment_pieces(t.transaction_uid@, t.cookie@).contains(Piece::Text(date_text(d))),
{
    broadcast use group_contains;
    lemma_element_names();
    lemma_inctran_leaves(r);
    assert(!transaction_ids(t.transaction_uid@, t.cookie@).contains(Piece::Open("DTSTART"@)));
    assert(!transaction_ids(t.transaction_uid@, t.cookie@).contains(Piece::Open("DTEND"@)));
}

proof fn lemma_credit_card_date_leaves(r: Request, t: Tokens)
    ensures
        r.credit_card_pieces(t.transaction_uid@, t.cookie@).contains(Piece::Open("DTSTART"@)) <==> r.start is Some,
        r.credit_card_pieces(t.transaction_uid@, t.cookie@).contains(Piece::Open("DTEND"@)) <==> r.end is Some,
        r.start matches Some(d) ==> r.credit_card_pieces(t.transaction_uid@, t.cookie@).contains(Piece::Text(date_text(d))),
        r.end matches Some(d) ==> r.credit_card_pieces(t.transaction_uid@, t.cookie@).contains(Piece::Text(date_text(d))),
{
    broadcast use group_contains;
    lemma_element_names();
    lemma_inctran_leaves(r);
    assert(!transaction_ids(t.transaction_uid@, t.cookie@).contains(Piece::Open("DTSTART"@)));
    assert(!transaction_ids(t.transaction_uid@, t.cookie@).contains(Piece::Open("DTEND"@)));
}

proof fn lemma_bank_date_leaves(r: Request, t: Tokens)
    ensures
        r.bank_pieces(t.transaction_uid@, t.cookie@).contains(Piece::Open("DTSTART"@)) <==> r.start is Some,
        r.bank_pieces(t.transaction_uid@, t.cookie@).contains(Piece::Open("DTEND"@)) <==> r.end is Some,
        r.start matches Some(d) ==> r.bank_pieces(t.transaction_uid@, t.cookie@).contains(Piece::Text(date_text(d))),
        r.end matches Some(d) ==> r.bank_pieces(t.transaction_uid@, t.cookie@).contains(Piece::Text(date_text(d))),
{
    broadcast use group_contains;
    lemma_element_names();
    lemma_inctran_leaves(r);
    assert(!transaction_ids(t.transaction_uid@, t.cookie@).contains(Piece::Open("DTSTART"@)));
    assert(!transaction_ids(t.transaction_uid@, t.cookie@).contains(Piece::Open("DTEND"@)));
}

proof fn lemma_account_info_no_date_leaves(r: Request, t: Tokens)
    ensures
        !r.account_info_pieces(t.transaction_uid@, t.cookie@).contains(Piece::Open("DTSTART"@)),
        !r.account_info_pieces(t.transaction_uid@, t.cookie@).contains(Piece::Open("DTEND"@)),
{
    broadcast use group_contains;
    lemma_element_names();
}

proof fn lemma_message_date_leaves(r: Request, t: Tokens)
    ensures
        r.kind() is AccountInfo ==> !r.message_pieces(t.transaction_uid@, t.cookie@).contains(Piece::Open("DTSTART"@))
            && !r.message_pieces(t.transaction_uid@, t.cookie@).contains(Piece::Open("DTEND"@)),
        !(r.kind() is AccountInfo) ==> (r.message_pieces(t.transaction_uid@, t.cookie@).contains(Piece::Open("DTSTART"@))
            <==> r.start is Some),
        !(r.kind() is AccountInfo) ==> (r.message_pieces(t.transaction_uid@, t.cookie@).contains(Piece::Open("DTEND"@))
            <==> r.end is Some),
        !(r.kind() is AccountInfo) ==> (r.start matches Some(d) ==> r.message_pieces(t.transaction_uid@, t.cookie@).contains(
            Piece::Text(date_text(d)))),
        !(r.kind() is AccountInfo) ==> (r.end matches Some(d) ==> r.message_pieces(t.transaction_uid@, t.cookie@).contains(
            Piece::Text(date_text(d)))),
{
    match r.kind() {
        MessageKind::AccountInfo => lemma_account_info_no_date_leaves(r, t),
        MessageKind::Investment => lemma_investment_date_leaves(r, t),
        MessageKind::CreditCard => lemma_credit_card_date_leaves(r, t),
        MessageKind::Bank => lemma_bank_date_leaves(r, t),
    }
}

/// A date-range leaf is in the body only where its date is given: with
/// neither date there is none, with one date only that one. Account discovery
/// carries no date range at all; every other message set carries the leaf of
/// each given date, holding the date's `YYYYMMDD` text.
pub proof fn lemma_date_leaves(r: Request, today: CalendarDate, t: Tokens)
    ensures
        r.start is None ==> !r.body_pieces(today, t).contains(Piece::Open("DTSTART"@)),
        r.end is None ==> !r.body_pieces(today, t).contains(Piece::Open("DTEND"@)),
        r.kind() is AccountInfo ==> !r.body_pieces(today, t).contains(Piece::Open("DTSTART"@))
            && !r.body_pieces(today, t).contains(Piece::Open("DTEND"@)),
        !(r.kind() is AccountInfo) ==> (r.start matches Some(d) ==> r.body_pieces(today, t).contains(
            Piece::Open("DTSTART"@)) && r.body_pieces(today, t).contains(Piece::Text(date_text(d)))),
        !(r.kind() is AccountInfo) ==> (r.end matches Some(d) ==> r.body_pieces(today, t).contains(
            Piece::Open("DTEND"@)) && r.body_pieces(today, t).contains(Piece::Text(date_text(d)))),
{
    broadcast use group_contains;
    lemma_element_names();
    lemma_message_date_leaves(r, t);
    let s = Piece::Open("DTSTART"@);
    let e = Piece::Open("DTEND"@);
    assert(!r.signon_pieces(date_text(today)).contains(s));
    assert(!r.signon_pieces(date_text(today)).contains(e));
}

/// Whatever the message set, the encoded document opens with the encoded
/// header, whose new-file UID line holds a 32-character token where the
/// tokens are well formed; the body's encoding follows it.
pub proof fn lemma_header_leads(r: Request, today: CalendarDate, t: Tokens)
    ensures
        encode_utf8(r.document(today, t)) == encode_utf8(header_text(r.ofx_ver@, t.file_uid@))
            + encode_utf8(render(r.body_pieces(today, t))),
        t.wf() ==> is_token(t.file_uid@, 32),
{
    lemma_utf8_concat(header_text(r.ofx_ver@, t.file_uid@), render(r.body_pieces(today, t)));
}

/// Two documents of requests that agree in every field but the URL differ only
/// in the texts of the client date and the three tokens: both are one shape,
/// filled with an 8-character date, a 32-character file UID, a 32-character
/// transaction UID and a 5-character cookie.
pub proof fn lemma_documents_differ_only_in_fields(
    r1: Request,
    r2: Request,
    d1: CalendarDate,
    t1: Tokens,
    d2: CalendarDate,
    t2: Tokens,
)
    requires
        r1.ofx_ver@ == r2.ofx_ver@,
        r1.username@ == r2.username@,
        r1.password@ == r2.password@,
        r1.language@ == r2.language@,
        r1.fid@ == r2.fid@,
        r1.fid_org@ == r2.fid_org@,
        r1.app_id@ == r2.app_id@,
        r1.app_ver@ == r2.app_ver@,
        r1.client_id@ == r2.client_id@,
        r1.broker_id@ == r2.broker_id@,
        r1.bank_id@ == r2.bank_id@,
        r1.account_id@ == r2.account_id@,
        r1.account_type@ == r2.account_type@,
        r1.start == r2.start,
        r1.end == r2.end,
        t1.wf(),
        t2.wf(),
    ensures
        r1.document(d1, t1) == r1.document_of_texts(
            date_text(d1), t1.file_uid@, t1.transaction_uid@, t1.cookie@),
        r2.document(d2, t2) == r1.document_of_texts(
            date_text(d2), t2.file_uid@, t2.transaction_uid@, t2.cookie@),
        date_text(d1).len() == 8 && date_text(d2).len() == 8,
        t1.file_uid@.len() == 32 && t2.file_uid@.len() == 32,
        t1.transaction_uid@.len() == 32 && t2.transaction_uid@.len() == 32,
        t1.cookie@.len() == 5 && t2.cookie@.len() == 5,
{
    assert(r2.body_of_texts(date_text(d2), t2.transaction_uid@, t2.cookie@)
        == r1.body_of_texts(date_text(d2), t2.transaction_uid@, t2.cookie@));
}

} // verus!
