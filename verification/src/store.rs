//! The Settings store: the persisted JSON text format.
//!
//! The record is stored as a single pretty-printed JSON object holding
//! exactly the five boolean fields, in declaration order. `save` renders
//! that text. `load` accepts any JSON object carrying the five boolean
//! fields: the fields may come in any order, with any amount of JSON
//! whitespace between tokens and around the object. Content outside
//! that grammar — a missing or repeated field, an unknown field, a
//! value other than the literals `true` and `false` — counts as corrupt
//! and yields the default record, which is what the rest of the
//! application expects of missing or damaged storage.

use vstd::prelude::*;
use vstd::string::*;

use crate::settings::{Settings, spec_default_settings};

verus! {

/// The text of one boolean value.
pub open spec fn spec_bool_text(b: bool) -> Seq<char> {
    if b {
        "true"@
    } else {
        "false"@
    }
}

/// The stored text from the first key onward.
#[verifier::opaque]
pub open spec fn enc_m1(s: Settings) -> Seq<char> {
    "\"notifications_enabled\""@ + (":"@ + (" "@ + (spec_bool_text(s.notifications_enabled)
        + enc_m2(s))))
}

/// The stored text from the comma before the second key onward.
#[verifier::opaque]
pub open spec fn enc_m2(s: Settings) -> Seq<char> {
    ","@ + ("\n  "@ + ("\"hide_decorations\""@ + (":"@ + (" "@ + (spec_bool_text(
        s.hide_decorations,
    ) + enc_m3(s))))))
}

/// The stored text from the comma before the third key onward.
#[verifier::opaque]
pub open spec fn enc_m3(s: Settings) -> Seq<char> {
    ","@ + ("\n  "@ + ("\"show_tray\""@ + (":"@ + (" "@ + (spec_bool_text(s.show_tray) + enc_m4(
        s,
    ))))))
}

/// The stored text from the comma before the fourth key onward.
#[verifier::opaque]
pub open spec fn enc_m4(s: Settings) -> Seq<char> {
    ","@ + ("\n  "@ + ("\"close_to_tray\""@ + (":"@ + (" "@ + (spec_bool_text(s.close_to_tray)
        + enc_m5(s))))))
}

/// The stored text from the comma before the fifth key onward.
#[verifier::opaque]
pub open spec fn enc_m5(s: Settings) -> Seq<char> {
    ","@ + ("\n  "@ + ("\"tray_icon_light\""@ + (":"@ + (" "@ + (spec_bool_text(s.tray_icon_light)
        + ("\n"@ + "}"@))))))
}

/// The complete stored text of a record, as `save` writes it.
#[verifier::opaque]
pub open spec fn spec_encode(s: Settings) -> Seq<char> {
    "{"@ + ("\n  "@ + enc_m1(s))
}

/// One lexical token of a stored settings object.
#[derive(Clone, Copy, PartialEq, Eq, Structural, Debug)]
pub enum Tok {
    LBrace,
    RBrace,
    Comma,
    Colon,
    TrueLit,
    FalseLit,
    KeyNotifications,
    KeyHide,
    KeyShow,
    KeyClose,
    KeyTray,
}

/// The JSON whitespace characters.
pub open spec fn is_ws(ch: char) -> bool {
    ch == ' ' || ch == '\t' || ch == '\n' || ch == '\r'
}

/// The length of the whitespace run starting at position `i`.
pub open spec fn ws_run(c: Seq<char>, i: int) -> nat
    decreases c.len() - i,
{
    if 0 <= i && i < c.len() && is_ws(c[i]) {
        (1 + ws_run(c, i + 1)) as nat
    } else {
        0
    }
}

/// Whether the text `lit` sits in `c` at position `i`.
pub open spec fn has_lit(c: Seq<char>, i: int, lit: Seq<char>) -> bool {
    0 <= i && i + lit.len() <= c.len() && c.subrange(i, i + lit.len()) == lit
}

/// Prepends a token to a tokenization that may have failed.
pub open spec fn tok_cons(t: Tok, rest: Option<Seq<Tok>>) -> Option<Seq<Tok>> {
    match rest {
        Some(ts) => Some(seq![t] + ts),
        None => None,
    }
}

/// The token stream of the text from position `i` on: whitespace is
/// skipped before every token and before the end, and any character
/// that starts none of the eleven tokens fails the whole tokenization.
pub open spec fn tokens_of(c: Seq<char>, i: int) -> Option<Seq<Tok>>
    decreases c.len() - i,
{
    let j = i + ws_run(c, i);
    if j >= c.len() {
        Some(Seq::empty())
    } else if has_lit(c, j, "{"@) && "{"@.len() >= 1 {
        tok_cons(Tok::LBrace, tokens_of(c, j + "{"@.len()))
    } else if has_lit(c, j, "}"@) && "}"@.len() >= 1 {
        tok_cons(Tok::RBrace, tokens_of(c, j + "}"@.len()))
    } else if has_lit(c, j, ","@) && ","@.len() >= 1 {
        tok_cons(Tok::Comma, tokens_of(c, j + ","@.len()))
    } else if has_lit(c, j, ":"@) && ":"@.len() >= 1 {
        tok_cons(Tok::Colon, tokens_of(c, j + ":"@.len()))
    } else if has_lit(c, j, "true"@) && "true"@.len() >= 1 {
        tok_cons(Tok::TrueLit, tokens_of(c, j + "true"@.len()))
    } else if has_lit(c, j, "false"@) && "false"@.len() >= 1 {
        tok_cons(Tok::FalseLit, tokens_of(c, j + "false"@.len()))
    } else if has_lit(c, j, "\"notifications_enabled\""@) && "\"notifications_enabled\""@.len()
        >= 1 {
        tok_cons(Tok::KeyNotifications, tokens_of(c, j + "\"notifications_enabled\""@.len()))
    } else if has_lit(c, j, "\"hide_decorations\""@) && "\"hide_decorations\""@.len() >= 1 {
        tok_cons(Tok::KeyHide, tokens_of(c, j + "\"hide_decorations\""@.len()))
    } else if has_lit(c, j, "\"show_tray\""@) && "\"show_tray\""@.len() >= 1 {
        tok_cons(Tok::KeyShow, tokens_of(c, j + "\"show_tray\""@.len()))
    } else if has_lit(c, j, "\"close_to_tray\""@) && "\"close_to_tray\""@.len() >= 1 {
        tok_cons(Tok::KeyClose, tokens_of(c, j + "\"close_to_tray\""@.len()))
    } else if has_lit(c, j, "\"tray_icon_light\""@) && "\"tray_icon_light\""@.len() >= 1 {
        tok_cons(Tok::KeyTray, tokens_of(c, j + "\"tray_icon_light\""@.len()))
    } else {
        None
    }
}

/// Whether a token is one of the five field keys.
pub open spec fn is_key_tok(t: Tok) -> bool {
    ||| t == Tok::KeyNotifications
    ||| t == Tok::KeyHide
    ||| t == Tok::KeyShow
    ||| t == Tok::KeyClose
    ||| t == Tok::KeyTray
}

/// Whether a token is one of the two boolean literals.
pub open spec fn is_bool_tok(t: Tok) -> bool {
    t == Tok::TrueLit || t == Tok::FalseLit
}

/// Whether key `k` appears in one of the five key slots.
pub open spec fn key_slot_present(ts: Seq<Tok>, k: Tok) -> bool {
    ts[1] == k || ts[5] == k || ts[9] == k || ts[13] == k || ts[17] == k
}

/// The shape of a well-formed settings object: braces around five
/// `key: bool` members separated by commas, the five keys each present
/// (hence each exactly once).
pub open spec fn spec_tokens_shape(ts: Seq<Tok>) -> bool {
    &&& ts.len() == 21
    &&& ts[0] == Tok::LBrace
    &&& ts[20] == Tok::RBrace
    &&& is_key_tok(ts[1]) && ts[2] == Tok::Colon && is_bool_tok(ts[3])
    &&& ts[4] == Tok::Comma
    &&& is_key_tok(ts[5]) && ts[6] == Tok::Colon && is_bool_tok(ts[7])
    &&& ts[8] == Tok::Comma
    &&& is_key_tok(ts[9]) && ts[10] == Tok::Colon && is_bool_tok(ts[11])
    &&& ts[12] == Tok::Comma
    &&& is_key_tok(ts[13]) && ts[14] == Tok::Colon && is_bool_tok(ts[15])
    &&& ts[16] == Tok::Comma
    &&& is_key_tok(ts[17]) && ts[18] == Tok::Colon && is_bool_tok(ts[19])
    &&& key_slot_present(ts, Tok::KeyNotifications)
    &&& key_slot_present(ts, Tok::KeyHide)
    &&& key_slot_present(ts, Tok::KeyShow)
    &&& key_slot_present(ts, Tok::KeyClose)
    &&& key_slot_present(ts, Tok::KeyTray)
}

/// The value given for key `k`: the boolean after the slot that holds it.
pub open spec fn value_of_key(ts: Seq<Tok>, k: Tok) -> bool {
    if ts[1] == k {
        ts[3] == Tok::TrueLit
    } else if ts[5] == k {
        ts[7] == Tok::TrueLit
    } else if ts[9] == k {
        ts[11] == Tok::TrueLit
    } else if ts[13] == k {
        ts[15] == Tok::TrueLit
    } else {
        ts[19] == Tok::TrueLit
    }
}

/// The record a well-formed settings object denotes.
pub open spec fn settings_of_tokens(ts: Seq<Tok>) -> Settings {
    Settings {
        notifications_enabled: value_of_key(ts, Tok::KeyNotifications),
        hide_decorations: value_of_key(ts, Tok::KeyHide),
        show_tray: value_of_key(ts, Tok::KeyShow),
        close_to_tray: value_of_key(ts, Tok::KeyClose),
        tray_icon_light: value_of_key(ts, Tok::KeyTray),
    }
}

/// What stored text denotes: the record of its token stream when that
/// stream is a well-formed settings object, nothing otherwise.
pub open spec fn spec_parse(c: Seq<char>) -> Option<Settings> {
    match tokens_of(c, 0) {
        Some(ts) => if spec_tokens_shape(ts) {
            Some(settings_of_tokens(ts))
        } else {
            None
        },
        None => None,
    }
}

/// What stored text decodes to: the record it denotes, or the default
/// record when it denotes none.
pub open spec fn spec_decode(c: Seq<char>) -> Settings {
    match spec_parse(c) {
        Some(x) => x,
        None => spec_default_settings(),
    }
}

/// The boolean literal token of a boolean.
pub open spec fn bool_tok(b: bool) -> Tok {
    if b {
        Tok::TrueLit
    } else {
        Tok::FalseLit
    }
}

/// The token stream of the canonical text `save` writes.
pub open spec fn canonical_tokens(s: Settings) -> Seq<Tok> {
    seq![
        Tok::LBrace,
        Tok::KeyNotifications,
        Tok::Colon,
        bool_tok(s.notifications_enabled),
        Tok::Comma,
        Tok::KeyHide,
        Tok::Colon,
        bool_tok(s.hide_decorations),
        Tok::Comma,
        Tok::KeyShow,
        Tok::Colon,
        bool_tok(s.show_tray),
        Tok::Comma,
        Tok::KeyClose,
        Tok::Colon,
        bool_tok(s.close_to_tray),
        Tok::Comma,
        Tok::KeyTray,
        Tok::Colon,
        bool_tok(s.tray_icon_light),
        Tok::RBrace,
    ]
}

/// The text of each token.
pub open spec fn lit_of_tok(t: Tok) -> Seq<char> {
    match t {
        Tok::LBrace => "{"@,
        Tok::RBrace => "}"@,
        Tok::Comma => ","@,
        Tok::Colon => ":"@,
        Tok::TrueLit => "true"@,
        Tok::FalseLit => "false"@,
        Tok::KeyNotifications => "\"notifications_enabled\""@,
        Tok::KeyHide => "\"hide_decorations\""@,
        Tok::KeyShow => "\"show_tray\""@,
        Tok::KeyClose => "\"close_to_tray\""@,
        Tok::KeyTray => "\"tray_icon_light\""@,
    }
}

/// Appending the same text in front keeps distinct texts distinct.
proof fn lemma_prepend_cancel(a: Seq<char>, x: Seq<char>, y: Seq<char>)
    requires
        a + x == a + y,
    ensures
        x == y,
{
    assert((a + x).len() == a.len() + x.len());
    assert((a + y).len() == a.len() + y.len());
    assert(x.len() == y.len());
    assert forall|k: int| 0 <= k < x.len() implies x[k] == y[k] by {
        assert((a + x)[a.len() + k] == x[k]);
        assert((a + y)[a.len() + k] == y[k]);
    }
    assert(x =~= y);
}

/// A range of a text is the two adjacent ranges it splits into.
proof fn lemma_subrange_glue(c: Seq<char>, a: int, b: int, d: int)
    requires
        0 <= a <= b <= d <= c.len(),
    ensures
        c.subrange(a, d) == c.subrange(a, b) + c.subrange(b, d),
{
    assert(c.subrange(a, d) =~= c.subrange(a, b) + c.subrange(b, d));
}

/// When the text from position `p` onward is `a` followed by `r`, then
/// `a` sits at `p` and `r` is the text after it.
proof fn lemma_tail_after(c: Seq<char>, p: int, a: Seq<char>, r: Seq<char>)
    requires
        0 <= p <= c.len(),
        c.subrange(p, c.len() as int) == a + r,
    ensures
        p + a.len() <= c.len(),
        c.subrange(p, p + a.len()) == a,
        has_lit(c, p, a),
        c.subrange(p + a.len(), c.len() as int) == r,
{
    let la = a.len() as int;
    assert(c.subrange(p, c.len() as int).len() == c.len() - p);
    assert((a + r).len() == a.len() + r.len());
    lemma_subrange_glue(c, p, p + la, c.len() as int);
    assert(c.subrange(p, p + la) =~= a) by {
        assert forall|k: int| 0 <= k < la implies c.subrange(p, p + la)[k] == a[k] by {
            assert(c.subrange(p, c.len() as int)[k] == (a + r)[k]);
        }
    }
    lemma_prepend_cancel(a, c.subrange(p + la, c.len() as int), r);
}

/// The character of a placed piece of text, at an offset into it.
proof fn lemma_char_at_piece(c: Seq<char>, q: int, piece: Seq<char>, t: int)
    requires
        0 <= q,
        q + piece.len() <= c.len(),
        c.subrange(q, q + piece.len()) == piece,
        0 <= t < piece.len(),
    ensures
        c[q + t] == piece[t],
{
    assert(c.subrange(q, q + piece.len())[t] == c[q + t]);
}

/// A whitespace run is exactly `w` long when its `w` characters are
/// whitespace and the next one, if any, is not.
proof fn lemma_ws_run_exact(c: Seq<char>, i: int, w: int)
    requires
        0 <= i,
        0 <= w,
        i + w <= c.len(),
        forall|t: int| 0 <= t < w ==> is_ws(#[trigger] c[i + t]),
        i + w == c.len() || !is_ws(c[i + w]),
    ensures
        ws_run(c, i) == w,
    decreases w,
{
    if w == 0 {
    } else {
        assert(is_ws(c[i + 0]));
        assert forall|t: int| 0 <= t < w - 1 implies is_ws(#[trigger] c[(i + 1) + t]) by {
            assert(is_ws(c[i + (t + 1)]));
        }
        lemma_ws_run_exact(c, i + 1, w - 1);
    }
}

/// One tokenizer step: after a whitespace run of length `w`, the text
/// of token `t` sits at `i + w`, and the rest tokenizes to `rest`.
#[verifier::rlimit(100)]
proof fn lemma_token_at(c: Seq<char>, i: int, w: int, t: Tok, rest: Seq<Tok>)
    requires
        0 <= i,
        ws_run(c, i) == w,
        has_lit(c, i + w, lit_of_tok(t)),
        tokens_of(c, i + w + lit_of_tok(t).len()) == Some(rest),
    ensures
        tokens_of(c, i) == Some(seq![t] + rest),
{
    reveal_strlit("{");
    reveal_strlit("}");
    reveal_strlit(",");
    reveal_strlit(":");
    reveal_strlit("true");
    reveal_strlit("false");
    reveal_strlit("\"notifications_enabled\"");
    reveal_strlit("\"hide_decorations\"");
    reveal_strlit("\"show_tray\"");
    reveal_strlit("\"close_to_tray\"");
    reveal_strlit("\"tray_icon_light\"");
    let j = i + w;
    assert forall|b: Seq<char>| #[trigger] has_lit(c, j, b) && b.len() >= 1 implies c[j]
        == b[0] by {
        assert(c.subrange(j, j + b.len())[0] == c[j]);
    }
    assert forall|b: Seq<char>| #[trigger] has_lit(c, j, b) && b.len() >= 2 implies c[j + 1]
        == b[1] by {
        assert(c.subrange(j, j + b.len())[1] == c[j + 1]);
    }
    match t {
        Tok::LBrace => assert(tokens_of(c, i) == Some(seq![t] + rest)),
        Tok::RBrace => assert(tokens_of(c, i) == Some(seq![t] + rest)),
        Tok::Comma => assert(tokens_of(c, i) == Some(seq![t] + rest)),
        Tok::Colon => assert(tokens_of(c, i) == Some(seq![t] + rest)),
        Tok::TrueLit => assert(tokens_of(c, i) == Some(seq![t] + rest)),
        Tok::FalseLit => assert(tokens_of(c, i) == Some(seq![t] + rest)),
        Tok::KeyNotifications => assert(tokens_of(c, i) == Some(seq![t] + rest)),
        Tok::KeyHide => assert(tokens_of(c, i) == Some(seq![t] + rest)),
        Tok::KeyShow => assert(tokens_of(c, i) == Some(seq![t] + rest)),
        Tok::KeyClose => assert(tokens_of(c, i) == Some(seq![t] + rest)),
        Tok::KeyTray => assert(tokens_of(c, i) == Some(seq![t] + rest)),
    }
}

/// The position of the comma before the second member.
spec fn p_q2(s: Settings) -> int {
    29 + spec_bool_text(s.notifications_enabled).len() as int
}

/// The position of the comma before the third member.
spec fn p_q3(s: Settings) -> int {
    p_q2(s) + 24 + spec_bool_text(s.hide_decorations).len() as int
}

/// The position of the comma before the fourth member.
spec fn p_q4(s: Settings) -> int {
    p_q3(s) + 17 + spec_bool_text(s.show_tray).len() as int
}

/// The position of the comma before the fifth member.
spec fn p_q5(s: Settings) -> int {
    p_q4(s) + 21 + spec_bool_text(s.close_to_tray).len() as int
}

/// The position of the closing newline and brace.
spec fn p_q6(s: Settings) -> int {
    p_q5(s) + 23 + spec_bool_text(s.tray_icon_light).len() as int
}

/// Where every piece of the canonical text sits.
#[verifier::rlimit(100)]
#[verifier::spinoff_prover]
proof fn lemma_placements(s: Settings)
    ensures
        spec_encode(s).len() == p_q6(s) + 2,
        has_lit(spec_encode(s), 0, "{"@),
        has_lit(spec_encode(s), 1, "\n  "@),
        has_lit(spec_encode(s), 4, "\"notifications_enabled\""@),
        has_lit(spec_encode(s), 27, ":"@),
        has_lit(spec_encode(s), 28, " "@),
        has_lit(spec_encode(s), 29, spec_bool_text(s.notifications_enabled)),
        has_lit(spec_encode(s), p_q2(s), ","@),
        has_lit(spec_encode(s), p_q2(s) + 1, "\n  "@),
        has_lit(spec_encode(s), p_q2(s) + 4, "\"hide_decorations\""@),
        has_lit(spec_encode(s), p_q2(s) + 22, ":"@),
        has_lit(spec_encode(s), p_q2(s) + 23, " "@),
        has_lit(spec_encode(s), p_q2(s) + 24, spec_bool_text(s.hide_decorations)),
        has_lit(spec_encode(s), p_q3(s), ","@),
        has_lit(spec_encode(s), p_q3(s) + 1, "\n  "@),
        has_lit(spec_encode(s), p_q3(s) + 4, "\"show_tray\""@),
        has_lit(spec_encode(s), p_q3(s) + 15, ":"@),
        has_lit(spec_encode(s), p_q3(s) + 16, " "@),
        has_lit(spec_encode(s), p_q3(s) + 17, spec_bool_text(s.show_tray)),
        has_lit(spec_encode(s), p_q4(s), ","@),
        has_lit(spec_encode(s), p_q4(s) + 1, "\n  "@),
        has_lit(spec_encode(s), p_q4(s) + 4, "\"close_to_tray\""@),
        has_lit(spec_encode(s), p_q4(s) + 19, ":"@),
        has_lit(spec_encode(s), p_q4(s) + 20, " "@),
        has_lit(spec_encode(s), p_q4(s) + 21, spec_bool_text(s.close_to_tray)),
        has_lit(spec_encode(s), p_q5(s), ","@),
        has_lit(spec_encode(s), p_q5(s) + 1, "\n  "@),
        has_lit(spec_encode(s), p_q5(s) + 4, "\"tray_icon_light\""@),
        has_lit(spec_encode(s), p_q5(s) + 21, ":"@),
        has_lit(spec_encode(s), p_q5(s) + 22, " "@),
        has_lit(spec_encode(s), p_q5(s) + 23, spec_bool_text(s.tray_icon_light)),
        has_lit(spec_encode(s), p_q6(s), "\n"@),
        has_lit(spec_encode(s), p_q6(s) + 1, "}"@),
{
    reveal_strlit("{");
    reveal_strlit("}");
    reveal_strlit(",");
    reveal_strlit(":");
    reveal_strlit(" ");
    reveal_strlit("\n");
    reveal_strlit("\n  ");
    reveal_strlit("true");
    reveal_strlit("false");
    reveal_strlit("\"notifications_enabled\"");
    reveal_strlit("\"hide_decorations\"");
    reveal_strlit("\"show_tray\"");
    reveal_strlit("\"close_to_tray\"");
    reveal_strlit("\"tray_icon_light\"");
    reveal(spec_encode);
    reveal(enc_m1);
    reveal(enc_m2);
    reveal(enc_m3);
    reveal(enc_m4);
    reveal(enc_m5);
    let c = spec_encode(s);
    let v1 = spec_bool_text(s.notifications_enabled);
    let v2 = spec_bool_text(s.hide_decorations);
    let v3 = spec_bool_text(s.show_tray);
    let v4 = spec_bool_text(s.close_to_tray);
    let v5 = spec_bool_text(s.tray_icon_light);
    let q2 = p_q2(s);
    let q3 = p_q3(s);
    let q4 = p_q4(s);
    let q5 = p_q5(s);
    let q6 = p_q6(s);
    assert(c.subrange(0, c.len() as int) =~= c);
    lemma_tail_after(c, 0, "{"@, "\n  "@ + enc_m1(s));
    lemma_tail_after(c, 1, "\n  "@, enc_m1(s));
    lemma_tail_after(c, 4, "\"notifications_enabled\""@, ":"@ + (" "@ + (v1 + enc_m2(s))));
    lemma_tail_after(c, 27, ":"@, " "@ + (v1 + enc_m2(s)));
    lemma_tail_after(c, 28, " "@, v1 + enc_m2(s));
    lemma_tail_after(c, 29, v1, enc_m2(s));
    lemma_tail_after(c, q2, ","@, "\n  "@ + ("\"hide_decorations\""@ + (":"@ + (" "@ + (v2
        + enc_m3(s))))));
    lemma_tail_after(c, q2 + 1, "\n  "@, "\"hide_decorations\""@ + (":"@ + (" "@ + (v2 + enc_m3(
        s,
    )))));
    lemma_tail_after(c, q2 + 4, "\"hide_decorations\""@, ":"@ + (" "@ + (v2 + enc_m3(s))));
    lemma_tail_after(c, q2 + 22, ":"@, " "@ + (v2 + enc_m3(s)));
    lemma_tail_after(c, q2 + 23, " "@, v2 + enc_m3(s));
    lemma_tail_after(c, q2 + 24, v2, enc_m3(s));
    lemma_tail_after(c, q3, ","@, "\n  "@ + ("\"show_tray\""@ + (":"@ + (" "@ + (v3 + enc_m4(
        s,
    ))))));
    lemma_tail_after(c, q3 + 1, "\n  "@, "\"show_tray\""@ + (":"@ + (" "@ + (v3 + enc_m4(s)))));
    lemma_tail_after(c, q3 + 4, "\"show_tray\""@, ":"@ + (" "@ + (v3 + enc_m4(s))));
    lemma_tail_after(c, q3 + 15, ":"@, " "@ + (v3 + enc_m4(s)));
    lemma_tail_after(c, q3 + 16, " "@, v3 + enc_m4(s));
    lemma_tail_after(c, q3 + 17, v3, enc_m4(s));
    lemma_tail_after(c, q4, ","@, "\n  "@ + ("\"close_to_tray\""@ + (":"@ + (" "@ + (v4 + enc_m5(
        s,
    ))))));
    lemma_tail_after(c, q4 + 1, "\n  "@, "\"close_to_tray\""@ + (":"@ + (" "@ + (v4 + enc_m5(
        s,
    )))));
    lemma_tail_after(c, q4 + 4, "\"close_to_tray\""@, ":"@ + (" "@ + (v4 + enc_m5(s))));
    lemma_tail_after(c, q4 + 19, ":"@, " "@ + (v4 + enc_m5(s)));
    lemma_tail_after(c, q4 + 20, " "@, v4 + enc_m5(s));
    lemma_tail_after(c, q4 + 21, v4, enc_m5(s));
    lemma_tail_after(c, q5, ","@, "\n  "@ + ("\"tray_icon_light\""@ + (":"@ + (" "@ + (v5 + ("\n"@
        + "}"@))))));
    lemma_tail_after(c, q5 + 1, "\n  "@, "\"tray_icon_light\""@ + (":"@ + (" "@ + (v5 + ("\n"@
        + "}"@)))));
    lemma_tail_after(c, q5 + 4, "\"tray_icon_light\""@, ":"@ + (" "@ + (v5 + ("\n"@ + "}"@))));
    lemma_tail_after(c, q5 + 21, ":"@, " "@ + (v5 + ("\n"@ + "}"@)));
    lemma_tail_after(c, q5 + 22, " "@, v5 + ("\n"@ + "}"@));
    lemma_tail_after(c, q5 + 23, v5, "\n"@ + "}"@);
    lemma_tail_after(c, q6, "\n"@, "}"@);
    assert(c.len() == q6 + 2);
    assert(c.subrange(q6 + 1, q6 + 2) =~= c.subrange(q6 + 1, c.len() as int));
    assert(has_lit(c, q6 + 1, "}"@));
}

/// The first character of a placed piece, from its placement.
proof fn lemma_head_char(c: Seq<char>, q: int, piece: Seq<char>)
    requires
        has_lit(c, q, piece),
        piece.len() >= 1,
    ensures
        c[q] == piece[0],
{
    assert(c.subrange(q, q + piece.len())[0] == c[q]);
}

/// One `", key: bool"` member step of the canonical text, generic over
/// the member's key and positions.
#[verifier::rlimit(100)]
#[verifier::spinoff_prover]
proof fn lemma_member_tokens(
    c: Seq<char>,
    q: int,
    key: Tok,
    key_end: int,
    b: bool,
    rest: Seq<Tok>,
)
    requires
        0 <= q,
        has_lit(c, q, ","@),
        has_lit(c, q + 1, "\n  "@),
        has_lit(c, q + 4, lit_of_tok(key)),
        key_end == q + 4 + lit_of_tok(key).len(),
        has_lit(c, key_end, ":"@),
        has_lit(c, key_end + 1, " "@),
        has_lit(c, key_end + 2, spec_bool_text(b)),
        is_key_tok(key),
        tokens_of(c, key_end + 2 + spec_bool_text(b).len()) == Some(rest),
    ensures
        tokens_of(c, q) == Some(
            seq![Tok::Comma] + (seq![key] + (seq![Tok::Colon] + (seq![bool_tok(b)] + rest))),
        ),
{
    reveal_strlit("{");
    reveal_strlit("}");
    reveal_strlit(",");
    reveal_strlit(":");
    reveal_strlit(" ");
    reveal_strlit("\n");
    reveal_strlit("\n  ");
    reveal_strlit("true");
    reveal_strlit("false");
    reveal_strlit("\"notifications_enabled\"");
    reveal_strlit("\"hide_decorations\"");
    reveal_strlit("\"show_tray\"");
    reveal_strlit("\"close_to_tray\"");
    reveal_strlit("\"tray_icon_light\"");
    lemma_head_char(c, key_end + 1, " "@);
    lemma_head_char(c, key_end + 2, spec_bool_text(b));
    let ts_bool = seq![bool_tok(b)] + rest;
    if b {
        lemma_ws_run_exact(c, key_end + 1, 1);
        lemma_token_at(c, key_end + 1, 1, Tok::TrueLit, rest);
    } else {
        lemma_ws_run_exact(c, key_end + 1, 1);
        lemma_token_at(c, key_end + 1, 1, Tok::FalseLit, rest);
    }
    assert(tokens_of(c, key_end + 1) == Some(ts_bool));
    lemma_head_char(c, key_end, ":"@);
    lemma_ws_run_exact(c, key_end, 0);
    lemma_token_at(c, key_end, 0, Tok::Colon, ts_bool);
    let ts_colon = seq![Tok::Colon] + ts_bool;
    assert(tokens_of(c, key_end) == Some(ts_colon));
    lemma_char_at_piece(c, q + 1, "\n  "@, 0);
    lemma_char_at_piece(c, q + 1, "\n  "@, 1);
    lemma_char_at_piece(c, q + 1, "\n  "@, 2);
    lemma_head_char(c, q + 4, lit_of_tok(key));
    lemma_ws_run_exact(c, q + 1, 3);
    lemma_token_at(c, q + 1, 3, key, ts_colon);
    let ts_key = seq![key] + ts_colon;
    assert(tokens_of(c, q + 1) == Some(ts_key));
    lemma_head_char(c, q, ","@);
    lemma_ws_run_exact(c, q, 0);
    lemma_token_at(c, q, 0, Tok::Comma, ts_key);
}

/// The opening `{ "notifications_enabled": bool` of the canonical text.
#[verifier::rlimit(100)]
#[verifier::spinoff_prover]
proof fn lemma_member1_tokens(c: Seq<char>, b: bool, rest: Seq<Tok>)
    requires
        has_lit(c, 0, "{"@),
        has_lit(c, 1, "\n  "@),
        has_lit(c, 4, "\"notifications_enabled\""@),
        has_lit(c, 27, ":"@),
        has_lit(c, 28, " "@),
        has_lit(c, 29, spec_bool_text(b)),
        tokens_of(c, 29 + spec_bool_text(b).len() as int) == Some(rest),
    ensures
        tokens_of(c, 0) == Some(
            seq![Tok::LBrace] + (seq![Tok::KeyNotifications] + (seq![Tok::Colon] + (seq![bool_tok(
                b,
            )] + rest))),
        ),
{
    reveal_strlit("{");
    reveal_strlit(":");
    reveal_strlit(" ");
    reveal_strlit("\n  ");
    reveal_strlit("true");
    reveal_strlit("false");
    reveal_strlit("\"notifications_enabled\"");
    lemma_head_char(c, 28, " "@);
    lemma_head_char(c, 29, spec_bool_text(b));
    if b {
        lemma_ws_run_exact(c, 28, 1);
        lemma_token_at(c, 28, 1, Tok::TrueLit, rest);
    } else {
        lemma_ws_run_exact(c, 28, 1);
        lemma_token_at(c, 28, 1, Tok::FalseLit, rest);
    }
    let ts3 = seq![bool_tok(b)] + rest;
    assert(tokens_of(c, 28) == Some(ts3));
    lemma_head_char(c, 27, ":"@);
    lemma_ws_run_exact(c, 27, 0);
    lemma_token_at(c, 27, 0, Tok::Colon, ts3);
    let ts2 = seq![Tok::Colon] + ts3;
    assert(tokens_of(c, 27) == Some(ts2));
    lemma_char_at_piece(c, 1, "\n  "@, 0);
    lemma_char_at_piece(c, 1, "\n  "@, 1);
    lemma_char_at_piece(c, 1, "\n  "@, 2);
    lemma_head_char(c, 4, "\"notifications_enabled\""@);
    lemma_ws_run_exact(c, 1, 3);
    lemma_token_at(c, 1, 3, Tok::KeyNotifications, ts2);
    let ts1 = seq![Tok::KeyNotifications] + ts2;
    assert(tokens_of(c, 1) == Some(ts1));
    lemma_head_char(c, 0, "{"@);
    lemma_ws_run_exact(c, 0, 0);
    lemma_token_at(c, 0, 0, Tok::LBrace, ts1);
}

/// The closing newline and brace of the canonical text.
#[verifier::rlimit(100)]
#[verifier::spinoff_prover]
proof fn lemma_close_tokens(s: Settings)
    ensures
        tokens_of(spec_encode(s), p_q6(s)) == Some(seq![Tok::RBrace]),
{
    reveal_strlit("}");
    reveal_strlit("\n");
    lemma_placements(s);
    let c = spec_encode(s);
    let q6 = p_q6(s);
    lemma_ws_run_exact(c, q6 + 2, 0);
    assert(tokens_of(c, q6 + 2) == Some(Seq::<Tok>::empty()));
    lemma_head_char(c, q6, "\n"@);
    lemma_head_char(c, q6 + 1, "}"@);
    lemma_ws_run_exact(c, q6, 1);
    lemma_token_at(c, q6, 1, Tok::RBrace, Seq::empty());
    assert(seq![Tok::RBrace] + Seq::<Tok>::empty() =~= seq![Tok::RBrace]);
}

/// The canonical token stream from the fifth member's comma onward.
spec fn toks_from5(s: Settings) -> Seq<Tok> {
    seq![Tok::Comma, Tok::KeyTray, Tok::Colon, bool_tok(s.tray_icon_light), Tok::RBrace]
}

/// The canonical token stream from the fourth member's comma onward.
spec fn toks_from4(s: Settings) -> Seq<Tok> {
    seq![Tok::Comma, Tok::KeyClose, Tok::Colon, bool_tok(s.close_to_tray)] + toks_from5(s)
}

/// The canonical token stream from the third member's comma onward.
spec fn toks_from3(s: Settings) -> Seq<Tok> {
    seq![Tok::Comma, Tok::KeyShow, Tok::Colon, bool_tok(s.show_tray)] + toks_from4(s)
}

/// The canonical token stream from the second member's comma onward.
spec fn toks_from2(s: Settings) -> Seq<Tok> {
    seq![Tok::Comma, Tok::KeyHide, Tok::Colon, bool_tok(s.hide_decorations)] + toks_from3(s)
}

/// The canonical text from the fifth member's comma tokenizes as written.
#[verifier::rlimit(100)]
#[verifier::spinoff_prover]
proof fn lemma_tail5(s: Settings)
    ensures
        tokens_of(spec_encode(s), p_q5(s)) == Some(toks_from5(s)),
{
    reveal_strlit("true");
    reveal_strlit("false");
    reveal_strlit("\"tray_icon_light\"");
    lemma_placements(s);
    lemma_close_tokens(s);
    let c = spec_encode(s);
    lemma_member_tokens(c, p_q5(s), Tok::KeyTray, p_q5(s) + 21, s.tray_icon_light, seq![Tok::RBrace]);
    assert(seq![Tok::Comma] + (seq![Tok::KeyTray] + (seq![Tok::Colon] + (seq![bool_tok(
        s.tray_icon_light,
    )] + seq![Tok::RBrace]))) =~= toks_from5(s));
}

/// The canonical text from the fourth member's comma tokenizes as written.
#[verifier::rlimit(100)]
#[verifier::spinoff_prover]
proof fn lemma_tail4(s: Settings)
    ensures
        tokens_of(spec_encode(s), p_q4(s)) == Some(toks_from4(s)),
{
    reveal_strlit("true");
    reveal_strlit("false");
    reveal_strlit("\"close_to_tray\"");
    lemma_placements(s);
    lemma_tail5(s);
    let c = spec_encode(s);
    lemma_member_tokens(c, p_q4(s), Tok::KeyClose, p_q4(s) + 19, s.close_to_tray, toks_from5(s));
    assert(seq![Tok::Comma] + (seq![Tok::KeyClose] + (seq![Tok::Colon] + (seq![bool_tok(
        s.close_to_tray,
    )] + toks_from5(s)))) =~= toks_from4(s));
}

/// The canonical text from the third member's comma tokenizes as written.
#[verifier::rlimit(100)]
#[verifier::spinoff_prover]
proof fn lemma_tail3(s: Settings)
    ensures
        tokens_of(spec_encode(s), p_q3(s)) == Some(toks_from3(s)),
{
    reveal_strlit("true");
    reveal_strlit("false");
    reveal_strlit("\"show_tray\"");
    lemma_placements(s);
    lemma_tail4(s);
    let c = spec_encode(s);
    lemma_member_tokens(c, p_q3(s), Tok::KeyShow, p_q3(s) + 15, s.show_tray, toks_from4(s));
    assert(seq![Tok::Comma] + (seq![Tok::KeyShow] + (seq![Tok::Colon] + (seq![bool_tok(
        s.show_tray,
    )] + toks_from4(s)))) =~= toks_from3(s));
}

/// The canonical text from the second member's comma tokenizes as written.
#[verifier::rlimit(100)]
#[verifier::spinoff_prover]
proof fn lemma_tail2(s: Settings)
    ensures
        tokens_of(spec_encode(s), p_q2(s)) == Some(toks_from2(s)),
{
    reveal_strlit("true");
    reveal_strlit("false");
    reveal_strlit("\"hide_decorations\"");
    lemma_placements(s);
    lemma_tail3(s);
    let c = spec_encode(s);
    lemma_member_tokens(c, p_q2(s), Tok::KeyHide, p_q2(s) + 22, s.hide_decorations, toks_from3(s));
    assert(seq![Tok::Comma] + (seq![Tok::KeyHide] + (seq![Tok::Colon] + (seq![bool_tok(
        s.hide_decorations,
    )] + toks_from3(s)))) =~= toks_from2(s));
}

/// The canonical text `save` writes tokenizes to the canonical stream.
#[verifier::rlimit(100)]
#[verifier::spinoff_prover]
proof fn lemma_tokens_canonical(s: Settings)
    ensures
        tokens_of(spec_encode(s), 0) == Some(canonical_tokens(s)),
{
    reveal_strlit("true");
    reveal_strlit("false");
    reveal_strlit("\"notifications_enabled\"");
    lemma_placements(s);
    lemma_tail2(s);
    let c = spec_encode(s);
    lemma_member1_tokens(c, s.notifications_enabled, toks_from2(s));
    assert(seq![Tok::LBrace] + (seq![Tok::KeyNotifications] + (seq![Tok::Colon] + (seq![bool_tok(
        s.notifications_enabled,
    )] + toks_from2(s)))) =~= canonical_tokens(s));
}

/// Saving a record and loading the result gives the record back.
pub proof fn lemma_save_load_round_trip(s: Settings)
    ensures
        spec_decode(spec_encode(s)) == s,
{
    lemma_tokens_canonical(s);
    let ts = canonical_tokens(s);
    assert(spec_tokens_shape(ts));
    assert(settings_of_tokens(ts) == s);
}

/// Two records with the same stored text are the same record.
pub proof fn lemma_encode_injective(s1: Settings, s2: Settings)
    requires
        spec_encode(s1) == spec_encode(s2),
    ensures
        s1 == s2,
{
    lemma_save_load_round_trip(s1);
    lemma_save_load_round_trip(s2);
}

/// The text of one boolean value.
fn bool_text(b: bool) -> (r: &'static str)
    ensures
        r@ == spec_bool_text(b),
{
    if b {
        "true"
    } else {
        "false"
    }
}

/// Renders the stored text from the comma before the fifth key onward.
fn save_m5(s: &Settings) -> (r: String)
    ensures
        r@ == enc_m5(*s),
{
    let mut out = String::from_str(",");
    out.append("\n  ");
    out.append("\"tray_icon_light\"");
    out.append(":");
    out.append(" ");
    out.append(bool_text(s.tray_icon_light));
    out.append("\n");
    out.append("}");
    proof {
        reveal(enc_m5);
        assert(out@ =~= enc_m5(*s));
    }
    out
}

/// Renders the stored text from the comma before the fourth key onward.
fn save_m4(s: &Settings) -> (r: String)
    ensures
        r@ == enc_m4(*s),
{
    let mut out = String::from_str(",");
    out.append("\n  ");
    out.append("\"close_to_tray\"");
    out.append(":");
    out.append(" ");
    out.append(bool_text(s.close_to_tray));
    let t = save_m5(s);
    out.append(t.as_str());
    proof {
        reveal(enc_m4);
        assert(out@ =~= enc_m4(*s));
    }
    out
}

/// Renders the stored text from the comma before the third key onward.
fn save_m3(s: &Settings) -> (r: String)
    ensures
        r@ == enc_m3(*s),
{
    let mut out = String::from_str(",");
    out.append("\n  ");
    out.append("\"show_tray\"");
    out.append(":");
    out.append(" ");
    out.append(bool_text(s.show_tray));
    let t = save_m4(s);
    out.append(t.as_str());
    proof {
        reveal(enc_m3);
        assert(out@ =~= enc_m3(*s));
    }
    out
}

/// Renders the stored text from the comma before the second key onward.
fn save_m2(s: &Settings) -> (r: String)
    ensures
        r@ == enc_m2(*s),
{
    let mut out = String::from_str(",");
    out.append("\n  ");
    out.append("\"hide_decorations\"");
    out.append(":");
    out.append(" ");
    out.append(bool_text(s.hide_decorations));
    let t = save_m3(s);
    out.append(t.as_str());
    proof {
        reveal(enc_m2);
        assert(out@ =~= enc_m2(*s));
    }
    out
}

/// Renders the stored text from the first key onward.
fn save_m1(s: &Settings) -> (r: String)
    ensures
        r@ == enc_m1(*s),
{
    let mut out = String::from_str("\"notifications_enabled\"");
    out.append(":");
    out.append(" ");
    out.append(bool_text(s.notifications_enabled));
    let t = save_m2(s);
    out.append(t.as_str());
    proof {
        reveal(enc_m1);
        assert(out@ =~= enc_m1(*s));
    }
    out
}

impl Settings {
    /// Renders this record as the stored JSON text.
    pub fn save(&self) -> (r: String)
        ensures
            r@ == spec_encode(*self),
    {
        let mut out = String::from_str("{");
        out.append("\n  ");
        let t = save_m1(self);
        out.append(t.as_str());
        proof {
            reveal(spec_encode);
            assert(out@ =~= spec_encode(*self));
        }
        out
    }

    /// Where the record is stored, under the per-user config folder.
    pub fn get_settings_path(config_dir: &str) -> (r: String)
        ensures
            r@ == config_dir@ + "/settings.json"@,
    {
        let mut out = String::from_str(config_dir);
        out.append("/settings.json");
        out
    }

    /// Interprets what was read from storage. Missing storage (`None`)
    /// and content that denotes no record both give the default record;
    /// a JSON object carrying the five boolean fields, in any order and
    /// with any whitespace, gives exactly the record it denotes.
    pub fn load(contents: Option<&str>) -> (r: Settings)
        ensures
            match contents {
                Some(c) => r == spec_decode(c@),
                None => r == spec_default_settings(),
            },
    {
        match contents {
            Some(c) => decode_settings(c),
            None => Settings::default(),
        }
    }
}

/// Whether `lit` sits in `s` at position `i`; on success, the position
/// just after it.
fn match_lit(s: &str, i: usize, lit: &str) -> (r: Option<usize>)
    requires
        i <= s@.len(),
    ensures
        match r {
            Some(j) => j == i + lit@.len() && j <= s@.len() && s@.subrange(
                i as int,
                j as int,
            ) == lit@,
            None => !has_lit(s@, i as int, lit@),
        },
{
    let n: usize = lit.unicode_len();
    let total: usize = s.unicode_len();
    if n > total - i {
        return None;
    }
    let mut j: usize = 0;
    while j < n
        invariant
            i + n <= total,
            total == s@.len(),
            n == lit@.len(),
            j <= n,
            forall|k: int| 0 <= k < j ==> s@[i + k] == lit@[k],
        decreases n - j,
    {
        if s.get_char(i + j) != lit.get_char(j) {
            proof {
                assert(s@.subrange(i as int, i + n)[j as int] == s@[i + j]);
            }
            return None;
        }
        j = j + 1;
    }
    proof {
        assert(s@.subrange(i as int, (i + n) as int) =~= lit@);
    }
    Some(i + n)
}

/// Whether the character at `j` is JSON whitespace.
fn ws_at(s: &str, j: usize) -> (r: bool)
    requires
        j < s@.len(),
    ensures
        r == is_ws(s@[j as int]),
{
    let ch = s.get_char(j);
    ch == ' ' || ch == '\t' || ch == '\n' || ch == '\r'
}

/// The position just after the whitespace run starting at `i`.
fn skip_ws(s: &str, i: usize) -> (r: usize)
    requires
        i <= s@.len(),
    ensures
        i <= r <= s@.len(),
        r == i + ws_run(s@, i as int),
{
    let n: usize = s.unicode_len();
    let mut j: usize = i;
    while j < n && ws_at(s, j)
        invariant
            i <= j <= n,
            n == s@.len(),
            ws_run(s@, i as int) == (j - i) + ws_run(s@, j as int),
        decreases n - j,
    {
        j = j + 1;
    }
    j
}

/// Prepends an already-read token list to a tokenization of the rest.
pub open spec fn opt_prepend(pre: Seq<Tok>, rest: Option<Seq<Tok>>) -> Option<Seq<Tok>> {
    match rest {
        Some(ts) => Some(pre + ts),
        None => None,
    }
}

/// Reading one more token moves it from the rest to the prefix.
proof fn lemma_prepend_step(pre: Seq<Tok>, t: Tok, rest: Option<Seq<Tok>>)
    ensures
        opt_prepend(pre.push(t), rest) == opt_prepend(pre, tok_cons(t, rest)),
{
    match rest {
        Some(ts) => {
            assert(pre.push(t) + ts =~= pre + (seq![t] + ts));
        },
        None => {},
    }
}

/// Splits the text into its token stream, exactly as `tokens_of` does.
#[verifier::rlimit(100)]
fn tokenize(s: &str) -> (r: Option<Vec<Tok>>)
    ensures
        match r {
            Some(v) => tokens_of(s@, 0) == Some(v@),
            None => tokens_of(s@, 0) is None,
        },
{
    let n: usize = s.unicode_len();
    let mut toks: Vec<Tok> = Vec::new();
    let mut i: usize = 0;
    loop
        invariant
            i <= n,
            n == s@.len(),
            tokens_of(s@, 0) == opt_prepend(toks@, tokens_of(s@, i as int)),
        decreases n - i,
    {
        proof {
            reveal_strlit("{");
            reveal_strlit("}");
            reveal_strlit(",");
            reveal_strlit(":");
            reveal_strlit("true");
            reveal_strlit("false");
            reveal_strlit("\"notifications_enabled\"");
            reveal_strlit("\"hide_decorations\"");
            reveal_strlit("\"show_tray\"");
            reveal_strlit("\"close_to_tray\"");
            reveal_strlit("\"tray_icon_light\"");
        }
        let ghost i0 = i as int;
        let ghost pre = toks@;
        let j = skip_ws(s, i);
        if j == n {
            proof {
                assert(tokens_of(s@, i0) == Some(Seq::<Tok>::empty()));
                assert(toks@ + Seq::<Tok>::empty() =~= toks@);
            }
            return Some(toks);
        }
        let tok: Tok;
        let next: usize;
        if let Some(j2) = match_lit(s, j, "{") {
            proof {
                assert(tokens_of(s@, i0) == tok_cons(Tok::LBrace, tokens_of(s@, j2 as int)));
            }
            tok = Tok::LBrace;
            next = j2;
        } else if let Some(j2) = match_lit(s, j, "}") {
            proof {
                assert(tokens_of(s@, i0) == tok_cons(Tok::RBrace, tokens_of(s@, j2 as int)));
            }
            tok = Tok::RBrace;
            next = j2;
        } else if let Some(j2) = match_lit(s, j, ",") {
            proof {
                assert(tokens_of(s@, i0) == tok_cons(Tok::Comma, tokens_of(s@, j2 as int)));
            }
            tok = Tok::Comma;
            next = j2;
        } else if let Some(j2) = match_lit(s, j, ":") {
            proof {
                assert(tokens_of(s@, i0) == tok_cons(Tok::Colon, tokens_of(s@, j2 as int)));
            }
            tok = Tok::Colon;
            next = j2;
        } else if let Some(j2) = match_lit(s, j, "true") {
            proof {
                assert(tokens_of(s@, i0) == tok_cons(Tok::TrueLit, tokens_of(s@, j2 as int)));
            }
            tok = Tok::TrueLit;
            next = j2;
        } else if let Some(j2) = match_lit(s, j, "false") {
            proof {
                assert(tokens_of(s@, i0) == tok_cons(Tok::FalseLit, tokens_of(s@, j2 as int)));
            }
            tok = Tok::FalseLit;
            next = j2;
        } else if let Some(j2) = match_lit(s, j, "\"notifications_enabled\"") {
            proof {
                assert(tokens_of(s@, i0) == tok_cons(
                    Tok::KeyNotifications,
                    tokens_of(s@, j2 as int),
                ));
            }
            tok = Tok::KeyNotifications;
            next = j2;
        } else if let Some(j2) = match_lit(s, j, "\"hide_decorations\"") {
            proof {
                assert(tokens_of(s@, i0) == tok_cons(Tok::KeyHide, tokens_of(s@, j2 as int)));
            }
            tok = Tok::KeyHide;
            next = j2;
        } else if let Some(j2) = match_lit(s, j, "\"show_tray\"") {
            proof {
                assert(tokens_of(s@, i0) == tok_cons(Tok::KeyShow, tokens_of(s@, j2 as int)));
            }
            tok = Tok::KeyShow;
            next = j2;
        } else if let Some(j2) = match_lit(s, j, "\"close_to_tray\"") {
            proof {
                assert(tokens_of(s@, i0) == tok_cons(Tok::KeyClose, tokens_of(s@, j2 as int)));
            }
            tok = Tok::KeyClose;
            next = j2;
        } else if let Some(j2) = match_lit(s, j, "\"tray_icon_light\"") {
            proof {
                assert(tokens_of(s@, i0) == tok_cons(Tok::KeyTray, tokens_of(s@, j2 as int)));
            }
            tok = Tok::KeyTray;
            next = j2;
        } else {
            proof {
                assert(tokens_of(s@, i0) is None);
            }
            return None;
        }
        toks.push(tok);
        proof {
            lemma_prepend_step(pre, tok, tokens_of(s@, next as int));
        }
        i = next;
    }
}

/// Whether a token is one of the five field keys.
fn is_key_tok_exec(t: Tok) -> (r: bool)
    ensures
        r == is_key_tok(t),
{
    match t {
        Tok::KeyNotifications => true,
        Tok::KeyHide => true,
        Tok::KeyShow => true,
        Tok::KeyClose => true,
        Tok::KeyTray => true,
        _ => false,
    }
}

/// Whether a token is one of the two boolean literals.
fn is_bool_tok_exec(t: Tok) -> (r: bool)
    ensures
        r == is_bool_tok(t),
{
    match t {
        Tok::TrueLit => true,
        Tok::FalseLit => true,
        _ => false,
    }
}

/// Whether key `k` appears in one of the five key slots.
fn key_slot_present_exec(ts: &Vec<Tok>, k: Tok) -> (r: bool)
    requires
        ts@.len() == 21,
    ensures
        r == key_slot_present(ts@, k),
{
    ts[1] == k || ts[5] == k || ts[9] == k || ts[13] == k || ts[17] == k
}

/// The value given for key `k`.
fn value_of_key_exec(ts: &Vec<Tok>, k: Tok) -> (r: bool)
    requires
        ts@.len() == 21,
    ensures
        r == value_of_key(ts@, k),
{
    if ts[1] == k {
        ts[3] == Tok::TrueLit
    } else if ts[5] == k {
        ts[7] == Tok::TrueLit
    } else if ts[9] == k {
        ts[11] == Tok::TrueLit
    } else if ts[13] == k {
        ts[15] == Tok::TrueLit
    } else {
        ts[19] == Tok::TrueLit
    }
}

/// Checks the object shape and extracts the record it denotes.
fn parse_tokens(ts: &Vec<Tok>) -> (r: Option<Settings>)
    ensures
        match r {
            Some(x) => spec_tokens_shape(ts@) && x == settings_of_tokens(ts@),
            None => !spec_tokens_shape(ts@),
        },
{
    if ts.len() != 21 {
        return None;
    }
    if !(ts[0] == Tok::LBrace && ts[20] == Tok::RBrace) {
        return None;
    }
    if !(is_key_tok_exec(ts[1]) && ts[2] == Tok::Colon && is_bool_tok_exec(ts[3])) {
        return None;
    }
    if !(ts[4] == Tok::Comma && ts[8] == Tok::Comma && ts[12] == Tok::Comma && ts[16]
        == Tok::Comma) {
        return None;
    }
    if !(is_key_tok_exec(ts[5]) && ts[6] == Tok::Colon && is_bool_tok_exec(ts[7])) {
        return None;
    }
    if !(is_key_tok_exec(ts[9]) && ts[10] == Tok::Colon && is_bool_tok_exec(ts[11])) {
        return None;
    }
    if !(is_key_tok_exec(ts[13]) && ts[14] == Tok::Colon && is_bool_tok_exec(ts[15])) {
        return None;
    }
    if !(is_key_tok_exec(ts[17]) && ts[18] == Tok::Colon && is_bool_tok_exec(ts[19])) {
        return None;
    }
    if !(key_slot_present_exec(ts, Tok::KeyNotifications) && key_slot_present_exec(
        ts,
        Tok::KeyHide,
    ) && key_slot_present_exec(ts, Tok::KeyShow) && key_slot_present_exec(ts, Tok::KeyClose)
        && key_slot_present_exec(ts, Tok::KeyTray)) {
        return None;
    }
    Some(
        Settings {
            notifications_enabled: value_of_key_exec(ts, Tok::KeyNotifications),
            hide_decorations: value_of_key_exec(ts, Tok::KeyHide),
            show_tray: value_of_key_exec(ts, Tok::KeyShow),
            close_to_tray: value_of_key_exec(ts, Tok::KeyClose),
            tray_icon_light: value_of_key_exec(ts, Tok::KeyTray),
        },
    )
}

/// Parses stored text: the record it denotes, or the default.
fn decode_settings(c: &str) -> (r: Settings)
    ensures
        r == spec_decode(c@),
{
    match tokenize(c) {
        Some(toks) => match parse_tokens(&toks) {
            Some(x) => x,
            None => Settings::default(),
        },
        None => Settings::default(),
    }
}

} // verus!
