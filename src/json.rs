//! JSON literals for embedding user-supplied values in scripts.
//!
//! Every value that a client supplies reaches a generated script only as a
//! JSON literal, so quotes, backslashes and line breaks in it cannot end the
//! literal early.
use vstd::prelude::*;

verus! {

/// `serde_json::Error`, held opaque.
#[verifier::external_type_specification]
#[verifier::external_body]
pub struct ExJsonError(serde_json::Error);

/// Lower-case hexadecimal digit of `d`.
pub open spec fn hex_digit(d: nat) -> char {
    seq!['0', '1', '2', '3', '4', '5', '6', '7', '8', '9', 'a', 'b', 'c', 'd', 'e', 'f'][d as int]
}

/// How one character is written inside a JSON string: quote and backslash
/// get a backslash, the five control characters with a short form use it,
/// other control characters below U+0020 become `\u00XX`, and every other
/// character stands for itself.
pub open spec fn escape_char(c: char) -> Seq<char> {
    if c == '"' {
        seq!['\\', '"']
    } else if c == '\\' {
        seq!['\\', '\\']
    } else if c == '\x08' {
        seq!['\\', 'b']
    } else if c == '\x0C' {
        seq!['\\', 'f']
    } else if c == '\n' {
        seq!['\\', 'n']
    } else if c == '\r' {
        seq!['\\', 'r']
    } else if c == '\t' {
        seq!['\\', 't']
    } else if (c as u32) < 0x20 {
        seq!['\\', 'u', '0', '0', hex_digit((c as u32 / 16) as nat), hex_digit((c as u32 % 16) as nat)]
    } else {
        seq![c]
    }
}

/// The characters of `s`, each escaped.
pub open spec fn escape_seq(s: Seq<char>) -> Seq<char>
    decreases s.len(),
{
    if s.len() == 0 {
        Seq::empty()
    } else {
        escape_char(s[0]) + escape_seq(s.drop_first())
    }
}

/// `s` as a JSON string literal, quotes included.
pub open spec fn json_quote(s: Seq<char>) -> Seq<char> {
    seq!['"'] + escape_seq(s) + seq!['"']
}

/// The literals of `items`, separated by commas.
pub open spec fn json_items(items: Seq<Seq<char>>) -> Seq<char>
    decreases items.len(),
{
    if items.len() == 0 {
        Seq::empty()
    } else if items.len() == 1 {
        json_quote(items[0])
    } else {
        json_quote(items[0]) + seq![','] + json_items(items.drop_first())
    }
}

/// `items` as a compact JSON array of strings.
pub open spec fn json_array(items: Seq<Seq<char>>) -> Seq<char> {
    seq!['['] + json_items(items) + seq![']']
}

/// The texts held by a vector of strings.
pub open spec fn texts(v: Seq<String>) -> Seq<Seq<char>> {
    v.map_values(|s: String| s@)
}

/// Relies on `serde_json::to_string` for a string slice: the compact
/// serializer writes `"`, each byte escaped by its `ESCAPE` table and
/// `write_char_escape`, then `"`, into a `Vec`, which cannot fail.
#[verifier::external_body]
fn str_to_json(s: &str) -> (r: Result<String, serde_json::Error>)
    ensures
        r is Ok,
        r->Ok_0@ == json_quote(s@),
{
    serde_json::to_string(s)
}

/// Relies on `serde_json::to_string` for a vector of strings: the compact
/// serializer writes `[`, the literals separated by `,`, then `]`, into a
/// `Vec`, which cannot fail.
#[verifier::external_body]
fn strings_to_json(v: &Vec<String>) -> (r: Result<String, serde_json::Error>)
    ensures
        r is Ok,
        r->Ok_0@ == json_array(texts(v@)),
{
    serde_json::to_string(v)
}

/// `s` as a JSON string literal.
pub fn json_string_literal(s: &str) -> (r: String)
    ensures
        r@ == json_quote(s@),
{
    match str_to_json(s) {
        Ok(t) => t,
        // Serializing text cannot fail.
        Err(_) => String::new(),
    }
}

/// `v` as a compact JSON array of string literals.
pub fn json_string_array(v: &Vec<String>) -> (r: String)
    ensures
        r@ == json_array(texts(v@)),
{
    match strings_to_json(v) {
        Ok(t) => t,
        // Serializing a list of texts cannot fail.
        Err(_) => String::new(),
    }
}

/// Value of a hexadecimal digit, either case.
pub open spec fn hex_value(c: char) -> Option<nat> {
    let n = c as u32;
    if 48 <= n <= 57 {
        Some((n - 48) as nat)
    } else if 97 <= n <= 102 {
        Some((n - 87) as nat)
    } else if 65 <= n <= 70 {
        Some((n - 55) as nat)
    } else {
        None
    }
}

/// The character that the two-character escape `\x` stands for.
pub open spec fn short_escape(x: char) -> Option<char> {
    if x == '"' {
        Some('"')
    } else if x == '\\' {
        Some('\\')
    } else if x == '/' {
        Some('/')
    } else if x == 'b' {
        Some('\x08')
    } else if x == 'f' {
        Some('\x0C')
    } else if x == 'n' {
        Some('\n')
    } else if x == 'r' {
        Some('\r')
    } else if x == 't' {
        Some('\t')
    } else {
        None
    }
}

/// Length of the token that starts the inside of a JSON string `t`, or `0`
/// where no token may start: an unescaped quote or control character.
pub open spec fn token_len(t: Seq<char>) -> nat {
    if t.len() == 0 {
        0
    } else if t[0] == '\\' {
        if t.len() >= 2 && t[1] == 'u' {
            6
        } else {
            2
        }
    } else if t[0] == '"' || (t[0] as u32) < 0x20 {
        0
    } else {
        1
    }
}

/// Whether the token `tok` stands for the character `c`.
pub open spec fn token_denotes(tok: Seq<char>, c: char) -> bool {
    if tok.len() == 1 {
        tok[0] == c
    } else if tok.len() == 2 {
        short_escape(tok[1]) == Some(c)
    } else {
        &&& tok.len() == 6
        &&& hex_value(tok[2]) is Some
        &&& hex_value(tok[3]) is Some
        &&& hex_value(tok[4]) is Some
        &&& hex_value(tok[5]) is Some
        &&& hex_value(tok[2])->0 * 4096 + hex_value(tok[3])->0 * 256 + hex_value(tok[4])->0 * 16
            + hex_value(tok[5])->0 == c as u32
    }
}

/// Whether the inside of a JSON string, `t`, reads as the characters `s`:
/// read from the left, it splits into one token per character of `s`, each
/// standing for that character, with nothing left over.
pub open spec fn reads_as(t: Seq<char>, s: Seq<char>) -> bool
    decreases s.len(),
{
    if s.len() == 0 {
        t.len() == 0
    } else {
        let k = token_len(t);
        &&& 0 < k <= t.len()
        &&& token_denotes(t.subrange(0, k as int), s[0])
        &&& reads_as(t.subrange(k as int, t.len() as int), s.drop_first())
    }
}

/// Whether `lit` is a JSON string literal that reads as `s`: it opens and
/// closes with a quote, and the closing quote is the only unescaped one.
pub open spec fn is_literal_of(lit: Seq<char>, s: Seq<char>) -> bool {
    &&& lit.len() >= 2
    &&& lit[0] == '"'
    &&& lit[lit.len() - 1] == '"'
    &&& reads_as(lit.subrange(1, lit.len() - 1), s)
}

proof fn lemma_hex_digit_value(d: nat)
    requires
        d < 16,
    ensures
        hex_value(hex_digit(d)) == Some(d),
{
    let digits = seq!['0', '1', '2', '3', '4', '5', '6', '7', '8', '9', 'a', 'b', 'c', 'd', 'e', 'f'];
    assert(hex_digit(d) == digits[d as int]);
    if d == 0 { assert(digits[0] == '0'); }
    else if d == 1 { assert(digits[1] == '1'); }
    else if d == 2 { assert(digits[2] == '2'); }
    else if d == 3 { assert(digits[3] == '3'); }
    else if d == 4 { assert(digits[4] == '4'); }
    else if d == 5 { assert(digits[5] == '5'); }
    else if d == 6 { assert(digits[6] == '6'); }
    else if d == 7 { assert(digits[7] == '7'); }
    else if d == 8 { assert(digits[8] == '8'); }
    else if d == 9 { assert(digits[9] == '9'); }
    else if d == 10 { assert(digits[10] == 'a'); }
    else if d == 11 { assert(digits[11] == 'b'); }
    else if d == 12 { assert(digits[12] == 'c'); }
    else if d == 13 { assert(digits[13] == 'd'); }
    else if d == 14 { assert(digits[14] == 'e'); }
    else { assert(digits[15] == 'f'); }
}

proof fn lemma_escape_char_token(c: char, rest: Seq<char>)
    ensures
        token_len(escape_char(c) + rest) == escape_char(c).len(),
        token_denotes(escape_char(c), c),
{
    let e = escape_char(c);
    let t = e + rest;
    assert(t.subrange(0, e.len() as int) =~= e);
    if c == '"' || c == '\\' || c == '\x08' || c == '\x0C' || c == '\n' || c == '\r' || c == '\t' {
        assert(t[0] == '\\' && t[1] == e[1] && e[1] != 'u');
    } else if (c as u32) < 0x20 {
        let n = c as u32;
        lemma_hex_digit_value((n / 16) as nat);
        lemma_hex_digit_value((n % 16) as nat);
        assert(hex_value('0') == Some(0nat));
        assert((n / 16) * 16 + n % 16 == n) by (nonlinear_arith);
        assert(t[0] == '\\' && t[1] == 'u');
    } else {
        assert(t[0] == c);
    }
}

proof fn lemma_escape_seq_reads_as(s: Seq<char>)
    ensures
        reads_as(escape_seq(s), s),
    decreases s.len(),
{
    if s.len() > 0 {
        let e = escape_char(s[0]);
        let rest = escape_seq(s.drop_first());
        let t = escape_seq(s);
        assert(t == e + rest);
        lemma_escape_char_token(s[0], rest);
        assert(t.subrange(0, e.len() as int) =~= e);
        assert(t.subrange(e.len() as int, t.len() as int) =~= rest);
        lemma_escape_seq_reads_as(s.drop_first());
    }
}

/// Any text, written as a JSON string literal, gives a well-formed literal
/// that reads back as exactly that text: quotes, backslashes and control
/// characters inside it cannot end it early or change what it says.
pub proof fn lemma_literal_reads_back(s: Seq<char>)
    ensures
        is_literal_of(json_quote(s), s),
{
    let lit = json_quote(s);
    lemma_escape_seq_reads_as(s);
    assert(lit.subrange(1, lit.len() - 1) =~= escape_seq(s));
}

} // verus!
