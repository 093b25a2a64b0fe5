//! Building text: concatenation and decimal numerals.

use vstd::prelude::*;
use vstd::string::*;
use vstd::utf8::{encode_utf8, encode_utf8_decode_utf8};

verus! {

/// The character of one decimal digit.
pub open spec fn digit_char(d: int) -> char {
    if d == 0 {
        '0'
    } else if d == 1 {
        '1'
    } else if d == 2 {
        '2'
    } else if d == 3 {
        '3'
    } else if d == 4 {
        '4'
    } else if d == 5 {
        '5'
    } else if d == 6 {
        '6'
    } else if d == 7 {
        '7'
    } else if d == 8 {
        '8'
    } else {
        '9'
    }
}

/// The decimal numeral of a natural number, without leading zeros.
pub open spec fn nat_text(n: nat) -> Seq<char>
    decreases n,
{
    if n < 10 {
        seq![digit_char(n as int)]
    } else {
        nat_text(n / 10).push(digit_char((n % 10) as int))
    }
}

/// The decimal numeral of an integer, with a leading minus sign below zero.
pub open spec fn int_text(n: int) -> Seq<char> {
    if n < 0 {
        seq!['-'] + nat_text((-n) as nat)
    } else {
        nat_text(n as nat)
    }
}

fn digit_str(d: u64) -> (out: &'static str)
    requires
        d < 10,
    ensures
        out@ == seq![digit_char(d as int)],
{
    proof {
        reveal_strlit("0");
        reveal_strlit("1");
        reveal_strlit("2");
        reveal_strlit("3");
        reveal_strlit("4");
        reveal_strlit("5");
        reveal_strlit("6");
        reveal_strlit("7");
        reveal_strlit("8");
        reveal_strlit("9");
    }
    let out = if d == 0 {
        "0"
    } else if d == 1 {
        "1"
    } else if d == 2 {
        "2"
    } else if d == 3 {
        "3"
    } else if d == 4 {
        "4"
    } else if d == 5 {
        "5"
    } else if d == 6 {
        "6"
    } else if d == 7 {
        "7"
    } else if d == 8 {
        "8"
    } else {
        "9"
    };
    assert(out@ =~= seq![digit_char(d as int)]);
    out
}

/// Writes a natural number in decimal.
pub fn nat_string(n: u128) -> (out: String)
    ensures
        out@ == nat_text(n as nat),
    decreases n,
{
    if n < 10 {
        String::from_str(digit_str(n as u64))
    } else {
        let mut out = nat_string(n / 10);
        out.append(digit_str((n % 10) as u64));
        assert(out@ =~= nat_text((n / 10) as nat).push(digit_char((n % 10) as int)));
        out
    }
}

/// Writes an integer in decimal.
pub fn wide_int_string(n: i128) -> (out: String)
    ensures
        out@ == int_text(n as int),
{
    if n < 0 {
        let m: u128 = (-(n + 1)) as u128 + 1;
        let mut out = String::from_str("-");
        let digits = nat_string(m);
        out.append(digits.as_str());
        proof {
            reveal_strlit("-");
            assert("-"@ =~= seq!['-']);
        }
        out
    } else {
        nat_string(n as u128)
    }
}

/// Writes an integer in decimal.
pub fn int_string(n: i32) -> (out: String)
    ensures
        out@ == int_text(n as int),
{
    wide_int_string(n as i128)
}

/// The concatenation of two texts.
pub fn join2(a: &str, b: &str) -> (out: String)
    ensures
        out@ == a@ + b@,
{
    let mut out = String::from_str(a);
    out.append(b);
    out
}

/// The concatenation of three texts.
pub fn join3(a: &str, b: &str, c: &str) -> (out: String)
    ensures
        out@ == a@ + b@ + c@,
{
    let mut out = String::from_str(a);
    out.append(b);
    out.append(c);
    out
}

/// The concatenation of four texts.
pub fn join4(a: &str, b: &str, c: &str, d: &str) -> (out: String)
    ensures
        out@ == a@ + b@ + c@ + d@,
{
    let mut out = String::from_str(a);
    out.append(b);
    out.append(c);
    out.append(d);
    out
}

/// Whether one byte string comes before another, or equals it, in the
/// order of a dictionary.
pub open spec fn bytes_le(a: Seq<u8>, b: Seq<u8>) -> bool
    decreases a.len(),
{
    if a.len() == 0 {
        true
    } else if b.len() == 0 {
        false
    } else if a[0] != b[0] {
        a[0] < b[0]
    } else {
        bytes_le(a.drop_first(), b.drop_first())
    }
}

/// Whether one text comes before another, or equals it, in the order of
/// their UTF-8 encodings.
pub open spec fn text_le(a: Seq<char>, b: Seq<char>) -> bool {
    bytes_le(encode_utf8(a), encode_utf8(b))
}

/// Of two byte strings one comes before the other, or they are equal.
pub proof fn lemma_bytes_le_total(a: Seq<u8>, b: Seq<u8>)
    ensures
        bytes_le(a, b) || bytes_le(b, a),
    decreases a.len(),
{
    if a.len() > 0 && b.len() > 0 && a[0] == b[0] {
        lemma_bytes_le_total(a.drop_first(), b.drop_first());
    }
}

/// The order of byte strings is transitive.
pub proof fn lemma_bytes_le_transitive(a: Seq<u8>, b: Seq<u8>, c: Seq<u8>)
    requires
        bytes_le(a, b),
        bytes_le(b, c),
    ensures
        bytes_le(a, c),
    decreases a.len(),
{
    if a.len() > 0 && b.len() > 0 && c.len() > 0 && a[0] == b[0] && b[0] == c[0] {
        lemma_bytes_le_transitive(a.drop_first(), b.drop_first(), c.drop_first());
    }
}

/// Whether one text comes before another, or equals it.
pub fn le(a: &str, b: &str) -> (out: bool)
    ensures
        out == text_le(a@, b@),
{
    let x = a.as_bytes();
    let y = b.as_bytes();
    let mut i: usize = 0;
    assert(x@.skip(0) =~= x@);
    assert(y@.skip(0) =~= y@);
    while i < x.len() && i < y.len()
        invariant
            i <= x.len(),
            i <= y.len(),
            x@ == encode_utf8(a@),
            y@ == encode_utf8(b@),
            bytes_le(x@, y@) == bytes_le(x@.skip(i as int), y@.skip(i as int)),
        decreases x.len() - i,
    {
        assert(x@.skip(i as int).drop_first() =~= x@.skip(i as int + 1));
        assert(y@.skip(i as int).drop_first() =~= y@.skip(i as int + 1));
        assert(x@.skip(i as int)[0] == x@[i as int]);
        assert(y@.skip(i as int)[0] == y@[i as int]);
        if x[i] != y[i] {
            return x[i] < y[i];
        }
        i += 1;
    }
    i == x.len()
}

/// Two byte strings that come before each other are equal.
pub proof fn lemma_bytes_le_antisymmetric(a: Seq<u8>, b: Seq<u8>)
    requires
        bytes_le(a, b),
        bytes_le(b, a),
    ensures
        a == b,
    decreases a.len(),
{
    if a.len() > 0 && b.len() > 0 {
        lemma_bytes_le_antisymmetric(a.drop_first(), b.drop_first());
        assert(a =~= seq![a[0]] + a.drop_first());
        assert(b =~= seq![b[0]] + b.drop_first());
    } else {
        assert(a =~= b);
    }
}

/// The order of texts is a total order: any two texts compare, texts that
/// come before each other are equal, and the order is transitive.
pub proof fn lemma_text_le_order(a: Seq<char>, b: Seq<char>, c: Seq<char>)
    ensures
        text_le(a, b) || text_le(b, a),
        text_le(a, b) && text_le(b, a) ==> a == b,
        text_le(a, b) && text_le(b, c) ==> text_le(a, c),
        text_le(a, a),
{
    lemma_bytes_le_total(encode_utf8(a), encode_utf8(b));
    lemma_bytes_le_total(encode_utf8(a), encode_utf8(a));
    if text_le(a, b) && text_le(b, a) {
        lemma_bytes_le_antisymmetric(encode_utf8(a), encode_utf8(b));
        encode_utf8_decode_utf8(a);
        encode_utf8_decode_utf8(b);
    }
    if text_le(a, b) && text_le(b, c) {
        lemma_bytes_le_transitive(encode_utf8(a), encode_utf8(b), encode_utf8(c));
    }
}

/// Whether one text comes strictly before another.
pub open spec fn text_lt(a: Seq<char>, b: Seq<char>) -> bool {
    text_le(a, b) && a != b
}

/// Whether one text comes strictly before another.
pub fn lt(a: &String, b: &String) -> (out: bool)
    ensures
        out == text_lt(a@, b@),
{
    le(a.as_str(), b.as_str()) && !(*a == *b)
}

/// Whether `part` stands in `text` at position `k`.
pub open spec fn occurs_at(text: Seq<char>, part: Seq<char>, k: int) -> bool {
    0 <= k && k + part.len() <= text.len() && text.subrange(k, k + part.len()) == part
}

/// Whether a text begins with another.
pub open spec fn begins_with(text: Seq<char>, part: Seq<char>) -> bool {
    occurs_at(text, part, 0)
}

/// Whether a text ends with another.
pub open spec fn finishes_with(text: Seq<char>, part: Seq<char>) -> bool {
    occurs_at(text, part, text.len() - part.len())
}

/// The first position from `from` on at which `part` stands in `text`.
pub open spec fn first_from(text: Seq<char>, part: Seq<char>, from: int) -> Option<int>
    decreases text.len() + 1 - from,
{
    if from < 0 || from + part.len() > text.len() {
        None
    } else if occurs_at(text, part, from) {
        Some(from)
    } else {
        first_from(text, part, from + 1)
    }
}

/// Whether `part` stands somewhere in `text`.
pub open spec fn holds(text: Seq<char>, part: Seq<char>) -> bool {
    first_from(text, part, 0) is Some
}

/// What `first_from` finds is the first occurrence from `from` on, and it
/// finds one whenever there is one.
pub proof fn lemma_first_from(text: Seq<char>, part: Seq<char>, from: int, k: int)
    requires
        0 <= from <= k,
    ensures
        first_from(text, part, from) matches Some(at) ==> from <= at && occurs_at(text, part, at),
        occurs_at(text, part, k) ==> first_from(text, part, from) is Some && first_from(
            text,
            part,
            from,
        )->0 <= k,
    decreases text.len() + 1 - from,
{
    if from + part.len() <= text.len() && !occurs_at(text, part, from) {
        if from < k {
            lemma_first_from(text, part, from + 1, k);
        } else {
            lemma_first_from(text, part, from + 1, from + 1);
        }
    }
}

/// The pieces of `text` from position `from` on that the separator leaves
/// between its occurrences, which are taken from left to right without
/// overlap. An empty separator separates nothing.
pub open spec fn pieces(text: Seq<char>, sep: Seq<char>, from: int) -> Seq<Seq<char>>
    decreases text.len() - from,
{
    if sep.len() == 0 || from < 0 || from > text.len() {
        seq![text.subrange(from, text.len() as int)]
    } else {
        match first_from(text, sep, from) {
            None => seq![text.subrange(from, text.len() as int)],
            Some(k) => if from <= k && k + sep.len() <= text.len() {
                seq![text.subrange(from, k)] + pieces(text, sep, k + sep.len())
            } else {
                seq![text.subrange(from, text.len() as int)]
            },
        }
    }
}

/// The pieces that a separator splits a text into.
pub open spec fn split_of(text: Seq<char>, sep: Seq<char>) -> Seq<Seq<char>> {
    pieces(text, sep, 0)
}

/// The characters of a text.
pub fn chars(text: &str) -> (out: Vec<char>)
    ensures
        out@ == text@,
{
    let n = text.unicode_len();
    let mut out: Vec<char> = Vec::new();
    let mut i: usize = 0;
    while i < n
        invariant
            i <= n,
            n == text@.len(),
            out@ == text@.take(i as int),
        decreases n - i,
    {
        out.push(text.get_char(i));
        assert(out@ =~= text@.take(i as int + 1));
        i += 1;
    }
    assert(text@.take(n as int) =~= text@);
    out
}

fn stands_at(text: &Vec<char>, part: &Vec<char>, k: usize) -> (out: bool)
    ensures
        out == occurs_at(text@, part@, k as int),
{
    if part.len() > text.len() || k > text.len() - part.len() {
        return false;
    }
    let mut i: usize = 0;
    while i < part.len()
        invariant
            i <= part.len(),
            k + part.len() <= text.len(),
            forall|j: int| 0 <= j < i ==> text[k + j] == part[j],
        decreases part.len() - i,
    {
        if text[k + i] != part[i] {
            assert(text@.subrange(k as int, k + part.len())[i as int] != part@[i as int]);
            return false;
        }
        i += 1;
    }
    assert(text@.subrange(k as int, k + part.len()) =~= part@);
    true
}

fn find_from(text: &Vec<char>, part: &Vec<char>, from: usize) -> (out: Option<usize>)
    ensures
        match first_from(text@, part@, from as int) {
            Some(k) => out is Some && out->0 == k && from <= k && k + part.len() <= text.len(),
            None => out is None,
        },
{
    if part.len() > text.len() {
        return None;
    }
    let last = text.len() - part.len();
    let mut k: usize = from;
    loop
        invariant
            from <= k,
            part.len() <= text.len(),
            last == text.len() - part.len(),
            first_from(text@, part@, from as int) == first_from(text@, part@, k as int),
        decreases last + 1 - k,
    {
        if k > last {
            return None;
        }
        if stands_at(text, part, k) {
            return Some(k);
        }
        if k == last {
            assert(first_from(text@, part@, k as int + 1) is None);
            return None;
        }
        k += 1;
    }
}

/// Whether a text begins with another.
pub fn starts_with(text: &str, part: &str) -> (out: bool)
    ensures
        out == begins_with(text@, part@),
{
    stands_at(&chars(text), &chars(part), 0)
}

/// Whether a text ends with another.
pub fn ends_with(text: &str, part: &str) -> (out: bool)
    ensures
        out == finishes_with(text@, part@),
{
    let t = chars(text);
    let p = chars(part);
    if p.len() > t.len() {
        false
    } else {
        stands_at(&t, &p, t.len() - p.len())
    }
}

/// Whether `part` stands somewhere in `text`.
pub fn contains(text: &str, part: &str) -> (out: bool)
    ensures
        out == holds(text@, part@),
{
    find_from(&chars(text), &chars(part), 0).is_some()
}

/// Splits a text at every occurrence of a separator.
pub fn split(text: &str, sep: &str) -> (out: Vec<String>)
    ensures
        crate::namegen::texts(out@) == split_of(text@, sep@),
{
    let t = chars(text);
    let s = chars(sep);
    let n = t.len();
    let mut out: Vec<String> = Vec::new();
    if s.len() == 0 {
        out.push(String::from_str(text));
        assert(text@.subrange(0, text@.len() as int) =~= text@);
        assert(crate::namegen::texts(out@) =~= split_of(text@, sep@));
        return out;
    }
    let mut start: usize = 0;
    assert(crate::namegen::texts(out@) =~= Seq::empty());
    loop
        invariant
            start <= n,
            n == t.len(),
            t@ == text@,
            s@ == sep@,
            s.len() > 0,
            split_of(text@, sep@) == crate::namegen::texts(out@) + pieces(
                text@,
                sep@,
                start as int,
            ),
        decreases n - start,
    {
        let ghost done = crate::namegen::texts(out@);
        match find_from(&t, &s, start) {
            None => {
                out.push(String::from_str(text.substring_char(start, n)));
                assert(crate::namegen::texts(out@) =~= done + seq![
                    text@.subrange(start as int, n as int),
                ]);
                return out;
            },
            Some(k) => {
                out.push(String::from_str(text.substring_char(start, k)));
                assert(crate::namegen::texts(out@) =~= done + seq![
                    text@.subrange(start as int, k as int),
                ]);
                assert(done + (seq![text@.subrange(start as int, k as int)] + pieces(
                    text@,
                    sep@,
                    k + s.len(),
                )) =~= (done + seq![text@.subrange(start as int, k as int)]) + pieces(
                    text@,
                    sep@,
                    k + s.len(),
                ));
                start = k + s.len();
            },
        }
    }
}

} // verus!
