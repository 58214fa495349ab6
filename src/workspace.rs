//! Reading the active workspace number out of the window manager's report.
//!
//! The report's first line holds whitespace-separated words; the third of
//! them is the workspace number (as in `workspace ID 2 (2) on monitor X:`).
use vstd::prelude::*;

verus! {

/// Characters with the Unicode `White_Space` property, which separate words.
pub open spec fn is_space(c: char) -> bool {
    let u = c as u32;
    (9 <= u <= 13) || u == 32 || u == 0x85 || u == 0xA0 || u == 0x1680 || (0x2000 <= u
        <= 0x200A) || u == 0x2028 || u == 0x2029 || u == 0x202F || u == 0x205F || u == 0x3000
}

pub fn is_space_char(c: char) -> (r: bool)
    ensures
        r == is_space(c),
{
    let u = c as u32;
    (9 <= u && u <= 13) || u == 32 || u == 0x85 || u == 0xA0 || u == 0x1680 || (0x2000 <= u
        && u <= 0x200A) || u == 0x2028 || u == 0x2029 || u == 0x202F || u == 0x205F || u
        == 0x3000
}

/// The text before the first line feed, or all of it when there is none.
pub open spec fn first_line(t: Seq<char>) -> Seq<char>
    decreases t.len(),
{
    if t.len() == 0 {
        t
    } else if t[0] == '\n' {
        Seq::empty()
    } else {
        seq![t[0]] + first_line(t.drop_first())
    }
}

/// The maximal runs of non-space characters of `s`, in order.
pub open spec fn words(s: Seq<char>) -> Seq<Seq<char>>
    decreases s.len(),
{
    if s.len() == 0 {
        Seq::empty()
    } else {
        let p = s.drop_last();
        let c = s.last();
        if is_space(c) {
            words(p)
        } else if p.len() > 0 && !is_space(p.last()) {
            let w = words(p);
            w.update(w.len() - 1, w.last().push(c))
        } else {
            words(p).push(seq![c])
        }
    }
}

pub open spec fn is_digit(c: char) -> bool {
    48 <= (c as u32) <= 57
}

/// The number written by the decimal digits `s`.
pub open spec fn digits_value(s: Seq<char>) -> nat
    decreases s.len(),
{
    if s.len() == 0 {
        0
    } else {
        digits_value(s.drop_last()) * 10 + ((s.last() as u32) - 48) as nat
    }
}

/// `tok` without a leading `+`.
pub open spec fn unsigned_digits(tok: Seq<char>) -> Seq<char> {
    if tok.len() > 0 && tok[0] == '+' {
        tok.drop_first()
    } else {
        tok
    }
}

/// Decimal text as an unsigned 32-bit number: an optional `+`, then one or
/// more ASCII digits whose value fits.
pub open spec fn parse_u32(tok: Seq<char>) -> Option<u32> {
    let d = unsigned_digits(tok);
    if d.len() > 0 && (forall|i: int| 0 <= i < d.len() ==> is_digit(#[trigger] d[i]))
        && digits_value(d) <= u32::MAX {
        Some(digits_value(d) as u32)
    } else {
        None
    }
}

/// The workspace number that a report gives: the third word of its first
/// line, when there is one and it is a number.
pub open spec fn workspace_id_spec(t: Seq<char>) -> Option<u32> {
    let w = words(first_line(t));
    if w.len() >= 3 {
        parse_u32(w[2])
    } else {
        None
    }
}

/// The report's text as bytes, when they are valid UTF-8.
pub open spec fn report_text(b: Seq<u8>) -> Option<Seq<char>> {
    if vstd::utf8::valid_utf8(b) {
        Some(vstd::utf8::decode_utf8(b))
    } else {
        None
    }
}

/// The workspace number carried by the raw output of the window manager.
pub open spec fn workspace_id_of_output(b: Seq<u8>) -> Option<u32> {
    match report_text(b) {
        Some(t) => workspace_id_spec(t),
        None => None,
    }
}

proof fn lemma_first_line(t: Seq<char>, i: int)
    requires
        0 <= i <= t.len(),
        forall|j: int| 0 <= j < i ==> t[j] != '\n',
        i == t.len() || t[i] == '\n',
    ensures
        first_line(t) == t.take(i),
    decreases t.len(),
{
    if t.len() == 0 {
        assert(t.take(i) =~= t);
    } else if t[0] == '\n' {
        assert(t.take(i) =~= Seq::<char>::empty());
    } else {
        let r = t.drop_first();
        assert forall|j: int| 0 <= j < i - 1 implies r[j] != '\n' by {
            assert(r[j] == t[j + 1]);
        }
        lemma_first_line(r, i - 1);
        assert(t.take(i) =~= seq![t[0]] + r.take(i - 1));
    }
}

proof fn lemma_digits_prefix(s: Seq<char>, k: int)
    requires
        0 <= k <= s.len(),
    ensures
        digits_value(s.take(k)) <= digits_value(s),
    decreases s.len(),
{
    if k < s.len() {
        let p = s.drop_last();
        assert(p.take(k) =~= s.take(k));
        lemma_digits_prefix(p, k);
    } else {
        assert(s.take(k) =~= s);
    }
}

/// Reads `text[from..to]` as an unsigned 32-bit number.
pub fn parse_u32_range(text: &str, from: usize, to: usize) -> (r: Option<u32>)
    requires
        from <= to <= text@.len(),
    ensures
        r == parse_u32(text@.subrange(from as int, to as int)),
{
    let ghost tok = text@.subrange(from as int, to as int);
    let mut start = from;
    if from < to && text.get_char(from) == '+' {
        start = from + 1;
    }
    let ghost d = text@.subrange(start as int, to as int);
    assert(d =~= unsigned_digits(tok));
    if start == to {
        return None;
    }
    let mut v: u64 = 0;
    let mut i = start;
    while i < to
        invariant
            from <= start <= i <= to <= text@.len(),
            d == text@.subrange(start as int, to as int),
            d == unsigned_digits(tok),
            tok == text@.subrange(from as int, to as int),
            forall|j: int| 0 <= j < i - start ==> is_digit(#[trigger] d[j]),
            v == digits_value(d.take(i - start)),
            v <= u32::MAX,
        decreases to - i,
    {
        let c = text.get_char(i);
        let ghost k = i - start;
        assert(d[k] == c);
        if !(48 <= c as u32 && c as u32 <= 57) {
            assert(!is_digit(unsigned_digits(tok)[k]));
            return None;
        }
        assert(d.take(k + 1).drop_last() =~= d.take(k));
        assert(d.take(k + 1).last() == c);
        assert(digits_value(d.take(k + 1)) == digits_value(d.take(k)) * 10 + ((c as u32) - 48) as nat);
        v = v * 10 + (c as u32 - 48) as u64;
        i = i + 1;
        if v > u32::MAX as u64 {
            proof {
                lemma_digits_prefix(d, k + 1);
            }
            return None;
        }
    }
    assert(d.take(d.len() as int) =~= d);
    Some(v as u32)
}

/// The workspace number that the report `text` gives.
pub fn parse_workspace_id(text: &str) -> (r: Option<u32>)
    ensures
        r == workspace_id_spec(text@),
{
    let n = text.unicode_len();
    let ghost t = text@;
    let mut i: usize = 0;
    let mut count: usize = 0;
    let mut s3: usize = 0;
    let mut e3: usize = 0;
    while i < n && text.get_char(i) != '\n'
        invariant
            n == t.len(),
            t == text@,
            i <= n,
            forall|j: int| 0 <= j < i ==> t[j] != '\n',
            count == words(t.take(i as int)).len(),
            count <= i,
            count >= 3 ==> s3 <= e3 <= i && words(t.take(i as int))[2] == t.subrange(
                s3 as int,
                e3 as int,
            ),
            count == 3 && i > 0 && !is_space(t[i - 1]) ==> e3 == i,
            i > 0 && !is_space(t[i - 1]) ==> count > 0,
        decreases n - i,
    {
        let c = text.get_char(i);
        let ghost p = t.take(i as int);
        let ghost q = t.take(i + 1);
        assert(q.drop_last() =~= p);
        assert(q.last() == c);
        if is_space_char(c) {
            assert(words(q) == words(p));
        } else if i > 0 && !is_space_char(text.get_char(i - 1)) {
            assert(p.last() == t[i - 1]);
            assert(words(q).len() == words(p).len());
            if count == 3 {
                e3 = i + 1;
                assert(words(q)[2] =~= t.subrange(s3 as int, e3 as int));
            }
        } else {
            if i > 0 {
                assert(p.last() == t[i - 1]);
            }
            assert(words(q) == words(p).push(seq![c]));
            count = count + 1;
            if count == 3 {
                s3 = i;
                e3 = i + 1;
                assert(words(q)[2] =~= t.subrange(s3 as int, e3 as int));
            }
        }
        i = i + 1;
    }
    proof {
        lemma_first_line(t, i as int);
    }
    if count >= 3 {
        parse_u32_range(text, s3, e3)
    } else {
        None
    }
}

/// Relies on `std::str::from_utf8`: it accepts exactly the byte strings that
/// are valid UTF-8, and reads them as the characters they encode.
#[verifier::external_body]
fn decode_utf8(bytes: &[u8]) -> (r: Option<&str>)
    ensures
        r is Some <==> vstd::utf8::valid_utf8(bytes@),
        r matches Some(s) ==> s@ == vstd::utf8::decode_utf8(bytes@),
{
    std::str::from_utf8(bytes).ok()
}

/// The workspace number carried by the raw output of the window manager:
/// `None` when it is not valid UTF-8 or its first line has no number as third
/// word.
pub fn workspace_id_from_output(output: &[u8]) -> (r: Option<u32>)
    ensures
        r == workspace_id_of_output(output@),
{
    match decode_utf8(output) {
        Some(text) => parse_workspace_id(text),
        None => None,
    }
}

/// A report gives no number when it is empty, when its first line has fewer
/// than three words, or when the third word, past an optional `+`, holds a
/// character that is not a digit; otherwise it gives the third word read as a
/// number.
pub proof fn lemma_workspace_report_cases(t: Seq<char>)
    ensures
        t.len() == 0 ==> workspace_id_spec(t) is None,
        words(first_line(t)).len() < 3 ==> workspace_id_spec(t) is None,
        words(first_line(t)).len() >= 3 ==> workspace_id_spec(t) == parse_u32(
            words(first_line(t))[2],
        ),
        words(first_line(t)).len() >= 3 && (exists|i: int|
            0 <= i < unsigned_digits(words(first_line(t))[2]).len() && !is_digit(
                #[trigger] unsigned_digits(words(first_line(t))[2])[i],
            )) ==> workspace_id_spec(t) is None,
{
    if t.len() == 0 {
        assert(first_line(t).len() == 0);
        assert(words(first_line(t)).len() == 0);
    }
}

} // verus!
