//! Text building blocks: decimal rendering, joining, and the Discord markup helpers.

use vstd::prelude::*;

verus! {

/// The character of a decimal digit.
pub open spec fn digit_char(d: nat) -> char {
    if d == 0 { '0' } else if d == 1 { '1' } else if d == 2 { '2' } else if d == 3 { '3' }
    else if d == 4 { '4' } else if d == 5 { '5' } else if d == 6 { '6' } else if d == 7 { '7' }
    else if d == 8 { '8' } else { '9' }
}

/// The decimal representation of a natural number, without leading zeros.
pub open spec fn decimal(n: nat) -> Seq<char>
    decreases n,
{
    if n < 10 {
        seq![digit_char(n)]
    } else {
        decimal(n / 10).push(digit_char(n % 10))
    }
}

/// The decimal representation of an integer, with a leading `-` when it is negative.
pub open spec fn signed_decimal(i: int) -> Seq<char> {
    if i < 0 { seq!['-'] + decimal((-i) as nat) } else { decimal(i as nat) }
}

/// Appends one character to a string (`String::push`).
#[verifier::external_body]
pub(crate) fn push_char(s: &mut String, c: char)
    ensures
        final(s)@ == old(s)@.push(c),
{
    s.push(c);
}

fn digit(d: u64) -> (c: char)
    requires
        d < 10,
    ensures
        c == digit_char(d as nat),
{
    if d == 0 { '0' } else if d == 1 { '1' } else if d == 2 { '2' } else if d == 3 { '3' }
    else if d == 4 { '4' } else if d == 5 { '5' } else if d == 6 { '6' } else if d == 7 { '7' }
    else if d == 8 { '8' } else { '9' }
}

/// Renders `n` in decimal.
pub fn u64_to_string(n: u64) -> (s: String)
    ensures
        s@ == decimal(n as nat),
    decreases n,
{
    if n < 10 {
        let mut s = String::new();
        push_char(&mut s, digit(n));
        s
    } else {
        let mut s = u64_to_string(n / 10);
        push_char(&mut s, digit(n % 10));
        s
    }
}

/// Renders `i` in decimal, with a leading `-` when it is negative.
pub fn i64_to_string(i: i64) -> (s: String)
    ensures
        s@ == signed_decimal(i as int),
{
    if i < 0 {
        let magnitude: u64 = if i == i64::MIN { 9223372036854775808u64 } else { (-i) as u64 };
        let digits = u64_to_string(magnitude);
        let mut s = String::new();
        push_char(&mut s, '-');
        s.append(digits.as_str());
        s
    } else {
        u64_to_string(i as u64)
    }
}


/// `parts` with `sep` between each two neighbours.
pub open spec fn join_seq(parts: Seq<Seq<char>>, sep: Seq<char>) -> Seq<char>
    decreases parts.len(),
{
    if parts.len() == 0 {
        Seq::empty()
    } else if parts.len() == 1 {
        parts[0]
    } else {
        join_seq(parts.drop_last(), sep) + sep + parts.last()
    }
}

/// Joins the strings with `sep` between neighbours, as `Itertools::join` does.
pub fn join(parts: &Vec<String>, sep: &str) -> (s: String)
    ensures
        s@ == join_seq(parts.deep_view(), sep@),
{
    let mut s = String::new();
    let n = parts.len();
    let ghost whole = parts.deep_view();
    for i in 0..n
        invariant
            n == parts.len(),
            whole == parts.deep_view(),
            whole.len() == n,
            s@ == join_seq(whole.take(i as int), sep@),
    {
        proof {
            assert(whole.take(i + 1).drop_last() =~= whole.take(i as int));
            assert(whole.take(i + 1).last() == parts[i as int]@);
        }
        if i > 0 {
            s.append(sep);
        } else {
            assert(whole.take(1) =~= seq![parts[0]@]);
        }
        s.append(parts[i].as_str());
    }
    assert(whole.take(n as int) =~= whole);
    s
}

/// A list read out in English: `a`, `a and b`, or `a, b, and c`, with `conj` as the last word.
pub open spec fn grammatical_list(parts: Seq<Seq<char>>, conj: Seq<char>) -> Seq<char> {
    if parts.len() == 0 {
        Seq::empty()
    } else if parts.len() == 1 {
        parts[0]
    } else if parts.len() == 2 {
        parts[0] + seq![' '] + conj + seq![' '] + parts[1]
    } else {
        join_seq(parts.drop_last(), seq![',', ' ']) + seq![',', ' '] + conj + seq![' '] + parts.last()
    }
}

/// Lists the strings as an English sentence does, joined by `conj` before the last one.
pub fn list_grammatically(parts: &Vec<String>, conj: &str) -> (s: String)
    ensures
        s@ == grammatical_list(parts.deep_view(), conj@),
{
    let n = parts.len();
    let ghost whole = parts.deep_view();
    assert(forall|j: int| 0 <= j < n ==> #[trigger] whole[j] == parts[j]@);
    if n == 0 {
        String::new()
    } else if n == 1 {
        parts[0].clone()
    } else if n == 2 {
        let mut s = parts[0].clone();
        push_char(&mut s, ' ');
        s.append(conj);
        push_char(&mut s, ' ');
        s.append(parts[1].as_str());
        s
    } else {
        let mut front: Vec<String> = Vec::new();
        for i in 0..n - 1
            invariant
                n == parts.len(),
                n >= 3,
                front.len() == i,
                forall|j: int| 0 <= j < i ==> #[trigger] front[j]@ == parts[j]@,
        {
            front.push(parts[i].clone());
        }
        assert(front.deep_view() =~= parts.deep_view().drop_last());
        proof { reveal_strlit(", "); }
        assert(", "@ =~= seq![',', ' ']);
        let mut s = join(&front, ", ");
        s.append(", ");
        s.append(conj);
        push_char(&mut s, ' ');
        s.append(parts[n - 1].as_str());
        assert(whole.last() == parts[n - 1]@);
        s
    }
}

/// `**text**`
pub open spec fn bold_text(t: Seq<char>) -> Seq<char> {
    seq!['*', '*'] + t + seq!['*', '*']
}

/// Wraps `text` in bold markdown.
pub fn bold(text: &str) -> (s: String)
    ensures
        s@ == bold_text(text@),
{
    let mut s = String::new();
    push_char(&mut s, '*');
    push_char(&mut s, '*');
    s.append(text);
    push_char(&mut s, '*');
    push_char(&mut s, '*');
    s
}

/// `~~text~~`
pub open spec fn strikethrough_text(t: Seq<char>) -> Seq<char> {
    seq!['~', '~'] + t + seq!['~', '~']
}

/// Wraps `text` in strikethrough markdown.
pub fn strikethrough(text: &str) -> (s: String)
    ensures
        s@ == strikethrough_text(text@),
{
    let mut s = String::new();
    push_char(&mut s, '~');
    push_char(&mut s, '~');
    s.append(text);
    push_char(&mut s, '~');
    push_char(&mut s, '~');
    s
}

/// The string made of one character.
pub fn char_string(c: char) -> (s: String)
    ensures
        s@ == seq![c],
{
    let mut s = String::new();
    push_char(&mut s, c);
    s
}

/// `prefix`, the decimal of `n`, then `suffix`.
pub open spec fn wrap_decimal(prefix: Seq<char>, n: nat, suffix: Seq<char>) -> Seq<char> {
    prefix + decimal(n) + suffix
}

/// Builds `prefix{n}suffix`.
pub fn format_wrapped(prefix: &str, n: u64, suffix: &str) -> (s: String)
    ensures
        s@ == wrap_decimal(prefix@, n as nat, suffix@),
{
    let digits = u64_to_string(n);
    let mut s = String::from_str(prefix);
    s.append(digits.as_str());
    s.append(suffix);
    s
}

} // verus!

verus! {

/// Whether a character is an ASCII decimal digit.
pub open spec fn is_digit(c: char) -> bool {
    '0' <= c <= '9'
}

/// The value of a string of decimal digits (0 for the empty string).
pub open spec fn digits_value(s: Seq<char>) -> nat
    decreases s.len(),
{
    if s.len() == 0 {
        0
    } else {
        digits_value(s.drop_last()) * 10 + (s.last() as nat - '0' as nat) as nat
    }
}

/// The part of a number's text after an optional leading `+`.
pub open spec fn unsigned_digits(s: Seq<char>) -> Seq<char> {
    if s.len() > 0 && s[0] == '+' { s.drop_first() } else { s }
}

/// Whether every character of a string is a decimal digit.
pub open spec fn all_digits(d: Seq<char>) -> bool {
    forall|i: int| 0 <= i < d.len() ==> is_digit(#[trigger] d[i])
}

/// What `str::parse::<u64>` reads from a string: an optional `+`, then one or more decimal
/// digits whose value fits in 64 bits; anything else is an error.
pub open spec fn parsed_u64(s: Seq<char>) -> Option<u64> {
    let d = unsigned_digits(s);
    if d.len() > 0 && all_digits(d) && digits_value(d) <= u64::MAX {
        Some(digits_value(d) as u64)
    } else {
        None
    }
}

proof fn lemma_digits_value_grows(d: Seq<char>, k: int)
    requires
        0 <= k <= d.len(),
        forall|i: int| 0 <= i < d.len() ==> is_digit(#[trigger] d[i]),
    ensures
        digits_value(d.take(k)) <= digits_value(d),
    decreases d.len() - k,
{
    if k < d.len() {
        lemma_digits_value_grows(d, k + 1);
        assert(d.take(k + 1).drop_last() =~= d.take(k));
        assert(is_digit(d[k]));
    } else {
        assert(d.take(k) =~= d);
    }
}

/// Reads an unsigned decimal number the way `str::parse::<u64>` does.
pub fn parse_u64(s: &str) -> (r: Option<u64>)
    ensures
        r == parsed_u64(s@),
{
    let len = s.unicode_len();
    let ghost full = s@;
    let mut start: usize = 0;
    if len > 0 && s.get_char(0) == '+' {
        start = 1;
    }
    let ghost d = unsigned_digits(full);
    assert(d =~= full.subrange(start as int, len as int));
    if start == len {
        return None;
    }
    let mut value: u64 = 0;
    let mut i: usize = start;
    while i < len
        invariant
            start <= i <= len,
            len == full.len(),
            full == s@,
            d == full.subrange(start as int, len as int),
            d == unsigned_digits(full),
            d.len() > 0,
            forall|j: int| 0 <= j < i - start ==> is_digit(#[trigger] d[j]),
            value == digits_value(d.take(i - start)),
        decreases len - i,
    {
        let c = s.get_char(i);
        assert(c == d[i - start]);
        if !('0' <= c && c <= '9') {
            assert(!is_digit(d[i - start]));
            assert(!all_digits(d));
            return None;
        }
        let dv: u64 = (c as u32 - '0' as u32) as u64;
        assert(d.take(i - start + 1).drop_last() =~= d.take(i - start));
        match value.checked_mul(10) {
            Some(v10) => match v10.checked_add(dv) {
                Some(next) => {
                    value = next;
                },
                None => {
                    proof { lemma_none_after_overflow(d, i - start + 1); }
                    return None;
                },
            },
            None => {
                proof { lemma_none_after_overflow(d, i - start + 1); }
                return None;
            },
        }
        i = i + 1;
    }
    assert(d.take(d.len() as int) =~= d);
    Some(value)
}

proof fn lemma_none_after_overflow(d: Seq<char>, k: int)
    requires
        0 < k <= d.len(),
        forall|j: int| 0 <= j < k ==> is_digit(#[trigger] d[j]),
        digits_value(d.take(k)) > u64::MAX,
    ensures
        !(d.len() > 0 && all_digits(d) && digits_value(d) <= u64::MAX),
{
    if d.len() > 0 && all_digits(d) {
        lemma_digits_value_grows(d, k);
    }
}

/// How many bytes a character takes in UTF-8.
pub open spec fn utf8_len(c: char) -> nat {
    if (c as u32) < 0x80 { 1 } else if (c as u32) < 0x800 { 2 } else if (c as u32) < 0x10000 { 3 } else { 4 }
}

/// How many bytes the first `i` characters of `s` take in UTF-8.
pub open spec fn utf8_offset(s: Seq<char>, i: int) -> nat
    decreases i,
{
    if i <= 0 {
        0
    } else {
        utf8_offset(s, i - 1) + utf8_len(s[i - 1])
    }
}

/// The length of a string in bytes (`str::len`): the bytes its characters take in UTF-8.
#[verifier::external_body]
pub(crate) fn byte_len(s: &str) -> (n: usize)
    ensures
        n == utf8_offset(s@, s@.len() as int),
{
    s.len()
}

proof fn lemma_digit_char_value(d: nat)
    requires
        d < 10,
    ensures
        is_digit(digit_char(d)),
        digit_char(d) as nat - '0' as nat == d,
{
}

proof fn lemma_decimal_digits(n: nat)
    ensures
        decimal(n).len() > 0,
        all_digits(decimal(n)),
        digits_value(decimal(n)) == n,
    decreases n,
{
    lemma_digit_char_value(n % 10);
    if n < 10 {
        let d = decimal(n);
        assert(d.drop_last() =~= Seq::<char>::empty());
        assert(n % 10 == n);
        assert(d.last() == digit_char(n));
        assert(digits_value(d) == digits_value(d.drop_last()) * 10 + (d.last() as nat - '0' as nat) as nat);
    } else {
        lemma_decimal_digits(n / 10);
        assert(n == (n / 10) * 10 + n % 10);
        let d = decimal(n);
        assert(d.last() == digit_char(n % 10));
        assert(digits_value(d) == digits_value(d.drop_last()) * 10 + (d.last() as nat - '0' as nat) as nat);
        let d = decimal(n);
        assert(d.drop_last() =~= decimal(n / 10));
        assert forall|i: int| 0 <= i < d.len() implies is_digit(#[trigger] d[i]) by {
            if i < d.len() - 1 {
                assert(d[i] == decimal(n / 10)[i]);
            }
        }
    }
}

/// Reading back the decimal text of a number gives the number: `parse_u64` undoes
/// `u64_to_string`.
pub proof fn lemma_parse_decimal_round_trip(n: u64)
    ensures
        parsed_u64(decimal(n as nat)) == Some(n),
{
    lemma_decimal_digits(n as nat);
    let d = decimal(n as nat);
    assert(is_digit(d[0]));
    assert(unsigned_digits(d) == d);
}

} // verus!
