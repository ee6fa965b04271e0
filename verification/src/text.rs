use vstd::prelude::*;

verus! {

/// The ASCII lower-case form of one character: `'A'..='Z'` become `'a'..='z'`,
/// every other character stays as it is.
pub open spec fn ascii_lower_char(c: char) -> char {
    if 'A' <= c && c <= 'Z' {
        ((c as u32) + 32) as char
    } else {
        c
    }
}

/// The ASCII lower-case form of a text.
pub open spec fn ascii_lower(s: Seq<char>) -> Seq<char> {
    s.map_values(|c: char| ascii_lower_char(c))
}

/// Two texts are equal once both are put in ASCII lower case.
pub open spec fn same_ignoring_ascii_case(a: Seq<char>, b: Seq<char>) -> bool {
    ascii_lower(a) == ascii_lower(b)
}

/// Whether both strings hold the same characters.
pub(crate) fn str_equal(a: &str, b: &str) -> (r: bool)
    ensures
        r == (a@ == b@),
{
    let n = a.unicode_len();
    if n != b.unicode_len() {
        return false;
    }
    let mut i: usize = 0;
    while i < n
        invariant
            n == a@.len(),
            n == b@.len(),
            i <= n,
            forall|j: int| 0 <= j < i ==> a@[j] == b@[j],
        decreases n - i,
    {
        if a.get_char(i) != b.get_char(i) {
            return false;
        }
        i = i + 1;
    }
    assert(a@ =~= b@);
    true
}

/// The code of the ASCII lower-case form of a character.
fn lower_code(c: char) -> (r: u32)
    ensures
        r == ascii_lower_char(c) as u32,
{
    let x = c as u32;
    if 65 <= x && x <= 90 {
        x + 32
    } else {
        x
    }
}

/// Whether both strings are equal once put in ASCII lower case, as
/// `str::eq_ignore_ascii_case` decides.
pub(crate) fn eq_ignore_ascii_case(a: &str, b: &str) -> (r: bool)
    ensures
        r == same_ignoring_ascii_case(a@, b@),
{
    let n = a.unicode_len();
    if n != b.unicode_len() {
        assert(ascii_lower(a@).len() != ascii_lower(b@).len());
        return false;
    }
    let mut i: usize = 0;
    while i < n
        invariant
            n == a@.len(),
            n == b@.len(),
            i <= n,
            forall|j: int| 0 <= j < i ==> ascii_lower_char(a@[j]) == ascii_lower_char(b@[j]),
        decreases n - i,
    {
        let x = lower_code(a.get_char(i));
        let y = lower_code(b.get_char(i));
        if x != y {
            assert(ascii_lower(a@)[i as int] != ascii_lower(b@)[i as int]);
            return false;
        }
        i = i + 1;
    }
    assert(ascii_lower(a@) =~= ascii_lower(b@));
    true
}

/// `str::to_ascii_lowercase` from std: a copy in which `'A'..='Z'` are mapped to
/// `'a'..='z'` and every other character is unchanged.
#[verifier::external_body]
pub(crate) fn to_ascii_lowercase(s: &str) -> (r: String)
    ensures
        r@ == ascii_lower(s@),
{
    s.to_ascii_lowercase()
}

} // verus!

verus! {

/// The character of a decimal digit.
pub open spec fn digit_char(d: int) -> char {
    (('0' as int) + d) as char
}

/// The decimal notation of a natural number, most significant digit first,
/// without leading zeros (`0` is written `"0"`).
pub open spec fn decimal(n: nat) -> Seq<char>
    decreases n,
{
    if n < 10 {
        seq![digit_char(n as int)]
    } else {
        decimal(n / 10).push(digit_char((n % 10) as int))
    }
}

/// The one-character string of a decimal digit.
fn digit_str(d: u64) -> (s: &'static str)
    requires
        d < 10,
    ensures
        s@ == seq![digit_char(d as int)],
{
    proof {
        reveal_strlit("0");
        reveal_strlit("1");
        reveal_strlit("2");
        reveal_strlit("3");
        reveal_strlit("4");
        reveal_strlit("5");
        reveal_strlit("6");
        reveal_strlit("7");
        reveal_strlit("8");
        reveal_strlit("9");
    }
    let s = match d {
        0 => "0",
        1 => "1",
        2 => "2",
        3 => "3",
        4 => "4",
        5 => "5",
        6 => "6",
        7 => "7",
        8 => "8",
        _ => "9",
    };
    assert(s@ =~= seq![digit_char(d as int)]);
    s
}

} // verus!

verus! {

/// Appends the decimal notation of `n` to `out`.
pub(crate) fn push_decimal(out: &mut String, n: u64)
    ensures
        final(out)@ == old(out)@ + decimal(n as nat),
    decreases n,
{
    if n >= 10 {
        push_decimal(out, n / 10);
    }
    out.append(digit_str(n % 10));
}

/// The decimal notation of `n` padded with a leading zero to at least two
/// digits, as the format `{:02}` writes it.
pub open spec fn padded2(n: nat) -> Seq<char> {
    if n < 10 {
        seq!['0'] + decimal(n)
    } else {
        decimal(n)
    }
}

/// Appends `padded2(n)` to `out`.
pub(crate) fn push_padded2(out: &mut String, n: u64)
    ensures
        final(out)@ == old(out)@ + padded2(n as nat),
{
    if n < 10 {
        out.append(digit_str(0));
    }
    push_decimal(out, n);
    proof {
        if n < 10 {
            assert(final(out)@ =~= old(out)@ + padded2(n as nat));
        }
    }
}

} // verus!

verus! {

/// An ASCII decimal digit byte.
pub open spec fn is_digit_byte(b: u8) -> bool {
    48 <= b && b <= 57
}

/// The value of a sequence of decimal digit bytes, most significant first.
pub open spec fn digits_value(b: Seq<u8>) -> nat
    decreases b.len(),
{
    if b.len() == 0 {
        0
    } else {
        digits_value(b.drop_last()) * 10 + (b.last() - 48) as nat
    }
}

/// The digits that an unsigned integer parse reads: a single leading `+` is skipped.
pub open spec fn unsigned_digits(b: Seq<u8>) -> Seq<u8> {
    if b.len() > 0 && b[0] == 43 {
        b.skip(1)
    } else {
        b
    }
}

/// What `str::parse` gives for an unsigned integer type whose largest value is
/// `max`, on a string with these bytes: an optional `+`, then one or more ASCII
/// digits whose value is at most `max`; anything else is an error (`None`).
pub open spec fn parse_unsigned(b: Seq<u8>, max: nat) -> Option<nat> {
    let d = unsigned_digits(b);
    if d.len() > 0 && (forall|i: int| 0 <= i < d.len() ==> is_digit_byte(#[trigger] d[i]))
        && digits_value(d) <= max {
        Some(digits_value(d))
    } else {
        None
    }
}

proof fn lemma_digits_value_prefix(d: Seq<u8>, i: int)
    requires
        0 <= i <= d.len(),
        forall|j: int| 0 <= j < d.len() ==> is_digit_byte(#[trigger] d[j]),
    ensures
        digits_value(d.take(i)) <= digits_value(d),
    decreases d.len() - i,
{
    if i < d.len() {
        lemma_digits_value_prefix(d, i + 1);
        assert(d.take(i + 1).drop_last() =~= d.take(i));
    } else {
        assert(d.take(i) =~= d);
    }
}

/// Parses the bytes `b[start..]` as an unsigned decimal integer that may not
/// exceed `max`, as `str::parse` does for an unsigned integer type.
pub(crate) fn parse_unsigned_bytes(b: &[u8], start: usize, max: u64) -> (r: Option<u64>)
    requires
        start <= b@.len(),
    ensures
        r == (match parse_unsigned(b@.skip(start as int), max as nat) {
            Some(v) => Some(v as u64),
            None => None,
        }),
{
    let ghost s = b@.skip(start as int);
    let mut i = start;
    if i < b.len() && b[i] == 43 {
        i = i + 1;
    }
    let ghost d = unsigned_digits(s);
    assert(d =~= b@.skip(i as int));
    if i == b.len() {
        return None;
    }
    let first = i;
    let mut acc: u64 = 0;
    while i < b.len()
        invariant
            first <= i <= b@.len(),
            first < b@.len(),
            d =~= b@.skip(first as int),
            d == unsigned_digits(b@.skip(start as int)),
            forall|j: int| 0 <= j < i - first ==> is_digit_byte(#[trigger] d[j]),
            acc as nat == digits_value(d.take(i - first)),
            acc <= max,
        decreases b@.len() - i,
    {
        let c = b[i];
        if c < 48 || c > 57 {
            assert(!is_digit_byte(d[i - first]));
            return None;
        }
        let digit = (c - 48) as u64;
        assert(d.take(i + 1 - first).drop_last() =~= d.take(i - first));
        if digit > max || acc > (max - digit) / 10 {
            proof {
                assert(digits_value(d.take(i + 1 - first)) > max) by (nonlinear_arith)
                    requires
                        digits_value(d.take(i + 1 - first)) == acc * 10 + digit,
                        digit > max || acc > (max - digit) / 10,
                        digit <= 9;
                if forall|j: int| 0 <= j < d.len() ==> is_digit_byte(#[trigger] d[j]) {
                    lemma_digits_value_prefix(d, i + 1 - first);
                }
            }
            return None;
        }
        assert(acc * 10 + digit <= max) by (nonlinear_arith)
            requires
                digit <= max,
                acc <= (max - digit) / 10;
        acc = acc * 10 + digit;
        i = i + 1;
    }
    assert(d.take(i - first) =~= d);
    Some(acc)
}

} // verus!

verus! {

/// The bytes of the decimal notation of a natural number.
pub open spec fn decimal_bytes(n: nat) -> Seq<u8>
    decreases n,
{
    if n < 10 {
        seq![(48 + n) as u8]
    } else {
        decimal_bytes(n / 10).push((48 + n % 10) as u8)
    }
}

/// The decimal notation of `n` is a nonempty run of ASCII digits, its bytes are
/// `decimal_bytes(n)`, and their value is `n`.
pub proof fn lemma_decimal_digits(n: nat)
    ensures
        decimal(n).len() > 0,
        decimal_bytes(n).len() == decimal(n).len(),
        forall|i: int| 0 <= i < decimal(n).len() ==> '0' <= #[trigger] decimal(n)[i] <= '9',
        forall|i: int| 0 <= i < decimal(n).len() ==> (#[trigger] decimal(n)[i]) as u8 == decimal_bytes(n)[i],
        forall|i: int| 0 <= i < decimal(n).len() ==> is_digit_byte(#[trigger] decimal_bytes(n)[i]),
        digits_value(decimal_bytes(n)) == n,
    decreases n,
{
    if n < 10 {
        let b = decimal_bytes(n);
        assert(b.drop_last() =~= Seq::<u8>::empty());
        assert(((48 + n) as u8) as int == 48 + n);
        assert(digits_value(b.drop_last()) == 0);
        assert(digits_value(b) == n);
    } else {
        lemma_decimal_digits(n / 10);
        let b = decimal_bytes(n);
        assert(b.drop_last() =~= decimal_bytes(n / 10));
        assert(((48 + n % 10) as u8) as int == 48 + n % 10);
        assert(b.last() == (48 + n % 10) as u8);
        assert((n / 10) * 10 + n % 10 == n);
        assert(digits_value(b) == digits_value(decimal_bytes(n / 10)) * 10 + n % 10);
        assert forall|i: int| 0 <= i < decimal(n).len() implies '0' <= #[trigger] decimal(n)[i] <= '9'
            && decimal(n)[i] as u8 == decimal_bytes(n)[i] && is_digit_byte(decimal_bytes(n)[i]) by {
            if i < decimal(n / 10).len() {
                assert(decimal(n)[i] == decimal(n / 10)[i]);
                assert(decimal_bytes(n)[i] == decimal_bytes(n / 10)[i]);
            }
        }
    }
}

} // verus!
