//! Text helpers: decimal and hexadecimal rendering, decimal parsing and
//! substring tests, each specified over the characters or bytes involved.
use vstd::prelude::*;
use vstd::string::StringSliceAdditionalSpecFns;

verus! {

/// Appends one character with `String::push`.
#[verifier::external_body]
pub(crate) fn push_char(s: &mut String, c: char)
    ensures
        final(s)@ == old(s)@.push(c),
{
    s.push(c);
}

/// Copies the characters of `s` into a vector.
pub fn chars_of(s: &str) -> (v: Vec<char>)
    ensures
        v@ == s@,
{
    let n = s.unicode_len();
    let mut v: Vec<char> = Vec::new();
    let mut i: usize = 0;
    while i < n
        invariant
            n == s@.len(),
            i <= n,
            v@ == s@.subrange(0, i as int),
        decreases n - i,
    {
        let c = s.get_char(i);
        v.push(c);
        i = i + 1;
        assert(v@ == s@.subrange(0, i as int));
    }
    assert(s@.subrange(0, n as int) == s@);
    v
}

/// The bytes of `s`, copied into a vector.
pub fn bytes_of(s: &str) -> (v: Vec<u8>)
    ensures
        v@ == s.spec_bytes(),
{
    s.as_bytes_vec()
}

/// `needle` occurs in `hay` starting at position `i`.
pub open spec fn occurs_at<T>(hay: Seq<T>, needle: Seq<T>, i: int) -> bool {
    &&& 0 <= i
    &&& i + needle.len() <= hay.len()
    &&& hay.subrange(i, i + needle.len()) == needle
}

/// `needle` occurs somewhere in `hay`.
pub open spec fn has_infix<T>(hay: Seq<T>, needle: Seq<T>) -> bool {
    exists|i: int| occurs_at(hay, needle, i)
}

/// `hay` begins with `prefix`.
pub open spec fn has_prefix<T>(hay: Seq<T>, prefix: Seq<T>) -> bool {
    occurs_at(hay, prefix, 0)
}

/// `hay` ends with `suffix`.
pub open spec fn has_suffix<T>(hay: Seq<T>, suffix: Seq<T>) -> bool {
    occurs_at(hay, suffix, hay.len() - suffix.len())
}

/// Whether `needle` occurs in `hay` at `at` (characters).
fn chars_match_at(hay: &Vec<char>, needle: &Vec<char>, at: usize) -> (b: bool)
    requires
        at + needle.len() <= hay.len(),
    ensures
        b == occurs_at(hay@, needle@, at as int),
{
    let mut j: usize = 0;
    while j < needle.len()
        invariant
            at + needle.len() <= hay.len(),
            j <= needle.len(),
            forall|k: int| 0 <= k < j ==> hay@[at + k] == needle@[k],
        decreases needle.len() - j,
    {
        if hay[at + j] != needle[j] {
            assert(hay@.subrange(at as int, at + needle.len())[j as int] != needle@[j as int]);
            return false;
        }
        j = j + 1;
    }
    assert(hay@.subrange(at as int, at + needle.len()) =~= needle@);
    true
}

/// Whether `needle` occurs in `hay` (characters).
pub fn chars_contain(hay: &Vec<char>, needle: &Vec<char>) -> (b: bool)
    ensures
        b == has_infix(hay@, needle@),
{
    if needle.len() > hay.len() {
        assert forall|k: int| !occurs_at(hay@, needle@, k) by {}
        return false;
    }
    let last = hay.len() - needle.len();
    let mut i: usize = 0;
    while i < last
        invariant
            last == hay.len() - needle.len(),
            needle.len() <= hay.len(),
            i <= last,
            forall|k: int| 0 <= k < i ==> !occurs_at(hay@, needle@, k),
        decreases last - i,
    {
        if chars_match_at(hay, needle, i) {
            return true;
        }
        i = i + 1;
    }
    let found = chars_match_at(hay, needle, last);
    assert(!found ==> forall|k: int| !occurs_at(hay@, needle@, k));
    found
}

/// Whether `needle` occurs in `hay` at `at` (bytes).
fn bytes_match_at(hay: &Vec<u8>, needle: &Vec<u8>, at: usize) -> (b: bool)
    requires
        at + needle.len() <= hay.len(),
    ensures
        b == occurs_at(hay@, needle@, at as int),
{
    let mut j: usize = 0;
    while j < needle.len()
        invariant
            at + needle.len() <= hay.len(),
            j <= needle.len(),
            forall|k: int| 0 <= k < j ==> hay@[at + k] == needle@[k],
        decreases needle.len() - j,
    {
        if hay[at + j] != needle[j] {
            assert(hay@.subrange(at as int, at + needle.len())[j as int] != needle@[j as int]);
            return false;
        }
        j = j + 1;
    }
    assert(hay@.subrange(at as int, at + needle.len()) =~= needle@);
    true
}

/// Whether `needle` occurs in `hay` (bytes).
pub fn bytes_contain(hay: &Vec<u8>, needle: &Vec<u8>) -> (b: bool)
    ensures
        b == has_infix(hay@, needle@),
{
    if needle.len() > hay.len() {
        assert forall|k: int| !occurs_at(hay@, needle@, k) by {}
        return false;
    }
    let last = hay.len() - needle.len();
    let mut i: usize = 0;
    while i < last
        invariant
            last == hay.len() - needle.len(),
            needle.len() <= hay.len(),
            i <= last,
            forall|k: int| 0 <= k < i ==> !occurs_at(hay@, needle@, k),
        decreases last - i,
    {
        if bytes_match_at(hay, needle, i) {
            return true;
        }
        i = i + 1;
    }
    let found = bytes_match_at(hay, needle, last);
    assert(!found ==> forall|k: int| !occurs_at(hay@, needle@, k));
    found
}

/// Whether `hay` begins with `prefix` (bytes).
pub fn bytes_start_with(hay: &Vec<u8>, prefix: &Vec<u8>) -> (b: bool)
    ensures
        b == has_prefix(hay@, prefix@),
{
    if prefix.len() > hay.len() {
        false
    } else {
        bytes_match_at(hay, prefix, 0)
    }
}

/// Whether `hay` ends with `suffix` (bytes).
pub fn bytes_end_with(hay: &Vec<u8>, suffix: &Vec<u8>) -> (b: bool)
    ensures
        b == has_suffix(hay@, suffix@),
{
    if suffix.len() > hay.len() {
        false
    } else {
        bytes_match_at(hay, suffix, hay.len() - suffix.len())
    }
}

/// The character of a decimal digit.
pub open spec fn spec_digit(d: nat) -> char {
    if d == 0 { '0' }
    else if d == 1 { '1' }
    else if d == 2 { '2' }
    else if d == 3 { '3' }
    else if d == 4 { '4' }
    else if d == 5 { '5' }
    else if d == 6 { '6' }
    else if d == 7 { '7' }
    else if d == 8 { '8' }
    else { '9' }
}

/// The lower-case character of a hexadecimal digit.
pub open spec fn spec_hex_digit(d: nat) -> char {
    if d < 10 { spec_digit(d) }
    else if d == 10 { 'a' }
    else if d == 11 { 'b' }
    else if d == 12 { 'c' }
    else if d == 13 { 'd' }
    else if d == 14 { 'e' }
    else { 'f' }
}

/// Renders a hexadecimal digit (0..16) as a lower-case character.
pub fn hex_digit(d: u8) -> (c: char)
    requires
        d < 16,
    ensures
        c == spec_hex_digit(d as nat),
{
    if d == 0 { '0' }
    else if d == 1 { '1' }
    else if d == 2 { '2' }
    else if d == 3 { '3' }
    else if d == 4 { '4' }
    else if d == 5 { '5' }
    else if d == 6 { '6' }
    else if d == 7 { '7' }
    else if d == 8 { '8' }
    else if d == 9 { '9' }
    else if d == 10 { 'a' }
    else if d == 11 { 'b' }
    else if d == 12 { 'c' }
    else if d == 13 { 'd' }
    else if d == 14 { 'e' }
    else { 'f' }
}

/// The decimal digits of `n`, most significant first, without leading zeros.
pub open spec fn spec_decimal(n: nat) -> Seq<char>
    decreases n,
{
    if n < 10 {
        seq![spec_digit(n)]
    } else {
        spec_decimal(n / 10).push(spec_digit(n % 10))
    }
}

/// `n` in decimal, padded on the left with zeros to at least `width` characters.
pub open spec fn spec_zero_padded(n: nat, width: nat) -> Seq<char> {
    let d = spec_decimal(n);
    if d.len() >= width {
        d
    } else {
        Seq::new((width - d.len()) as nat, |i: int| '0') + d
    }
}

/// Renders a decimal digit (0..10).
fn digit_char(d: u128) -> (c: char)
    requires
        d < 10,
    ensures
        c == spec_digit(d as nat),
{
    hex_digit(d as u8)
}

/// `n` in decimal.
pub fn decimal_digits(n: u128) -> (s: String)
    ensures
        s@ == spec_decimal(n as nat),
    decreases n,
{
    if n < 10 {
        let mut s = String::new();
        push_char(&mut s, digit_char(n));
        assert(s@ =~= seq![spec_digit(n as nat)]);
        s
    } else {
        let mut s = decimal_digits(n / 10);
        push_char(&mut s, digit_char(n % 10));
        s
    }
}

/// `n` in decimal, padded on the left with zeros to at least `width` characters.
pub fn zero_padded_decimal(n: u128, width: usize) -> (s: String)
    ensures
        s@ == spec_zero_padded(n as nat, width as nat),
{
    let d = decimal_digits(n);
    let dlen = d.as_str().unicode_len();
    if dlen >= width {
        return d;
    }
    let mut s = String::new();
    let mut i: usize = 0;
    let pad = width - dlen;
    while i < pad
        invariant
            i <= pad,
            s@ == Seq::new(i as nat, |k: int| '0'),
        decreases pad - i,
    {
        push_char(&mut s, '0');
        i = i + 1;
        assert(s@ =~= Seq::new(i as nat, |k: int| '0'));
    }
    s.append(d.as_str());
    assert(s@ =~= Seq::new((width - spec_decimal(n as nat).len()) as nat, |i: int| '0') + spec_decimal(n as nat));
    s
}

/// The value of an ASCII decimal digit byte.
pub open spec fn spec_digit_value(b: u8) -> nat {
    (b - 48) as nat
}

/// Every byte is an ASCII decimal digit.
pub open spec fn all_ascii_digits(s: Seq<u8>) -> bool {
    forall|i: int| 0 <= i < s.len() ==> 48 <= #[trigger] s[i] <= 57
}

/// The number that a sequence of decimal digit bytes spells.
pub open spec fn spec_digits_value(s: Seq<u8>) -> nat
    decreases s.len(),
{
    if s.len() == 0 {
        0
    } else {
        spec_digits_value(s.drop_last()) * 10 + spec_digit_value(s.last())
    }
}

/// What `str::parse::<u64>` gives for text with these bytes: an optional `+`,
/// then one or more ASCII digits whose value fits in 64 bits.
pub open spec fn spec_parse_u64(s: Seq<u8>) -> Option<u64> {
    let body = if s.len() > 0 && s[0] == 43u8 { s.drop_first() } else { s };
    if body.len() == 0 || !all_ascii_digits(body) {
        None
    } else if spec_digits_value(body) > u64::MAX {
        None
    } else {
        Some(spec_digits_value(body) as u64)
    }
}

/// Adding a digit never lowers the value.
proof fn lemma_digits_value_prefix(s: Seq<u8>, i: int)
    requires
        0 <= i <= s.len(),
        all_ascii_digits(s),
    ensures
        spec_digits_value(s.subrange(0, i)) <= spec_digits_value(s),
    decreases s.len() - i,
{
    if i < s.len() {
        lemma_digits_value_prefix(s, i + 1);
        assert(s.subrange(0, i + 1).drop_last() =~= s.subrange(0, i));
    } else {
        assert(s.subrange(0, i) =~= s);
    }
}

/// Parses the bytes `s[from..to]` as `str::parse::<u64>` does.
pub fn parse_u64_bytes(s: &Vec<u8>, from: usize, to: usize) -> (r: Option<u64>)
    requires
        from <= to <= s.len(),
    ensures
        r == spec_parse_u64(s@.subrange(from as int, to as int)),
{
    let ghost whole = s@.subrange(from as int, to as int);
    let mut start = from;
    if start < to && s[start] == 43u8 {
        start = start + 1;
    }
    let ghost body = s@.subrange(start as int, to as int);
    assert(body =~= (if whole.len() > 0 && whole[0] == 43u8 { whole.drop_first() } else { whole }));
    if start == to {
        return None;
    }
    let mut value: u64 = 0;
    let mut i: usize = start;
    while i < to
        invariant
            from <= start <= i <= to <= s.len(),
            whole == s@.subrange(from as int, to as int),
            body == s@.subrange(start as int, to as int),
            body == (if whole.len() > 0 && whole[0] == 43u8 { whole.drop_first() } else { whole }),
            all_ascii_digits(s@.subrange(start as int, i as int)),
            value as nat == spec_digits_value(s@.subrange(start as int, i as int)),
        decreases to - i,
    {
        let b = s[i];
        if b < 48 || b > 57 {
            assert(body[i - start] == b);
            assert(!all_ascii_digits(body));
            return None;
        }
        let d: u64 = (b - 48) as u64;
        assert(s@.subrange(start as int, i + 1).drop_last() =~= s@.subrange(start as int, i as int));
        assert(all_ascii_digits(s@.subrange(start as int, i + 1)));
        match value.checked_mul(10) {
            Some(v10) => {
                match v10.checked_add(d) {
                    Some(v) => {
                        value = v;
                    },
                    None => {
                        proof {
                            assert(spec_digits_value(s@.subrange(start as int, i + 1)) > u64::MAX);
                            lemma_none_past_overflow(s@, start as int, i + 1, to as int);
                            assert(spec_parse_u64(whole).is_none());
                        }
                        return None;
                    },
                }
            },
            None => {
                proof {
                    assert(spec_digits_value(s@.subrange(start as int, i + 1)) > u64::MAX);
                    lemma_none_past_overflow(s@, start as int, i + 1, to as int);
                    assert(spec_parse_u64(whole).is_none());
                }
                return None;
            },
        }
        i = i + 1;
    }
    assert(s@.subrange(start as int, i as int) == body);
    Some(value)
}

/// Once a digit prefix exceeds 64 bits, the whole run parses to nothing.
proof fn lemma_none_past_overflow(s: Seq<u8>, start: int, j: int, to: int)
    requires
        0 <= start < j <= to <= s.len(),
        all_ascii_digits(s.subrange(start, j)),
        spec_digits_value(s.subrange(start, j)) > u64::MAX,
    ensures
        !all_ascii_digits(s.subrange(start, to)) || spec_digits_value(s.subrange(start, to)) > u64::MAX,
{
    let body = s.subrange(start, to);
    if all_ascii_digits(body) {
        lemma_digits_value_prefix(body, j - start);
        assert(body.subrange(0, j - start) =~= s.subrange(start, j));
    }
}


/// The last `width` hexadecimal digits of `n`, lower case, most significant first.
pub open spec fn spec_hex_fixed(n: nat, width: nat) -> Seq<char>
    decreases width,
{
    if width == 0 {
        Seq::empty()
    } else {
        spec_hex_fixed(n / 16, (width - 1) as nat).push(spec_hex_digit(n % 16))
    }
}

/// Renders the last `width` hexadecimal digits of `n` (as `{:0width$x}` does
/// when `n` has at most `width` digits).
pub fn hex_fixed(n: u64, width: usize) -> (s: String)
    ensures
        s@ == spec_hex_fixed(n as nat, width as nat),
        s@.len() == width,
    decreases width,
{
    if width == 0 {
        let s = String::new();
        assert(s@ =~= Seq::<char>::empty());
        s
    } else {
        let mut s = hex_fixed(n / 16, width - 1);
        push_char(&mut s, hex_digit((n % 16) as u8));
        s
    }
}


/// Whether two strings have the same characters.
pub fn str_eq(a: &str, b: &str) -> (r: bool)
    ensures
        r == (a@ == b@),
{
    let x = String::from_str(a);
    let y = String::from_str(b);
    x == y
}

} // verus!
