//! Plain-text building blocks: numbers in decimal and hexadecimal, white space,
//! words, and comparison of strings by their characters.
use vstd::prelude::*;

verus! {

/// `String::push` appends the one character to the string.
pub assume_specification[ String::push ](s: &mut String, c: char)
    ensures
        final(s)@ == old(s)@.push(c),
;

/// Why a piece of text is not a number of the wanted type.
#[derive(Clone, Copy, Debug, PartialEq, Eq, Structural)]
pub enum NumberError {
    /// There is no text at all.
    Empty,
    /// A character is not a decimal digit, or a sign stands alone.
    InvalidDigit,
    /// The digits up to some point are more than the type holds.
    PosOverflow,
}

/// The character of one digit below sixteen, in lower case.
pub open spec fn digit_char(d: int) -> char {
    if d < 10 {
        (48 + d) as char
    } else {
        (87 + d) as char
    }
}

/// The decimal text of `n`, without leading zeros.
pub open spec fn decimal(n: nat) -> Seq<char>
    decreases n,
{
    if n < 10 {
        seq![digit_char(n as int)]
    } else {
        decimal(n / 10).push(digit_char((n % 10) as int))
    }
}

/// The decimal text of a number with a sign.
pub open spec fn signed_decimal(n: int) -> Seq<char> {
    if n < 0 {
        seq!['-'] + decimal((-n) as nat)
    } else {
        decimal(n as nat)
    }
}

/// The last `width` hexadecimal digits of `n`, most significant first.
pub open spec fn hexadecimal(n: nat, width: nat) -> Seq<char>
    decreases width,
{
    if width == 0 {
        Seq::empty()
    } else {
        hexadecimal(n / 16, (width - 1) as nat).push(digit_char((n % 16) as int))
    }
}

/// The characters with the Unicode property `White_Space`.
pub open spec fn is_white(c: char) -> bool {
    let n = c as u32;
    ||| 0x9 <= n <= 0xd
    ||| n == 0x20
    ||| n == 0x85
    ||| n == 0xa0
    ||| n == 0x1680
    ||| 0x2000 <= n <= 0x200a
    ||| n == 0x2028
    ||| n == 0x2029
    ||| n == 0x202f
    ||| n == 0x205f
    ||| n == 0x3000
}

/// `s` without the white space at its end.
pub open spec fn trimmed_end(s: Seq<char>) -> Seq<char>
    decreases s.len(),
{
    if s.len() > 0 && is_white(s.last()) {
        trimmed_end(s.drop_last())
    } else {
        s
    }
}

/// `s` without the white space at its beginning.
pub open spec fn trimmed_start(s: Seq<char>) -> Seq<char>
    decreases s.len(),
{
    if s.len() > 0 && is_white(s[0]) {
        trimmed_start(s.skip(1))
    } else {
        s
    }
}

/// `s` without the white space at either end.
pub open spec fn trimmed(s: Seq<char>) -> Seq<char> {
    trimmed_start(trimmed_end(s))
}

/// Every character of `s` is white space.
pub open spec fn is_blank(s: Seq<char>) -> bool {
    forall|i: int| 0 <= i < s.len() ==> is_white(#[trigger] s[i])
}

/// The maximal runs of characters other than white space, in order.
pub open spec fn words(s: Seq<char>) -> Seq<Seq<char>>
    decreases s.len(),
{
    if s.len() == 0 {
        Seq::empty()
    } else {
        let before = s.drop_last();
        if is_white(s.last()) {
            words(before)
        } else if before.len() == 0 || is_white(before.last()) {
            words(before).push(seq![s.last()])
        } else {
            words(before).drop_last().push(words(before).last().push(s.last()))
        }
    }
}

/// How many characters stand before the first white space of `s`.
pub open spec fn first_white(s: Seq<char>) -> nat
    decreases s.len(),
{
    if s.len() == 0 || is_white(s[0]) {
        0
    } else {
        1 + first_white(s.skip(1))
    }
}

/// What stands before the first white space of `s`, or all of it.
pub open spec fn head_of(s: Seq<char>) -> Seq<char> {
    s.take(first_white(s) as int)
}

/// What stands behind the first white space of `s`, or nothing.
pub open spec fn tail_of(s: Seq<char>) -> Seq<char> {
    if first_white(s) < s.len() {
        s.skip(first_white(s) as int + 1)
    } else {
        Seq::empty()
    }
}

/// The characters of a vector of strings.
pub open spec fn texts(v: Seq<String>) -> Seq<Seq<char>> {
    v.map_values(|s: String| s@)
}

/// The characters of an optional string.
pub open spec fn opt_text(s: Option<String>) -> Option<Seq<char>> {
    match s {
        Some(s) => Some(s@),
        None => None,
    }
}

pub open spec fn is_digit(c: char) -> bool {
    '0' <= c <= '9'
}

/// The value of a run of decimal digits, or the first thing wrong with it, read from the left.
pub open spec fn digits_value(s: Seq<char>, max: int) -> Result<int, NumberError>
    decreases s.len(),
{
    if s.len() == 0 {
        Ok(0)
    } else {
        match digits_value(s.drop_last(), max) {
            Err(e) => Err(e),
            Ok(v) => if !is_digit(s.last()) {
                Err(NumberError::InvalidDigit)
            } else if v * 10 + (s.last() as int - 48) > max {
                Err(NumberError::PosOverflow)
            } else {
                Ok(v * 10 + (s.last() as int - 48))
            },
        }
    }
}

/// What `s` is as an unsigned number of at most `max`: an optional `+`, then decimal digits.
pub open spec fn unsigned_value(s: Seq<char>, max: int) -> Result<int, NumberError> {
    if s.len() == 0 {
        Err(NumberError::Empty)
    } else if s[0] == '+' {
        if s.len() == 1 {
            Err(NumberError::InvalidDigit)
        } else {
            digits_value(s.skip(1), max)
        }
    } else {
        digits_value(s, max)
    }
}

/// What `s` is as a number of 32 bits with a sign: an optional `+` or `-`, then decimal digits.
pub open spec fn signed_value(s: Seq<char>) -> Option<int> {
    if s.len() > 1 && s[0] == '-' {
        match digits_value(s.skip(1), 0x8000_0000) {
            Ok(v) => Some(-v),
            Err(_) => None,
        }
    } else {
        match unsigned_value(s, 0x7fff_ffff) {
            Ok(v) => Some(v),
            Err(_) => None,
        }
    }
}

/// The character of one digit below sixteen, in lower case.
pub fn digit(d: u8) -> (c: char)
    requires
        d < 16,
    ensures
        c == digit_char(d as int),
{
    if d < 10 {
        (48 + d) as char
    } else {
        (87 + d) as char
    }
}

/// An owned copy of `s`.
pub fn owned(s: &str) -> (r: String)
    ensures
        r@ == s@,
{
    s.to_owned()
}

/// Whether two strings hold the same characters.
pub fn same(a: &str, b: &str) -> (r: bool)
    ensures
        r == (a@ == b@),
{
    a.to_owned() == b.to_owned()
}

/// Whether two optional strings are alike.
pub fn same_opt(a: &Option<String>, b: &Option<String>) -> (r: bool)
    ensures
        r == (opt_text(*a) == opt_text(*b)),
{
    match (a, b) {
        (Some(x), Some(y)) => *x == *y,
        (None, None) => true,
        _ => false,
    }
}

/// A copy of an optional string.
pub fn copy_opt(a: &Option<String>) -> (r: Option<String>)
    ensures
        opt_text(r) == opt_text(*a),
{
    match a {
        Some(x) => Some(x.clone()),
        None => None,
    }
}

/// Copies of the strings of a vector.
pub fn copy_texts(v: &Vec<String>) -> (r: Vec<String>)
    ensures
        texts(r@) == texts(v@),
{
    let mut r: Vec<String> = Vec::new();
    let mut i: usize = 0;
    while i < v.len()
        invariant
            i <= v.len(),
            r.len() == i,
            forall|j: int| 0 <= j < i ==> (#[trigger] r@[j])@ == v@[j]@,
        decreases v.len() - i,
    {
        r.push(v[i].clone());
        i += 1;
    }
    assert(texts(r@) =~= texts(v@));
    r
}

/// The characters of `s` in a vector.
pub fn chars(s: &str) -> (r: Vec<char>)
    ensures
        r@ == s@,
{
    let mut v: Vec<char> = Vec::new();
    for c in it: s.chars()
        invariant
            it.seq() == s@,
            v@ == s@.take(it.index()),
    {
        v.push(c);
    }
    v
}

/// The string of the characters of `v` from `from` up to `to`.
pub fn string_of(v: &Vec<char>, from: usize, to: usize) -> (r: String)
    requires
        from <= to <= v@.len(),
    ensures
        r@ == v@.subrange(from as int, to as int),
{
    let mut r = String::new();
    let mut i: usize = from;
    while i < to
        invariant
            from <= i <= to <= v@.len(),
            r@ == v@.subrange(from as int, i as int),
        decreases to - i,
    {
        r.push(v[i]);
        i += 1;
    }
    r
}

/// `a` with `b` behind it.
pub fn joined(a: String, b: &str) -> (r: String)
    ensures
        r@ == a@ + b@,
{
    a.concat(b)
}

/// The decimal text of `n`.
pub fn decimal_text(n: u128) -> (r: String)
    ensures
        r@ == decimal(n as nat),
    decreases n,
{
    if n < 10 {
        let mut r = String::new();
        r.push(digit(n as u8));
        r
    } else {
        let mut r = decimal_text(n / 10);
        r.push(digit((n % 10) as u8));
        r
    }
}

/// The decimal text of a number with a sign.
pub fn signed_decimal_text(n: i32) -> (r: String)
    ensures
        r@ == signed_decimal(n as int),
{
    if n < 0 {
        let wide: i64 = n as i64;
        let mut r = String::new();
        r.push('-');
        assert(r@ =~= seq!['-']);
        joined(r, decimal_text((-wide) as u128).as_str())
    } else {
        decimal_text(n as u128)
    }
}

/// The last `width` hexadecimal digits of `n`.
pub fn hexadecimal_text(n: u128, width: u8) -> (r: String)
    ensures
        r@ == hexadecimal(n as nat, width as nat),
    decreases width,
{
    if width == 0 {
        String::new()
    } else {
        let mut r = hexadecimal_text(n / 16, width - 1);
        r.push(digit((n % 16) as u8));
        r
    }
}

/// Whether `c` has the Unicode property `White_Space`.
pub fn white(c: char) -> (r: bool)
    ensures
        r == is_white(c),
{
    let n: u32 = c as u32;
    (0x9 <= n && n <= 0xd) || n == 0x20 || n == 0x85 || n == 0xa0 || n == 0x1680 || (0x2000 <= n
        && n <= 0x200a) || n == 0x2028 || n == 0x2029 || n == 0x202f || n == 0x205f || n == 0x3000
}

/// `s` without the white space at its end.
pub fn trim_end(s: &str) -> (r: String)
    ensures
        r@ == trimmed_end(s@),
{
    let v = chars(s);
    let mut end: usize = v.len();
    assert(v@.take(end as int) =~= s@);
    while end > 0 && white(v[end - 1])
        invariant
            end <= v@.len(),
            v@ == s@,
            trimmed_end(v@.take(end as int)) == trimmed_end(s@),
        decreases end,
    {
        assert(v@.take(end as int).drop_last() =~= v@.take(end - 1));
        end -= 1;
    }
    proof {
        assert(v@.subrange(0, end as int) =~= v@.take(end as int));
    }
    string_of(&v, 0, end)
}

/// `s` without the white space at its beginning.
pub fn trim_start(s: &str) -> (r: String)
    ensures
        r@ == trimmed_start(s@),
{
    let v = chars(s);
    let mut start: usize = 0;
    assert(v@.skip(0) =~= s@);
    while start < v.len() && white(v[start])
        invariant
            start <= v@.len(),
            v@ == s@,
            trimmed_start(v@.skip(start as int)) == trimmed_start(s@),
        decreases v@.len() - start,
    {
        assert(v@.skip(start as int).skip(1) =~= v@.skip(start + 1));
        start += 1;
    }
    let end: usize = v.len();
    assert(v@.subrange(start as int, end as int) =~= v@.skip(start as int));
    string_of(&v, start, end)
}

/// `s` without the white space at either end.
pub fn trim(s: &str) -> (r: String)
    ensures
        r@ == trimmed(s@),
{
    let t = trim_end(s);
    trim_start(t.as_str())
}

/// Whether nothing is left of `s` once it is trimmed.
pub fn blank(s: &str) -> (r: bool)
    ensures
        r == is_blank(s@),
        r == (trimmed(s@).len() == 0),
{
    proof {
        lemma_blank_trims(s@);
    }
    let v = chars(s);
    let mut i: usize = 0;
    while i < v.len()
        invariant
            i <= v@.len(),
            v@ == s@,
            is_blank(s@) <==> trimmed(s@).len() == 0,
            forall|j: int| 0 <= j < i ==> is_white(#[trigger] v@[j]),
        decreases v@.len() - i,
    {
        if !white(v[i]) {
            assert(!is_white(s@[i as int]));
            return false;
        }
        i += 1;
    }
    true
}

proof fn lemma_trimmed_end(s: Seq<char>)
    ensures
        trimmed_end(s).len() <= s.len(),
        trimmed_end(s) == s.take(trimmed_end(s).len() as int),
        forall|i: int| trimmed_end(s).len() <= i < s.len() ==> is_white(#[trigger] s[i]),
        trimmed_end(s).len() > 0 ==> !is_white(trimmed_end(s).last()),
    decreases s.len(),
{
    if s.len() > 0 && is_white(s.last()) {
        lemma_trimmed_end(s.drop_last());
        assert(s.drop_last().take(trimmed_end(s).len() as int) =~= s.take(
            trimmed_end(s).len() as int,
        ));
        assert forall|i: int| trimmed_end(s).len() <= i < s.len() implies is_white(
            #[trigger] s[i],
        ) by {
            if i < s.len() - 1 {
                assert(s.drop_last()[i] == s[i]);
            }
        }
    } else {
        assert(s.take(s.len() as int) =~= s);
    }
}

proof fn lemma_trimmed_start(s: Seq<char>)
    requires
        s.len() > 0,
        !is_white(s.last()),
    ensures
        trimmed_start(s).len() > 0,
    decreases s.len(),
{
    if is_white(s[0]) {
        assert(s.skip(1).len() > 0);
        assert(s.skip(1).last() == s.last());
        lemma_trimmed_start(s.skip(1));
    }
}

/// Text is blank exactly when trimming leaves nothing of it.
pub proof fn lemma_blank_trims(s: Seq<char>)
    ensures
        is_blank(s) <==> trimmed(s).len() == 0,
{
    lemma_trimmed_end(s);
    let t = trimmed_end(s);
    if t.len() > 0 {
        lemma_trimmed_start(t);
        assert(t.last() == s[t.len() - 1]);
    } else {
        assert forall|i: int| 0 <= i < s.len() implies is_white(#[trigger] s[i]) by {}
    }
}

/// The parts of `s` before and after its first white space.
pub fn split_once_white(s: &str) -> (r: (String, String))
    ensures
        r.0@ == head_of(s@),
        r.1@ == tail_of(s@),
{
    let v = chars(s);
    let mut i: usize = 0;
    assert(v@.skip(0) =~= s@);
    while i < v.len() && !white(v[i])
        invariant
            i <= v@.len(),
            v@ == s@,
            first_white(s@) == i + first_white(v@.skip(i as int)),
        decreases v@.len() - i,
    {
        assert(v@.skip(i as int).skip(1) =~= v@.skip(i + 1));
        i += 1;
    }
    assert(first_white(s@) == i);
    let head = string_of(&v, 0, i);
    assert(v@.subrange(0, i as int) =~= s@.take(i as int));
    if i == v.len() {
        assert(tail_of(s@) =~= Seq::empty());
        (head, String::new())
    } else {
        let tail = string_of(&v, i + 1, v.len());
        assert(v@.subrange(i + 1, v@.len() as int) =~= s@.skip(i + 1));
        (head, tail)
    }
}

/// `s` is what stands before its first white space, that white space, and what stands behind it.
pub proof fn law_split_puts_together(s: Seq<char>)
    ensures
        first_white(s) <= s.len(),
        forall|i: int| 0 <= i < first_white(s) ==> !is_white(#[trigger] s[i]),
        first_white(s) < s.len() ==> is_white(s[first_white(s) as int]) && s == head_of(s).push(
            s[first_white(s) as int],
        ) + tail_of(s),
        first_white(s) == s.len() ==> s == head_of(s),
    decreases s.len(),
{
    if s.len() > 0 && !is_white(s[0]) {
        law_split_puts_together(s.skip(1));
        assert forall|i: int| 0 <= i < first_white(s) implies !is_white(#[trigger] s[i]) by {
            if i > 0 {
                assert(s.skip(1)[i - 1] == s[i]);
            }
        }
    }
    if first_white(s) < s.len() {
        assert(s =~= head_of(s).push(s[first_white(s) as int]) + tail_of(s));
    } else {
        assert(s =~= head_of(s));
    }
}

/// The words of `s`.
pub fn split_words(s: &str) -> (r: Vec<String>)
    ensures
        texts(r@) == words(s@),
{
    let v = chars(s);
    let mut r: Vec<String> = Vec::new();
    let mut current = String::new();
    let mut open: bool = false;
    let mut i: usize = 0;
    assert(v@.take(0) =~= Seq::empty());
    assert(texts(r@) =~= words(v@.take(0)));
    while i < v.len()
        invariant
            i <= v@.len(),
            v@ == s@,
            open == (i > 0 && !is_white(v@[i - 1])),
            open ==> words(v@.take(i as int)) == texts(r@).push(current@),
            !open ==> words(v@.take(i as int)) == texts(r@) && current@.len() == 0,
        decreases v@.len() - i,
    {
        let c = v[i];
        proof {
            assert(v@.take(i + 1).drop_last() =~= v@.take(i as int));
            assert(v@.take(i + 1).last() == c);
            if i > 0 {
                assert(v@.take(i as int).last() == v@[i - 1]);
            }
        }
        if white(c) {
            if open {
                let ghost before = texts(r@);
                let ghost word = current@;
                r.push(current);
                assert(texts(r@) =~= before.push(word));
                current = String::new();
                open = false;
            }
        } else {
            let ghost before = texts(r@);
            let ghost word = current@;
            current.push(c);
            if open {
                assert(before.push(word).drop_last() =~= before);
                assert(before.push(word).last() == word);
            } else {
                assert(current@ =~= seq![c]);
            }
            open = true;
        }
        i += 1;
    }
    assert(v@.take(i as int) =~= s@);
    if open {
        let ghost before = texts(r@);
        let ghost word = current@;
        r.push(current);
        assert(texts(r@) =~= before.push(word));
    }
    r
}

/// The value of the digits of `v` from `from` on.
fn parse_digits(v: &Vec<char>, from: usize, max: u64) -> (r: Result<u64, NumberError>)
    requires
        from <= v@.len(),
    ensures
        match digits_value(v@.skip(from as int), max as int) {
            Ok(n) => r == Ok::<u64, NumberError>(n as u64) && 0 <= n <= max,
            Err(e) => r == Err::<u64, NumberError>(e),
        },
{
    let mut value: u64 = 0;
    let mut i: usize = from;
    assert(v@.subrange(from as int, from as int) =~= Seq::empty());
    while i < v.len()
        invariant
            from <= i <= v@.len(),
            value <= max,
            digits_value(v@.subrange(from as int, i as int), max as int) == Ok::<int, NumberError>(
                value as int,
            ),
        decreases v@.len() - i,
    {
        let c = v[i];
        proof {
            assert(v@.subrange(from as int, i + 1).drop_last() =~= v@.subrange(
                from as int,
                i as int,
            ));
            assert(v@.subrange(from as int, i + 1).last() == c);
        }
        if !('0' <= c && c <= '9') {
            proof {
                assert(v@.skip(from as int).take(i + 1 - from) =~= v@.subrange(from as int, i + 1));
                lemma_digits_fail(v@.skip(from as int), max as int, i + 1 - from);
            }
            return Err(NumberError::InvalidDigit);
        }
        let d: u64 = (c as u64) - 48;
        let next: u128 = (value as u128) * 10 + (d as u128);
        if next > max as u128 {
            proof {
                assert(v@.skip(from as int).take(i + 1 - from) =~= v@.subrange(from as int, i + 1));
                lemma_digits_fail(v@.skip(from as int), max as int, i + 1 - from);
            }
            return Err(NumberError::PosOverflow);
        }
        value = next as u64;
        i += 1;
    }
    assert(v@.subrange(from as int, i as int) =~= v@.skip(from as int));
    Ok(value)
}

/// What is wrong with the beginning of a run of digits is wrong with all of it.
proof fn lemma_digits_fail(s: Seq<char>, max: int, n: int)
    requires
        0 <= n <= s.len(),
        digits_value(s.take(n), max) is Err,
    ensures
        digits_value(s, max) == digits_value(s.take(n), max),
    decreases s.len(),
{
    if n == s.len() {
        assert(s.take(n) =~= s);
    } else {
        assert(s.drop_last().take(n) =~= s.take(n));
        lemma_digits_fail(s.drop_last(), max, n);
    }
}

/// What `s` is as an unsigned number of at most `max`.
pub fn parse_unsigned(s: &str, max: u64) -> (r: Result<u64, NumberError>)
    ensures
        match unsigned_value(s@, max as int) {
            Ok(n) => r == Ok::<u64, NumberError>(n as u64) && 0 <= n <= max,
            Err(e) => r == Err::<u64, NumberError>(e),
        },
{
    let v = chars(s);
    if v.len() == 0 {
        Err(NumberError::Empty)
    } else if v[0] == '+' {
        if v.len() == 1 {
            Err(NumberError::InvalidDigit)
        } else {
            parse_digits(&v, 1, max)
        }
    } else {
        assert(v@.skip(0) =~= s@);
        parse_digits(&v, 0, max)
    }
}

/// What `s` is as a number of 32 bits with a sign.
pub fn parse_signed(s: &str) -> (r: Option<i32>)
    ensures
        match signed_value(s@) {
            Some(n) => r == Some(n as i32) && -0x8000_0000 <= n <= 0x7fff_ffff,
            None => r is None,
        },
{
    let v = chars(s);
    if v.len() > 1 && v[0] == '-' {
        match parse_digits(&v, 1, 0x8000_0000) {
            Ok(n) => {
                let wide: i64 = -(n as i64);
                Some(wide as i32)
            },
            Err(_) => None,
        }
    } else {
        match parse_unsigned(s, 0x7fff_ffff) {
            Ok(n) => Some(n as i32),
            Err(_) => None,
        }
    }
}

/// Reading the decimal text of a number gives the number back.
pub proof fn law_decimal_reads_back(n: nat, max: int)
    requires
        n <= max,
    ensures
        decimal(n).len() > 0,
        unsigned_value(decimal(n), max) == Ok::<int, NumberError>(n as int),
{
    lemma_decimal_digits(n, max);
    lemma_decimal_first(n);
}

proof fn lemma_decimal_digits(n: nat, max: int)
    requires
        n <= max,
    ensures
        decimal(n).len() > 0,
        digits_value(decimal(n), max) == Ok::<int, NumberError>(n as int),
    decreases n,
{
    if n < 10 {
        assert(decimal(n).drop_last() =~= Seq::empty());
        assert(decimal(n).last() == digit_char(n as int));
        assert(digits_value(Seq::<char>::empty(), max) == Ok::<int, NumberError>(0));
    } else {
        lemma_decimal_digits(n / 10, max);
        assert(decimal(n).drop_last() =~= decimal(n / 10));
        assert(decimal(n).last() == digit_char((n % 10) as int));
    }
}

proof fn lemma_decimal_first(n: nat)
    ensures
        decimal(n).len() > 0,
        is_digit(decimal(n)[0]),
    decreases n,
{
    if n >= 10 {
        lemma_decimal_first(n / 10);
        assert(decimal(n)[0] == decimal(n / 10)[0]);
    }
}

/// Two numbers with the same decimal text are the same number.
pub proof fn law_decimal_is_injective(a: nat, b: nat)
    requires
        decimal(a) == decimal(b),
    ensures
        a == b,
{
    let max: int = if a < b {
        b as int
    } else {
        a as int
    };
    lemma_decimal_digits(a, max);
    lemma_decimal_digits(b, max);
}

/// A hexadecimal text of fixed width has that width.
pub proof fn law_hexadecimal_width(n: nat, width: nat)
    ensures
        hexadecimal(n, width).len() == width,
    decreases width,
{
    if width > 0 {
        law_hexadecimal_width(n / 16, (width - 1) as nat);
    }
}

/// Two numbers of at most 128 bits with the same 32 hexadecimal digits are the same number.
pub proof fn law_hexadecimal_is_injective(a: u128, b: u128)
    requires
        hexadecimal(a as nat, 32) == hexadecimal(b as nat, 32),
    ensures
        a == b,
{
    vstd::arithmetic::power::lemma_pow_positive(16, 32);
    assert(vstd::arithmetic::power::pow(16, 32) == 0x1_0000_0000_0000_0000_0000_0000_0000_0000) by {
        reveal_with_fuel(vstd::arithmetic::power::pow, 33);
    }
    lemma_hexadecimal_injective(a as nat, b as nat, 32);
}

proof fn lemma_hexadecimal_injective(a: nat, b: nat, width: nat)
    requires
        a < vstd::arithmetic::power::pow(16, width),
        b < vstd::arithmetic::power::pow(16, width),
        hexadecimal(a, width) == hexadecimal(b, width),
    ensures
        a == b,
    decreases width,
{
    reveal(vstd::arithmetic::power::pow);
    if width > 0 {
        let w = (width - 1) as nat;
        assert(hexadecimal(a, width).last() == digit_char((a % 16) as int));
        assert(hexadecimal(b, width).last() == digit_char((b % 16) as int));
        assert(hexadecimal(a, width).drop_last() =~= hexadecimal(a / 16, w));
        assert(hexadecimal(b, width).drop_last() =~= hexadecimal(b / 16, w));
        assert(vstd::arithmetic::power::pow(16, width) == 16 * vstd::arithmetic::power::pow(16, w));
        lemma_hexadecimal_injective(a / 16, b / 16, w);
    }
}

/// Trimming takes white space from both ends, all of it and nothing else.
pub proof fn law_trimming_takes_white_space_only(s: Seq<char>) -> (range: (int, int))
    ensures
        0 <= range.0 <= range.1 <= s.len(),
        trimmed(s) == s.subrange(range.0, range.1),
        forall|i: int| 0 <= i < range.0 || range.1 <= i < s.len() ==> is_white(#[trigger] s[i]),
        trimmed(s).len() > 0 ==> !is_white(trimmed(s)[0]) && !is_white(trimmed(s).last()),
        trimmed_end(s) == s.take(trimmed_end(s).len() as int),
        trimmed_end(s).len() <= s.len(),
        forall|i: int| trimmed_end(s).len() <= i < s.len() ==> is_white(#[trigger] s[i]),
        trimmed_end(s).len() > 0 ==> !is_white(trimmed_end(s).last()),
{
    lemma_trimmed_end(s);
    let t = trimmed_end(s);
    let from = lemma_trimmed_from(t);
    let to = t.len() as int;
    assert(t.skip(from) =~= s.subrange(from, to));
    assert forall|i: int| 0 <= i < from || to <= i < s.len() implies is_white(
        #[trigger] s[i],
    ) by {
        if i < from {
            assert(t[i] == s[i]);
        }
    }
    if trimmed(s).len() > 0 {
        assert(trimmed(s).last() == t.last());
    }
    (from, to)
}

proof fn lemma_trimmed_from(s: Seq<char>) -> (from: int)
    ensures
        0 <= from <= s.len(),
        trimmed_start(s) == s.skip(from),
        forall|i: int| 0 <= i < from ==> is_white(#[trigger] s[i]),
        from < s.len() ==> !is_white(s[from]),
    decreases s.len(),
{
    if s.len() > 0 && is_white(s[0]) {
        let rest = lemma_trimmed_from(s.skip(1));
        assert(s.skip(1).skip(rest) =~= s.skip(rest + 1));
        assert forall|i: int| 0 <= i < rest + 1 implies is_white(#[trigger] s[i]) by {
            if i > 0 {
                assert(s.skip(1)[i - 1] == s[i]);
            }
        }
        if rest + 1 < s.len() {
            assert(s.skip(1)[rest] == s[rest + 1]);
        }
        rest + 1
    } else {
        assert(s.skip(0) =~= s);
        0
    }
}

/// White space parts words: the words of two texts with white space between them are those of the
/// one and then those of the other.
pub proof fn law_white_space_parts_words(a: Seq<char>, gap: char, b: Seq<char>)
    requires
        is_white(gap),
    ensures
        words(a.push(gap) + b) == words(a) + words(b),
    decreases b.len(),
{
    let s = a.push(gap) + b;
    if b.len() == 0 {
        assert(s.drop_last() =~= a);
        assert(s.last() == gap);
        assert(words(a) + words(b) =~= words(a));
    } else {
        let c = b.drop_last();
        let before = a.push(gap) + c;
        law_white_space_parts_words(a, gap, c);
        assert(s.drop_last() =~= before);
        assert(s.last() == b.last());
        if !is_white(b.last()) {
            if c.len() == 0 {
                assert(before.last() == gap);
                assert(words(a) + words(b) =~= words(before).push(seq![b.last()])) by {
                    assert(words(c) =~= Seq::empty());
                }
            } else {
                assert(before.last() == c.last());
                if is_white(c.last()) {
                    assert(words(a) + words(b) =~= words(before).push(seq![b.last()]));
                } else {
                    lemma_words_end(c);
                    assert((words(a) + words(c)).drop_last() =~= words(a) + words(c).drop_last());
                    assert((words(a) + words(c)).last() == words(c).last());
                    assert(words(a) + words(b) =~= words(s));
                }
            }
        }
    }
}

/// A text that does not end in white space has words.
proof fn lemma_words_end(s: Seq<char>)
    requires
        s.len() > 0,
        !is_white(s.last()),
    ensures
        words(s).len() > 0,
    decreases s.len(),
{
    let before = s.drop_last();
    if before.len() > 0 && !is_white(before.last()) {
        lemma_words_end(before);
    }
}

/// A text without white space is one word, and no text is none.
pub proof fn law_word_is_a_word(s: Seq<char>)
    requires
        forall|i: int| 0 <= i < s.len() ==> !is_white(#[trigger] s[i]),
    ensures
        s.len() == 0 ==> words(s).len() == 0,
        s.len() > 0 ==> words(s) == seq![s],
    decreases s.len(),
{
    if s.len() > 0 {
        let before = s.drop_last();
        assert forall|i: int| 0 <= i < before.len() implies !is_white(#[trigger] before[i]) by {
            assert(before[i] == s[i]);
        }
        law_word_is_a_word(before);
        assert(!is_white(s[s.len() - 1]));
        if before.len() == 0 {
            assert(words(s) =~= seq![s]) by {
                assert(seq![s.last()] =~= s);
            }
        } else {
            assert(!is_white(before[before.len() - 1]));
            assert(before.push(s.last()) =~= s);
            assert(words(s) =~= seq![s]);
        }
    }
}

/// A run of digits is a number: every character is a digit, it is no more than the greatest, zeros
/// at its beginning do not count, and one more digit makes it ten times as much and the digit.
pub proof fn law_digits_are_a_number(s: Seq<char>, c: char, max: int)
    requires
        max >= 0,
    ensures
        digits_value(s, max) matches Ok(v) ==> {
            &&& 0 <= v <= max
            &&& forall|i: int| 0 <= i < s.len() ==> '0' <= #[trigger] s[i] <= '9'
            &&& '0' <= c <= '9' && 10 * v + (c as int - '0' as int) <= max ==> digits_value(
                s.push(c),
                max,
            ) == Ok::<int, NumberError>(10 * v + (c as int - '0' as int))
            &&& '0' <= c <= '9' && 10 * v + (c as int - '0' as int) > max ==> digits_value(
                s.push(c),
                max,
            ) == Err::<int, NumberError>(NumberError::PosOverflow)
            &&& !('0' <= c <= '9') ==> digits_value(s.push(c), max) == Err::<int, NumberError>(
                NumberError::InvalidDigit,
            )
        },
        digits_value(s, max) matches Err(e) ==> digits_value(s.push(c), max) == Err::<
            int,
            NumberError,
        >(e),
        digits_value(Seq::empty(), max) == Ok::<int, NumberError>(0),
    decreases s.len(),
{
    assert(s.push(c).drop_last() =~= s);
    if s.len() > 0 {
        law_digits_are_a_number(s.drop_last(), s.last(), max);
        assert(s.drop_last().push(s.last()) =~= s);
        if digits_value(s, max) is Ok {
            assert forall|i: int| 0 <= i < s.len() implies '0' <= #[trigger] s[i] <= '9' by {
                if i < s.len() - 1 {
                    assert(s.drop_last()[i] == s[i]);
                }
            }
        }
    }
}

/// A number may have a plus, or where it may be less than zero a minus, and has digits behind it;
/// nothing at all is no number.
pub proof fn law_numbers_have_signs(digits: Seq<char>, max: int, v: int)
    requires
        digits.len() > 0,
        '0' <= digits[0] <= '9',
    ensures
        unsigned_value(digits, max) == digits_value(digits, max),
        unsigned_value(seq!['+'] + digits, max) == digits_value(digits, max),
        unsigned_value(seq!['+'], max) is Err,
        unsigned_value(Seq::empty(), max) == Err::<int, NumberError>(NumberError::Empty),
        signed_value(digits) == match digits_value(digits, 0x7fff_ffff) {
            Ok(n) => Some(n),
            Err(_) => None,
        },
        signed_value(seq!['-'] + digits) == match digits_value(digits, 0x8000_0000) {
            Ok(n) => Some(-n),
            Err(_) => None,
        },
        signed_value(Seq::empty()) is None,
        signed_value(seq!['-']) is None,
{
    let plus = seq!['+'] + digits;
    let minus = seq!['-'] + digits;
    assert(plus.skip(1) =~= digits);
    assert(minus.skip(1) =~= digits);
    assert(digits_value(seq!['-'], 0x7fff_ffff) is Err) by {
        assert(seq!['-'].drop_last() =~= Seq::empty());
        assert(seq!['-'].last() == '-');
        assert(digits_value(Seq::<char>::empty(), 0x7fff_ffff) == Ok::<int, NumberError>(0));
    }
}

/// Each hexadecimal digit stands for four bits, the lowest last.
pub proof fn law_hexadecimal_digits(n: nat, width: nat)
    requires
        width > 0,
    ensures
        hexadecimal(n, width).len() == width,
        hexadecimal(n, width).last() == "0123456789abcdef"@[(n % 16) as int],
        hexadecimal(n, width).drop_last() == hexadecimal(n / 16, (width - 1) as nat),
{
    law_hexadecimal_width(n, width);
    law_hexadecimal_width(n / 16, (width - 1) as nat);
    reveal_strlit("0123456789abcdef");
    assert(hexadecimal(n, width).drop_last() =~= hexadecimal(n / 16, (width - 1) as nat));
}

/// The white space of a terminal line is white space, and nothing that can be seen is.
pub proof fn law_white_space()
    ensures
        is_white(' ') && is_white('\t') && is_white('\n') && is_white('\r'),
        forall|c: char| '!' <= c <= '~' ==> !(#[trigger] is_white(c)),
{
}

/// A number below zero has a minus before the text of what it is below zero.
pub proof fn law_signed_decimal(n: int)
    ensures
        n >= 0 ==> signed_decimal(n) == decimal(n as nat),
        n < 0 ==> signed_decimal(n).len() > 0 && signed_decimal(n)[0] == '-' && signed_decimal(
            n,
        ).skip(1) == decimal((-n) as nat),
{
    if n < 0 {
        assert(signed_decimal(n).skip(1) =~= decimal((-n) as nat));
    }
}

/// The characters of strings are those of each of them, in order.
pub proof fn law_texts_are_those_of_the_strings(v: Seq<String>, i: int, s: Option<String>)
    ensures
        texts(v).len() == v.len(),
        0 <= i < v.len() ==> texts(v)[i] == v[i]@,
        opt_text(s) is Some <==> s is Some,
        s matches Some(text) ==> opt_text(s) == Some(text@),
{
}

} // verus!
