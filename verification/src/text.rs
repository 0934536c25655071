use vstd::prelude::*;

verus! {

/// `String::push` appends one character to the end of the string.
pub assume_specification[ String::push ](s: &mut String, c: char)
    ensures
        final(s)@ == old(s)@.push(c),
;

/// The characters of a string slice, in order.
pub fn chars_of(s: &str) -> (v: Vec<char>)
    ensures
        v@ == s@,
{
    let mut v: Vec<char> = Vec::new();
    for c in it: s.chars()
        invariant
            v@ == it.seq().take(it.index() as int),
            it.seq() == s@,
    {
        v.push(c);
    }
    v
}

/// The string made of the given characters, in order.
pub fn string_of(v: &Vec<char>) -> (s: String)
    ensures
        s@ == v@,
{
    let mut s = String::new();
    let mut i: usize = 0;
    while i < v.len()
        invariant
            i <= v.len(),
            s@ == v@.take(i as int),
        decreases v.len() - i,
    {
        s.push(v[i]);
        i += 1;
    }
    s
}

/// Whether two string slices hold the same characters.
#[verifier::loop_isolation(false)]
pub fn str_eq(a: &str, b: &str) -> (r: bool)
    ensures
        r == (a@ == b@),
{
    let x = chars_of(a);
    let y = chars_of(b);
    chars_eq(&x, &y)
}

/// Whether two character vectors hold the same characters.
#[verifier::loop_isolation(false)]
pub fn chars_eq(x: &Vec<char>, y: &Vec<char>) -> (r: bool)
    ensures
        r == (x@ == y@),
{
    if x.len() != y.len() {
        return false;
    }
    let mut i: usize = 0;
    while i < x.len()
        invariant
            i <= x.len(),
            forall|j: int| 0 <= j < i ==> x@[j] == y@[j],
        decreases x.len() - i,
    {
        if x[i] != y[i] {
            return false;
        }
        i += 1;
    }
    assert(x@ =~= y@);
    true
}

/// Appends all characters of `tail` to `out`.
pub fn push_chars(out: &mut Vec<char>, tail: &Vec<char>)
    ensures
        final(out)@ == old(out)@ + tail@,
{
    let mut i: usize = 0;
    while i < tail.len()
        invariant
            i <= tail.len(),
            out@ == old(out)@ + tail@.take(i as int),
        decreases tail.len() - i,
    {
        out.push(tail[i]);
        proof {
            assert(tail@.take(i as int + 1) =~= tail@.take(i as int).push(tail@[i as int]));
        }
        i += 1;
    }
    proof {
        assert(tail@.take(tail@.len() as int) =~= tail@);
    }
}

/// Appends all characters of the string slice `tail` to `out`.
pub fn push_str(out: &mut Vec<char>, tail: &str)
    ensures
        final(out)@ == old(out)@ + tail@,
{
    let t = chars_of(tail);
    push_chars(out, &t);
}

/// The characters of `v` from `from` up to, not including, `to`.
pub fn slice_chars(v: &Vec<char>, from: usize, to: usize) -> (r: Vec<char>)
    requires
        from <= to <= v.len(),
    ensures
        r@ == v@.subrange(from as int, to as int),
{
    let mut r: Vec<char> = Vec::new();
    let mut i: usize = from;
    while i < to
        invariant
            from <= i <= to <= v.len(),
            r@ == v@.subrange(from as int, i as int),
        decreases to - i,
    {
        r.push(v[i]);
        proof {
            assert(v@.subrange(from as int, i as int + 1) =~= v@.subrange(from as int, i as int).push(
                v@[i as int],
            ));
        }
        i += 1;
    }
    r
}

/// The decimal digit that stands for a number below ten.
pub open spec fn digit_char(d: nat) -> char {
    if d == 0 {
        '0'
    } else if d == 1 {
        '1'
    } else if d == 2 {
        '2'
    } else if d == 3 {
        '3'
    } else if d == 4 {
        '4'
    } else if d == 5 {
        '5'
    } else if d == 6 {
        '6'
    } else if d == 7 {
        '7'
    } else if d == 8 {
        '8'
    } else {
        '9'
    }
}

/// A number written in decimal, without sign or leading zeros.
pub open spec fn decimal(n: nat) -> Seq<char>
    decreases n,
{
    if n < 10 {
        seq![digit_char(n)]
    } else {
        decimal(n / 10).push(digit_char(n % 10))
    }
}

fn digit_of(d: u64) -> (c: char)
    requires
        d < 10,
    ensures
        c == digit_char(d as nat),
{
    if d == 0 {
        '0'
    } else if d == 1 {
        '1'
    } else if d == 2 {
        '2'
    } else if d == 3 {
        '3'
    } else if d == 4 {
        '4'
    } else if d == 5 {
        '5'
    } else if d == 6 {
        '6'
    } else if d == 7 {
        '7'
    } else if d == 8 {
        '8'
    } else {
        '9'
    }
}

/// Appends a number in decimal to `out`.
pub fn push_decimal(out: &mut Vec<char>, n: u64)
    ensures
        final(out)@ == old(out)@ + decimal(n as nat),
    decreases n,
{
    if n >= 10 {
        push_decimal(out, n / 10);
    }
    out.push(digit_of(n % 10));
    proof {
        if n >= 10 {
            assert(out@ =~= old(out)@ + decimal(n as nat));
        } else {
            assert(out@ =~= old(out)@ + decimal(n as nat));
        }
    }
}

/// Appends a number of up to 128 bits in decimal to `out`.
pub fn push_decimal_wide(out: &mut Vec<char>, n: u128)
    ensures
        final(out)@ == old(out)@ + decimal(n as nat),
    decreases n,
{
    if n >= 10 {
        push_decimal_wide(out, n / 10);
    }
    out.push(digit_of((n % 10) as u64));
    proof {
        assert(out@ =~= old(out)@ + decimal(n as nat));
    }
}

/// A number written in decimal.
pub fn decimal_string(n: u64) -> (s: String)
    ensures
        s@ == decimal(n as nat),
{
    let mut v: Vec<char> = Vec::new();
    push_decimal(&mut v, n);
    assert(v@ =~= decimal(n as nat));
    string_of(&v)
}

/// Whether a character is one of the ten decimal digits.
pub open spec fn is_digit(c: char) -> bool {
    48 <= c as u32 && c as u32 <= 57
}

/// The number that a decimal digit stands for.
pub open spec fn digit_value(c: char) -> nat {
    (c as u32 - 48) as nat
}

/// The number that a run of decimal digits stands for.
pub open spec fn digits_value(s: Seq<char>) -> nat
    decreases s.len(),
{
    if s.len() == 0 {
        0
    } else {
        digits_value(s.drop_last()) * 10 + digit_value(s.last())
    }
}

/// Whether every character of the text is a decimal digit.
pub open spec fn all_digits(s: Seq<char>) -> bool {
    forall|i: int| 0 <= i < s.len() ==> is_digit(#[trigger] s[i])
}

/// The number that a text stands for: decimal digits after an optional `+`,
/// with a value that fits in 64 bits. Any other text stands for no number.
pub open spec fn parsed_u64(s: Seq<char>) -> Option<u64> {
    let body = if s.len() > 0 && s[0] == '+' {
        s.skip(1)
    } else {
        s
    };
    if body.len() > 0 && all_digits(body) && digits_value(body) <= u64::MAX {
        Some(digits_value(body) as u64)
    } else {
        None
    }
}

proof fn digits_value_grows(s: Seq<char>, i: int)
    requires
        0 <= i <= s.len(),
    ensures
        digits_value(s.take(i)) <= digits_value(s),
    decreases s.len() - i,
{
    if i == s.len() {
        assert(s.take(i) =~= s);
    } else {
        digits_value_grows(s, i + 1);
        assert(s.take(i + 1).drop_last() =~= s.take(i));
    }
}

/// Reads a 64-bit number from decimal digits after an optional `+`.
#[verifier::loop_isolation(false)]
pub fn parse_u64_chars(v: &Vec<char>) -> (r: Option<u64>)
    ensures
        r == parsed_u64(v@),
{
    let start: usize = if v.len() > 0 && v[0] == '+' {
        1
    } else {
        0
    };
    if start == v.len() {
        return None;
    }
    let ghost body = v@.skip(start as int);
    proof {
        assert(v@.skip(0) =~= v@);
        assert(body.take(0) =~= Seq::<char>::empty());
    }
    let mut acc: u64 = 0;
    let mut i: usize = start;
    while i < v.len()
        invariant
            start <= i <= v.len(),
            body == v@.skip(start as int),
            all_digits(body.take(i - start)),
            acc == digits_value(body.take(i - start)),
        decreases v.len() - i,
    {
        let c = v[i];
        let code: u32 = c as u32;
        if code < 48 || code > 57 {
            proof {
                assert(body[i - start] == c);
                assert(!is_digit(body[i - start]));
                assert(!all_digits(body));
            }
            return None;
        }
        let d: u64 = (code - 48) as u64;
        proof {
            assert(body.take(i - start + 1).drop_last() =~= body.take(i - start));
            assert(body.take(i - start + 1).last() == c);
            assert(is_digit(c));
        }
        if acc > (u64::MAX - d) / 10 {
            proof {
                assert(digit_value(c) == d);
                assert(digits_value(body.take(i - start + 1)) == acc * 10 + d);
                assert(digits_value(body.take(i - start + 1)) > u64::MAX);
                digits_value_grows(body, i - start + 1);
            }
            return None;
        }
        acc = acc * 10 + d;
        i += 1;
    }
    proof {
        assert(body.take(i - start) =~= body);
    }
    Some(acc)
}

/// Reads a 64-bit number from a text.
pub fn parse_u64(s: &str) -> (r: Option<u64>)
    ensures
        r == parsed_u64(s@),
{
    let v = chars_of(s);
    parse_u64_chars(&v)
}

/// Whether a character is white space, as Unicode defines it.
#[verifier::opaque]
pub open spec fn is_space(c: char) -> bool {
    let n = c as u32;
    (9 <= n && n <= 13) || n == 32 || n == 133 || n == 160 || n == 5760 || (8192 <= n && n
        <= 8202) || n == 8232 || n == 8233 || n == 8239 || n == 8287 || n == 12288
}

/// Whether a character is white space.
pub fn is_whitespace(c: char) -> (r: bool)
    ensures
        r == is_space(c),
{
    reveal(is_space);
    let n: u32 = c as u32;
    (9 <= n && n <= 13) || n == 32 || n == 133 || n == 160 || n == 5760 || (8192 <= n && n
        <= 8202) || n == 8232 || n == 8233 || n == 8239 || n == 8287 || n == 12288
}

/// The text without its leading white space.
pub open spec fn trimmed_start(s: Seq<char>) -> Seq<char>
    decreases s.len(),
{
    if s.len() > 0 && is_space(s[0]) {
        trimmed_start(s.skip(1))
    } else {
        s
    }
}

/// The text without its trailing white space.
pub open spec fn trimmed_end(s: Seq<char>) -> Seq<char>
    decreases s.len(),
{
    if s.len() > 0 && is_space(s.last()) {
        trimmed_end(s.drop_last())
    } else {
        s
    }
}

/// The text without leading and trailing white space.
pub open spec fn trimmed(s: Seq<char>) -> Seq<char> {
    trimmed_end(trimmed_start(s))
}

/// The number of white-space characters at the start of `v`.
fn leading_space(v: &Vec<char>) -> (from: usize)
    ensures
        from <= v.len(),
        v@.skip(from as int) == trimmed_start(v@),
{
    let mut from: usize = 0;
    proof {
        assert(v@.skip(0) =~= v@);
    }
    while from < v.len() && is_whitespace(v[from])
        invariant
            from <= v.len(),
            trimmed_start(v@) == trimmed_start(v@.skip(from as int)),
        decreases v.len() - from,
    {
        proof {
            assert(v@.skip(from as int).skip(1) =~= v@.skip(from as int + 1));
            assert(v@.skip(from as int)[0] == v@[from as int]);
        }
        from += 1;
    }
    proof {
        if from < v.len() {
            assert(v@.skip(from as int)[0] == v@[from as int]);
        }
    }
    from
}

/// The end of `v` without its trailing white space, not before `from`.
fn trailing_space(v: &Vec<char>, from: usize) -> (to: usize)
    requires
        from <= v.len(),
    ensures
        from <= to <= v.len(),
        v@.subrange(from as int, to as int) == trimmed_end(v@.skip(from as int)),
{
    let ghost rest = v@.skip(from as int);
    let mut to: usize = v.len();
    proof {
        assert(rest.take(to - from) =~= rest);
    }
    while to > from && is_whitespace(v[to - 1])
        invariant
            from <= to <= v.len(),
            rest == v@.skip(from as int),
            trimmed_end(rest) == trimmed_end(rest.take(to - from)),
        decreases to,
    {
        proof {
            assert(rest.take(to - from).drop_last() =~= rest.take(to - from - 1));
            assert(rest.take(to - from).last() == v@[to - 1]);
        }
        to -= 1;
    }
    proof {
        if to > from {
            assert(rest.take(to - from).last() == v@[to - 1]);
        }
        assert(rest.take(to - from) =~= v@.subrange(from as int, to as int));
    }
    to
}

/// The text without leading and trailing white space.
pub fn trim_chars(v: &Vec<char>) -> (r: Vec<char>)
    ensures
        r@ == trimmed(v@),
{
    let from = leading_space(v);
    let to = trailing_space(v, from);
    slice_chars(v, from, to)
}

/// The text without leading and trailing white space.
pub fn trim(s: &str) -> (r: String)
    ensures
        r@ == trimmed(s@),
{
    let v = chars_of(s);
    let t = trim_chars(&v);
    string_of(&t)
}

/// Whether `s` begins with `p`.
pub open spec fn has_prefix(s: Seq<char>, p: Seq<char>) -> bool {
    p.len() <= s.len() && s.take(p.len() as int) == p
}

/// Whether `s` ends with `p`.
pub open spec fn has_suffix(s: Seq<char>, p: Seq<char>) -> bool {
    p.len() <= s.len() && s.skip(s.len() - p.len()) == p
}

/// Whether `pat` stands in `s` at position `i`.
pub open spec fn occurs_at(s: Seq<char>, pat: Seq<char>, i: int) -> bool {
    0 <= i && i + pat.len() <= s.len() && s.subrange(i, i + pat.len()) == pat
}

/// Whether `pat` stands in `v` at position `i`.
#[verifier::loop_isolation(false)]
pub fn matches_at(v: &Vec<char>, pat: &Vec<char>, i: usize) -> (r: bool)
    ensures
        r == occurs_at(v@, pat@, i as int),
{
    if pat.len() > v.len() || i > v.len() - pat.len() {
        return false;
    }
    let mut k: usize = 0;
    while k < pat.len()
        invariant
            k <= pat.len(),
            forall|j: int| 0 <= j < k ==> v@[i + j] == pat@[j],
        decreases pat.len() - k,
    {
        if v[i + k] != pat[k] {
            proof {
                assert(v@.subrange(i as int, i + pat.len())[k as int] == v@[i + k]);
            }
            return false;
        }
        k += 1;
    }
    proof {
        assert(v@.subrange(i as int, i + pat.len()) =~= pat@);
    }
    true
}

/// Whether `v` begins with `p`.
pub fn starts_with_chars(v: &Vec<char>, p: &Vec<char>) -> (r: bool)
    ensures
        r == has_prefix(v@, p@),
{
    let r = matches_at(v, p, 0);
    proof {
        if p.len() <= v.len() {
            assert(v@.take(p.len() as int) =~= v@.subrange(0, 0 + p.len()));
        }
    }
    r
}

/// Whether `v` ends with `p`.
pub fn ends_with_chars(v: &Vec<char>, p: &Vec<char>) -> (r: bool)
    ensures
        r == has_suffix(v@, p@),
{
    if p.len() > v.len() {
        return false;
    }
    let at = v.len() - p.len();
    let r = matches_at(v, p, at);
    proof {
        assert(v@.skip(at as int) =~= v@.subrange(at as int, at + p.len()));
    }
    r
}

/// Whether the text `s` begins with `p`.
pub fn starts_with(s: &str, p: &str) -> (r: bool)
    ensures
        r == has_prefix(s@, p@),
{
    let v = chars_of(s);
    let q = chars_of(p);
    starts_with_chars(&v, &q)
}

/// Whether the text `s` ends with `p`.
pub fn ends_with(s: &str, p: &str) -> (r: bool)
    ensures
        r == has_suffix(s@, p@),
{
    let v = chars_of(s);
    let q = chars_of(p);
    ends_with_chars(&v, &q)
}

/// The position of the first `c` in `s`, or the length of `s` where it holds none.
pub open spec fn index_of(s: Seq<char>, c: char) -> int
    decreases s.len(),
{
    if s.len() == 0 {
        0
    } else if s[0] == c {
        0
    } else {
        1 + index_of(s.skip(1), c)
    }
}

/// `index_of` is the least position that holds `c`.
pub proof fn index_of_is_first(s: Seq<char>, c: char)
    ensures
        0 <= index_of(s, c) <= s.len(),
        index_of(s, c) < s.len() ==> s[index_of(s, c)] == c,
        forall|j: int| 0 <= j < index_of(s, c) ==> s[j] != c,
    decreases s.len(),
{
    if s.len() > 0 && s[0] != c {
        index_of_is_first(s.skip(1), c);
        assert forall|j: int| 0 <= j < index_of(s, c) implies s[j] != c by {
            if j > 0 {
                assert(s.skip(1)[j - 1] == s[j]);
            }
        }
    }
}

/// A position at or before which no `c` stands, with `c` or the end at it, is `index_of`.
pub proof fn index_of_unique(s: Seq<char>, c: char, i: int)
    requires
        0 <= i <= s.len(),
        i < s.len() ==> s[i] == c,
        forall|j: int| 0 <= j < i ==> s[j] != c,
    ensures
        index_of(s, c) == i,
{
    index_of_is_first(s, c);
    let k = index_of(s, c);
    if k < i {
        assert(s[k] != c);
    } else if i < k {
        assert(s[i] != c);
    }
}

/// The position of the first `c` at or after `from`, or the length of `v`.
pub fn find_char(v: &Vec<char>, c: char, from: usize) -> (r: usize)
    requires
        from <= v.len(),
    ensures
        r == from + index_of(v@.skip(from as int), c),
        from <= r <= v.len(),
{
    let mut i: usize = from;
    while i < v.len() && v[i] != c
        invariant
            from <= i <= v.len(),
            forall|j: int| from <= j < i ==> v@[j] != c,
        decreases v.len() - i,
    {
        i += 1;
    }
    proof {
        let rest = v@.skip(from as int);
        assert forall|j: int| 0 <= j < i - from implies rest[j] != c by {
            assert(rest[j] == v@[from + j]);
        }
        index_of_unique(rest, c, i - from);
    }
    i
}

/// The line without one carriage return at its end.
pub open spec fn without_cr(s: Seq<char>) -> Seq<char> {
    if s.len() > 0 && s.last() == '\r' {
        s.drop_last()
    } else {
        s
    }
}

/// The lines of a text. A line ends at a line feed, or at the end of the
/// text; a carriage return before the line feed belongs to the line ending.
pub open spec fn lines_of(s: Seq<char>) -> Seq<Seq<char>>
    decreases s.len(),
{
    if s.len() == 0 {
        Seq::empty()
    } else {
        let i = index_of(s, '\n');
        if 0 <= i < s.len() {
            seq![without_cr(s.take(i))] + lines_of(s.skip(i + 1))
        } else {
            seq![s]
        }
    }
}

/// The views of a run of character vectors.
pub open spec fn rows_of(rows: Seq<Vec<char>>) -> Seq<Seq<char>> {
    rows.map_values(|r: Vec<char>| r@)
}

/// The lines of a text.
pub fn split_lines(v: &Vec<char>) -> (r: Vec<Vec<char>>)
    ensures
        rows_of(r@) == lines_of(v@),
{
    let mut r: Vec<Vec<char>> = Vec::new();
    let mut pos: usize = 0;
    proof {
        assert(v@.skip(0) =~= v@);
        assert(rows_of(r@) =~= Seq::<Seq<char>>::empty());
    }
    while pos < v.len()
        invariant
            pos <= v.len(),
            lines_of(v@) == rows_of(r@) + lines_of(v@.skip(pos as int)),
        decreases v.len() - pos,
    {
        let ghost rest = v@.skip(pos as int);
        let ghost before = r@;
        let end = find_char(v, '\n', pos);
        proof {
            index_of_is_first(rest, '\n');
        }
        if end < v.len() {
            let stop = if end > pos && v[end - 1] == '\r' {
                end - 1
            } else {
                end
            };
            let line = slice_chars(v, pos, stop);
            r.push(line);
            proof {
                assert(rest.take(end - pos) =~= v@.subrange(pos as int, end as int));
                assert(without_cr(rest.take(end - pos)) =~= line@);
                assert(rest.skip(end - pos + 1) =~= v@.skip(end as int + 1));
                assert(rows_of(r@) =~= rows_of(before).push(line@));
                assert(lines_of(rest) == seq![line@] + lines_of(v@.skip(end as int + 1)));
                assert(rows_of(before) + (seq![line@] + lines_of(v@.skip(end as int + 1)))
                    =~= rows_of(r@) + lines_of(v@.skip(end as int + 1)));
            }
            pos = end + 1;
        } else {
            let line = slice_chars(v, pos, v.len());
            r.push(line);
            proof {
                assert(line@ =~= rest);
                assert(rows_of(r@) =~= rows_of(before).push(line@));
                assert(v@.skip(v@.len() as int) =~= Seq::<char>::empty());
                assert(lines_of(rest) =~= seq![rest]);
                assert(rows_of(before) + seq![rest] =~= rows_of(r@) + lines_of(
                    v@.skip(v@.len() as int),
                ));
            }
            pos = v.len();
        }
    }
    proof {
        assert(v@.skip(pos as int) =~= Seq::<char>::empty());
        assert(rows_of(r@) + Seq::<Seq<char>>::empty() =~= rows_of(r@));
    }
    r
}

/// The pieces of a text between the occurrences of a separator. A text
/// without the separator is one piece; a separator at the end leaves an
/// empty last piece.
pub open spec fn pieces(s: Seq<char>, sep: char) -> Seq<Seq<char>>
    decreases s.len(),
{
    let i = index_of(s, sep);
    if 0 <= i < s.len() {
        seq![s.take(i)] + pieces(s.skip(i + 1), sep)
    } else {
        seq![s]
    }
}

/// The pieces of a text between the occurrences of a separator.
pub fn split_chars(v: &Vec<char>, sep: char) -> (r: Vec<Vec<char>>)
    ensures
        rows_of(r@) == pieces(v@, sep),
        r@.len() >= 1,
{
    let mut r: Vec<Vec<char>> = Vec::new();
    let mut pos: usize = 0;
    let mut done = false;
    proof {
        assert(v@.skip(0) =~= v@);
        assert(rows_of(r@) =~= Seq::<Seq<char>>::empty());
    }
    while !done
        invariant
            pos <= v.len(),
            !done ==> pieces(v@, sep) == rows_of(r@) + pieces(v@.skip(pos as int), sep),
            done ==> pieces(v@, sep) == rows_of(r@) && r@.len() >= 1,
        decreases (if done { 0 } else { 1 + v.len() - pos }),
    {
        let ghost rest = v@.skip(pos as int);
        let ghost before = r@;
        let end = find_char(v, sep, pos);
        proof {
            index_of_is_first(rest, sep);
        }
        let piece = slice_chars(v, pos, end);
        r.push(piece);
        proof {
            assert(rest.take(end - pos) =~= v@.subrange(pos as int, end as int));
            assert(rows_of(r@) =~= rows_of(before).push(piece@));
        }
        if end < v.len() {
            proof {
                assert(rest.skip(end - pos + 1) =~= v@.skip(end as int + 1));
                assert(rows_of(before) + (seq![piece@] + pieces(v@.skip(end as int + 1), sep))
                    =~= rows_of(r@) + pieces(v@.skip(end as int + 1), sep));
            }
            pos = end + 1;
        } else {
            proof {
                assert(piece@ =~= rest);
                assert(rows_of(before) + seq![rest] =~= rows_of(r@));
            }
            done = true;
        }
    }
    r
}

/// The last position at or before `i` at which `pat` stands in `s`, or -1.
pub open spec fn last_at_or_before(s: Seq<char>, pat: Seq<char>, i: int) -> int
    decreases i + 1,
{
    if i < 0 {
        -1
    } else if occurs_at(s, pat, i) {
        i
    } else {
        last_at_or_before(s, pat, i - 1)
    }
}

/// The last position at which `pat` stands in `s`, or -1 where it stands nowhere.
pub open spec fn last_occurrence(s: Seq<char>, pat: Seq<char>) -> int {
    last_at_or_before(s, pat, s.len() - pat.len())
}

/// The last position at which `pat` stands in `v`.
#[verifier::loop_isolation(false)]
pub fn find_last(v: &Vec<char>, pat: &Vec<char>) -> (r: Option<usize>)
    ensures
        r matches Some(i) ==> last_occurrence(v@, pat@) == i,
        r is None ==> last_occurrence(v@, pat@) == -1,
{
    if pat.len() > v.len() {
        return None;
    }
    let mut i: usize = v.len() - pat.len();
    loop
        invariant
            i <= v.len() - pat.len(),
            last_occurrence(v@, pat@) == last_at_or_before(v@, pat@, i as int),
        decreases i,
    {
        if matches_at(v, pat, i) {
            return Some(i);
        }
        if i == 0 {
            proof {
                assert(last_at_or_before(v@, pat@, -1) == -1);
            }
            return None;
        }
        i -= 1;
    }
}

/// The last position at which `pat` stands in `s` is one at which it stands,
/// and it stands at none after it.
pub proof fn last_occurrence_is_last(s: Seq<char>, pat: Seq<char>)
    ensures
        last_occurrence(s, pat) >= 0 ==> occurs_at(s, pat, last_occurrence(s, pat)),
        forall|j: int| j > last_occurrence(s, pat) ==> !occurs_at(s, pat, j),
        last_occurrence(s, pat) >= -1,
{
    last_at_or_before_is_last(s, pat, s.len() - pat.len());
}

proof fn last_at_or_before_is_last(s: Seq<char>, pat: Seq<char>, i: int)
    ensures
        last_at_or_before(s, pat, i) >= 0 ==> occurs_at(s, pat, last_at_or_before(s, pat, i)),
        forall|j: int| last_at_or_before(s, pat, i) < j <= i ==> !occurs_at(s, pat, j),
        -1 <= last_at_or_before(s, pat, i),
        last_at_or_before(s, pat, i) <= i || i < -1,
    decreases i + 1,
{
    if i >= 0 && !occurs_at(s, pat, i) {
        last_at_or_before_is_last(s, pat, i - 1);
    }
}

/// A text with every character in lower case, as Unicode defines it.
pub uninterp spec fn lowercased(s: Seq<char>) -> Seq<char>;

/// `str::to_lowercase`: the lower-case form of a text.
#[verifier::external_body]
pub(crate) fn to_lowercase(s: &str) -> (r: String)
    ensures
        r@ == lowercased(s@),
{
    s.to_lowercase()
}

} // verus!
