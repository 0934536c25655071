use crate::text::{
    chars_of, is_digit, parse_u64_chars, parsed_u64, pieces, rows_of, slice_chars, split_chars,
    str_eq, string_of,
};
use std::cmp::Ordering;
use versions::Versioning;
use vstd::prelude::*;

verus! {

/// A parsed version of the `versions` crate, opaque to the verifier.
#[verifier::external_type_specification]
#[verifier::external_body]
pub struct ExVersioning(Versioning);

/// The version that a text parses to; none where it is no version at all.
pub uninterp spec fn parsed_version(s: Seq<char>) -> Option<Versioning>;

/// Whether the first version is older than the second.
pub uninterp spec fn version_precedes(a: Versioning, b: Versioning) -> bool;

/// Whether two versions are the same.
pub uninterp spec fn version_equals(a: Versioning, b: Versioning) -> bool;

/// `Versioning::new`: parses a text as a version.
#[verifier::external_body]
pub(crate) fn parse_version(s: &str) -> (r: Option<Versioning>)
    ensures
        r == parsed_version(s@),
{
    Versioning::new(s)
}

/// `Versioning::lt`: whether the first version orders before the second.
#[verifier::external_body]
pub(crate) fn version_lt(a: &Versioning, b: &Versioning) -> (r: bool)
    ensures
        r == version_precedes(*a, *b),
{
    a.lt(b)
}

/// `Versioning::eq`: whether two versions are equal.
#[verifier::external_body]
pub(crate) fn version_eq(a: &Versioning, b: &Versioning) -> (r: bool)
    ensures
        r == version_equals(*a, *b),
{
    a.eq(b)
}

/// How the version on offer stands to the installed one.
#[derive(Clone, Copy, Debug, PartialEq, Eq, Structural)]
pub enum VersionRelation {
    /// Both are versions, and the one on offer is newer.
    Newer,
    /// Both are versions, and they are the same.
    Same,
    /// Both are versions, and the one on offer is older.
    Older,
    /// Only the one on offer is a version.
    OnlyCandidate,
    /// Only the installed one is a version.
    OnlyInstalled,
    /// Neither is a version.
    Neither,
}

/// How the parsed version on offer stands to the parsed installed one.
pub open spec fn relation_of(installed: Option<Versioning>, candidate: Option<Versioning>) -> VersionRelation {
    match (installed, candidate) {
        (Some(i), Some(c)) => if version_precedes(i, c) {
            VersionRelation::Newer
        } else if version_equals(i, c) {
            VersionRelation::Same
        } else {
            VersionRelation::Older
        },
        (None, Some(_)) => VersionRelation::OnlyCandidate,
        (Some(_), None) => VersionRelation::OnlyInstalled,
        (None, None) => VersionRelation::Neither,
    }
}

/// How the version text on offer stands to the installed one.
pub open spec fn version_relation(installed: Seq<char>, candidate: Seq<char>) -> VersionRelation {
    relation_of(parsed_version(installed), parsed_version(candidate))
}

/// Parses both version texts and tells how they stand to each other.
pub fn relate_versions(installed: &str, candidate: &str) -> (r: VersionRelation)
    ensures
        r == version_relation(installed@, candidate@),
{
    let i = parse_version(installed);
    let c = parse_version(candidate);
    match (&i, &c) {
        (Some(iv), Some(cv)) => {
            if version_lt(iv, cv) {
                VersionRelation::Newer
            } else if version_eq(iv, cv) {
                VersionRelation::Same
            } else {
                VersionRelation::Older
            }
        },
        (None, Some(_)) => VersionRelation::OnlyCandidate,
        (Some(_), None) => VersionRelation::OnlyInstalled,
        (None, None) => VersionRelation::Neither,
    }
}

/// Whether the first text stands before the second in dictionary order of
/// their characters.
pub open spec fn text_precedes(a: Seq<char>, b: Seq<char>) -> bool
    decreases a.len(),
{
    if b.len() == 0 {
        false
    } else if a.len() == 0 {
        true
    } else if (a[0] as u32) < (b[0] as u32) {
        true
    } else if (a[0] as u32) > (b[0] as u32) {
        false
    } else {
        text_precedes(a.skip(1), b.skip(1))
    }
}

/// The first ten characters of a text, or all of it where it is shorter.
pub open spec fn day_of(date: Seq<char>) -> Seq<char> {
    if date.len() > 10 {
        date.take(10)
    } else {
        date
    }
}

/// Whether the date on offer is later than the installed one: both are
/// given, and the day on offer stands after the installed day.
pub open spec fn date_newer(installed_date: Seq<char>, available_date: Seq<char>) -> bool {
    installed_date.len() > 0 && available_date.len() > 0 && text_precedes(
        day_of(installed_date),
        day_of(available_date),
    )
}

fn chars_precede(a: &Vec<char>, b: &Vec<char>) -> (r: bool)
    ensures
        r == text_precedes(a@, b@),
{
    let mut i: usize = 0;
    proof {
        assert(a@.skip(0) =~= a@);
        assert(b@.skip(0) =~= b@);
    }
    loop
        invariant
            i <= a.len(),
            i <= b.len(),
            text_precedes(a@, b@) == text_precedes(a@.skip(i as int), b@.skip(i as int)),
        decreases a.len() - i,
    {
        if i >= b.len() {
            return false;
        }
        if i >= a.len() {
            return true;
        }
        let x: u32 = a[i] as u32;
        let y: u32 = b[i] as u32;
        proof {
            assert(a@.skip(i as int)[0] == a@[i as int]);
            assert(b@.skip(i as int)[0] == b@[i as int]);
            assert(a@.skip(i as int).skip(1) =~= a@.skip(i as int + 1));
            assert(b@.skip(i as int).skip(1) =~= b@.skip(i as int + 1));
        }
        if x < y {
            return true;
        }
        if x > y {
            return false;
        }
        i += 1;
    }
}

/// Returns true if `available_date` is strictly newer than `installed_date`.
pub fn is_date_newer(installed_date: &str, available_date: &str) -> (r: bool)
    ensures
        r == date_newer(installed_date@, available_date@),
{
    let a = chars_of(installed_date);
    let b = chars_of(available_date);
    if a.len() == 0 || b.len() == 0 {
        return false;
    }
    let a_end = if a.len() > 10 {
        10
    } else {
        a.len()
    };
    let b_end = if b.len() > 10 {
        10
    } else {
        b.len()
    };
    let x = slice_chars(&a, 0, a_end);
    let y = slice_chars(&b, 0, b_end);
    proof {
        assert(x@ =~= day_of(a@));
        assert(y@ =~= day_of(b@));
    }
    chars_precede(&x, &y)
}

/// Whether an update is due, given how the versions stand to each other.
///
/// A newer version is an update. The same version is one where the date on
/// offer is later. An older version is none. Where only the version on offer
/// is a version, it is an update. Where neither is a version, two different
/// texts that are both given are an update. In every other case the dates decide.
pub open spec fn update_due(
    relation: VersionRelation,
    installed_version: Seq<char>,
    available_version: Seq<char>,
    installed_date: Seq<char>,
    available_date: Seq<char>,
) -> bool {
    match relation {
        VersionRelation::Newer => true,
        VersionRelation::Same => date_newer(installed_date, available_date),
        VersionRelation::Older => false,
        VersionRelation::OnlyCandidate => true,
        VersionRelation::Neither => (installed_version.len() > 0 && available_version.len() > 0
            && installed_version != available_version) || date_newer(
            installed_date,
            available_date,
        ),
        VersionRelation::OnlyInstalled => date_newer(installed_date, available_date),
    }
}

/// Whether the catalog offers an update for what is installed.
pub open spec fn update_available(
    installed_version: Seq<char>,
    available_version: Seq<char>,
    installed_date: Seq<char>,
    available_date: Seq<char>,
) -> bool {
    update_due(
        version_relation(installed_version, available_version),
        installed_version,
        available_version,
        installed_date,
        available_date,
    )
}

/// Decides whether an update is due, given how the versions stand to each other.
pub fn update_predicate(
    relation: VersionRelation,
    installed_version: &str,
    available_version: &str,
    installed_date: &str,
    available_date: &str,
) -> (r: bool)
    ensures
        r == update_due(
            relation,
            installed_version@,
            available_version@,
            installed_date@,
            available_date@,
        ),
{
    match relation {
        VersionRelation::Newer => true,
        VersionRelation::Same => is_date_newer(installed_date, available_date),
        VersionRelation::Older => false,
        VersionRelation::OnlyCandidate => true,
        VersionRelation::Neither => {
            if installed_version.unicode_len() > 0 && available_version.unicode_len() > 0
                && !str_eq(installed_version, available_version) {
                true
            } else {
                is_date_newer(installed_date, available_date)
            }
        },
        VersionRelation::OnlyInstalled => is_date_newer(installed_date, available_date),
    }
}

/// Returns true if there's an update based on version or date.
pub fn is_update_available_with_date(
    installed_version: &str,
    available_version: &str,
    installed_date: &str,
    available_date: &str,
) -> (r: bool)
    ensures
        r == update_available(
            installed_version@,
            available_version@,
            installed_date@,
            available_date@,
        ),
{
    let relation = relate_versions(installed_version, available_version);
    update_predicate(
        relation,
        installed_version,
        available_version,
        installed_date,
        available_date,
    )
}

/// A version with every character that is no digit turned into a dot, runs
/// of dots collapsed into one and leading dots dropped.
pub open spec fn collapsed(s: Seq<char>) -> Seq<char>
    decreases s.len(),
{
    if s.len() == 0 {
        Seq::empty()
    } else if is_digit(s.last()) {
        collapsed(s.drop_last()).push(s.last())
    } else if s.len() == 1 || !is_digit(s[s.len() - 2]) {
        collapsed(s.drop_last())
    } else {
        collapsed(s.drop_last()).push('.')
    }
}

/// A text without the dots at its end.
pub open spec fn without_trailing_dots(s: Seq<char>) -> Seq<char>
    decreases s.len(),
{
    if s.len() > 0 && s.last() == '.' {
        without_trailing_dots(s.drop_last())
    } else {
        s
    }
}

/// The normal form of a version: its runs of digits, joined by single dots.
pub open spec fn normalized(s: Seq<char>) -> Seq<char> {
    without_trailing_dots(collapsed(s))
}

/// Normalizes a version string for comparison: everything that is no digit
/// counts as a dot, consecutive dots collapse into one, and dots at either
/// end are dropped.
pub fn normalize(version: &str) -> (r: String)
    ensures
        r@ == normalized(version@),
{
    let v = chars_of(version);
    let mut out: Vec<char> = Vec::new();
    let mut prev_dot = true;
    let mut i: usize = 0;
    proof {
        assert(v@.take(0) =~= Seq::<char>::empty());
    }
    while i < v.len()
        invariant
            i <= v.len(),
            out@ == collapsed(v@.take(i as int)),
            prev_dot == (i == 0 || !is_digit(v@[i - 1])),
        decreases v.len() - i,
    {
        proof {
            assert(v@.take(i as int + 1).drop_last() =~= v@.take(i as int));
            assert(v@.take(i as int + 1).last() == v@[i as int]);
            if i > 0 {
                assert(v@.take(i as int + 1)[i - 1] == v@[i - 1]);
            }
        }
        let c = v[i];
        let code: u32 = c as u32;
        if 48 <= code && code <= 57 {
            out.push(c);
            prev_dot = false;
        } else {
            if !prev_dot {
                out.push('.');
            }
            prev_dot = true;
        }
        i += 1;
    }
    proof {
        assert(v@.take(i as int) =~= v@);
    }
    let mut n: usize = out.len();
    proof {
        assert(out@.take(n as int) =~= out@);
    }
    while n > 0 && out[n - 1] == '.'
        invariant
            n <= out.len(),
            without_trailing_dots(out@) == without_trailing_dots(out@.take(n as int)),
        decreases n,
    {
        proof {
            assert(out@.take(n as int).drop_last() =~= out@.take(n - 1));
        }
        n -= 1;
    }
    let r = slice_chars(&out, 0, n);
    proof {
        assert(r@ =~= out@.take(n as int));
    }
    string_of(&r)
}

/// The numbers among a run of texts, in order; a text that is no number
/// that fits in 64 bits is passed over.
pub open spec fn numbers_in(parts: Seq<Seq<char>>) -> Seq<u64>
    decreases parts.len(),
{
    if parts.len() == 0 {
        Seq::empty()
    } else {
        match parsed_u64(parts.last()) {
            Some(n) => numbers_in(parts.drop_last()).push(n),
            None => numbers_in(parts.drop_last()),
        }
    }
}

/// The numbers of a version: those between the dots of its normal form.
pub open spec fn version_numbers(version: Seq<char>) -> Seq<u64> {
    numbers_in(pieces(normalized(version), '.'))
}

/// The number at a position of a version, zero beyond its end.
pub open spec fn number_at(v: Seq<u64>, i: int) -> u64 {
    if 0 <= i < v.len() {
        v[i]
    } else {
        0
    }
}

/// How two runs of numbers compare from position `i` on: -1 where the
/// first is less at the first position at which they differ, 1 where it is
/// greater, 0 where they agree everywhere. A run counts as zero beyond its end.
pub open spec fn order_from(a: Seq<u64>, b: Seq<u64>, i: int) -> int
    decreases
        (if a.len() > b.len() {
            a.len()
        } else {
            b.len()
        }) - i,
{
    if i < 0 || (i >= a.len() && i >= b.len()) {
        0
    } else if number_at(a, i) < number_at(b, i) {
        -1
    } else if number_at(a, i) > number_at(b, i) {
        1
    } else {
        order_from(a, b, i + 1)
    }
}

/// How two versions compare by their numbers.
pub open spec fn version_order(v1: Seq<char>, v2: Seq<char>) -> int {
    order_from(version_numbers(v1), version_numbers(v2), 0)
}

/// The numbers of a version.
pub fn numbers_of(version: &str) -> (r: Vec<u64>)
    ensures
        r@ == version_numbers(version@),
{
    let n = normalize(version);
    let v = chars_of(n.as_str());
    let parts = split_chars(&v, '.');
    let ghost all = rows_of(parts@);
    let mut r: Vec<u64> = Vec::new();
    let mut i: usize = 0;
    proof {
        assert(all.take(0) =~= Seq::<Seq<char>>::empty());
    }
    while i < parts.len()
        invariant
            i <= parts.len(),
            all == rows_of(parts@),
            r@ == numbers_in(all.take(i as int)),
        decreases parts.len() - i,
    {
        proof {
            assert(all.take(i as int + 1).drop_last() =~= all.take(i as int));
            assert(all.take(i as int + 1).last() == parts@[i as int]@);
        }
        match parse_u64_chars(&parts[i]) {
            Some(n) => {
                r.push(n);
            },
            None => {},
        }
        i += 1;
    }
    proof {
        assert(all.take(i as int) =~= all);
    }
    r
}

/// How two runs of numbers compare: -1, 0 or 1.
pub fn order_of(a: &Vec<u64>, b: &Vec<u64>) -> (r: i8)
    ensures
        r == order_from(a@, b@, 0),
{
    let max_len = if a.len() > b.len() {
        a.len()
    } else {
        b.len()
    };
    let mut i: usize = 0;
    while i < max_len
        invariant
            i <= max_len,
            max_len == (if a.len() > b.len() {
                a.len()
            } else {
                b.len()
            }),
            order_from(a@, b@, 0) == order_from(a@, b@, i as int),
        decreases max_len - i,
    {
        let left: u64 = if i < a.len() {
            a[i]
        } else {
            0
        };
        let right: u64 = if i < b.len() {
            b[i]
        } else {
            0
        };
        if left < right {
            return -1;
        }
        if left > right {
            return 1;
        }
        i += 1;
    }
    0
}

/// Compares two version strings by their numbers. The result is `Less`
/// where the first is older than the second.
pub fn compare(v1: &str, v2: &str) -> (r: Ordering)
    ensures
        r is Less == (version_order(v1@, v2@) == -1),
        r is Equal == (version_order(v1@, v2@) == 0),
        r is Greater == (version_order(v1@, v2@) == 1),
{
    let a = numbers_of(v1);
    let b = numbers_of(v2);
    let o = order_of(&a, &b);
    proof {
        order_is_a_sign(a@, b@, 0);
    }
    if o < 0 {
        Ordering::Less
    } else if o == 0 {
        Ordering::Equal
    } else {
        Ordering::Greater
    }
}

/// The order of two runs of numbers is -1, 0 or 1.
pub proof fn order_is_a_sign(a: Seq<u64>, b: Seq<u64>, i: int)
    ensures
        order_from(a, b, i) == -1 || order_from(a, b, i) == 0 || order_from(a, b, i) == 1,
    decreases
        (if a.len() > b.len() {
            a.len()
        } else {
            b.len()
        }) - i,
{
    if !(i < 0 || (i >= a.len() && i >= b.len())) && number_at(a, i) == number_at(b, i) {
        order_is_a_sign(a, b, i + 1);
    }
}

/// Returns true if `available` is newer than `installed` by its numbers.
pub fn is_update_available(installed: &str, available: &str) -> (r: bool)
    ensures
        r == (version_order(installed@, available@) == -1),
{
    let a = numbers_of(installed);
    let b = numbers_of(available);
    proof {
        order_is_a_sign(a@, b@, 0);
    }
    order_of(&a, &b) < 0
}

/// A run of numbers is of the same order as itself.
pub proof fn order_is_reflexive(a: Seq<u64>, i: int)
    ensures
        order_from(a, a, i) == 0,
    decreases a.len() - i,
{
    if !(i < 0 || i >= a.len()) {
        order_is_reflexive(a, i + 1);
    }
}

/// The order of two runs of numbers turns round with the runs.
pub proof fn order_is_antisymmetric(a: Seq<u64>, b: Seq<u64>, i: int)
    ensures
        order_from(a, b, i) == -order_from(b, a, i),
    decreases
        (if a.len() > b.len() {
            a.len()
        } else {
            b.len()
        }) - i,
{
    if !(i < 0 || (i >= a.len() && i >= b.len())) && number_at(a, i) == number_at(b, i) {
        order_is_antisymmetric(a, b, i + 1);
    }
}

/// The normal form of a version holds digits and dots alone, and neither
/// begins nor ends with a dot, nor holds two dots in a row.
pub proof fn normalized_is_clean(s: Seq<char>)
    ensures
        forall|i: int|
            0 <= i < normalized(s).len() ==> is_digit(#[trigger] normalized(s)[i]) || normalized(
                s,
            )[i] == '.',
        normalized(s).len() > 0 ==> normalized(s)[0] != '.' && normalized(s).last() != '.',
        forall|i: int|
            0 <= i < normalized(s).len() - 1 ==> !(#[trigger] normalized(s)[i] == '.' && normalized(
                s,
            )[i + 1] == '.'),
{
    collapsed_is_clean(s);
    trailing_dots_are_gone(collapsed(s));
    let c = collapsed(s);
    let n = normalized(s);
    trimmed_is_a_prefix(c);
}

proof fn collapsed_is_clean(s: Seq<char>)
    ensures
        forall|i: int|
            0 <= i < collapsed(s).len() ==> is_digit(#[trigger] collapsed(s)[i]) || collapsed(s)[i]
                == '.',
        collapsed(s).len() > 0 ==> collapsed(s)[0] != '.',
        forall|i: int|
            0 <= i < collapsed(s).len() - 1 ==> !(#[trigger] collapsed(s)[i] == '.' && collapsed(
                s,
            )[i + 1] == '.'),
        collapsed(s).len() > 0 && collapsed(s).last() == '.' ==> s.len() > 0 && !is_digit(s.last()),
        s.len() > 0 && is_digit(s.last()) ==> collapsed(s).len() > 0 && collapsed(s).last()
            == s.last(),
    decreases s.len(),
{
    assert(!is_digit('.'));
    if s.len() > 0 {
        collapsed_is_clean(s.drop_last());
        let before = collapsed(s.drop_last());
        if is_digit(s.last()) {
            assert(collapsed(s) =~= before.push(s.last()));
        } else if s.len() == 1 || !is_digit(s[s.len() - 2]) {
            assert(collapsed(s) =~= before);
        } else {
            assert(s.drop_last().last() == s[s.len() - 2]);
            assert(collapsed(s) =~= before.push('.'));
            assert(before.len() > 0 && before.last() == s[s.len() - 2]);
        }
    }
}

proof fn trailing_dots_are_gone(c: Seq<char>)
    ensures
        without_trailing_dots(c).len() > 0 ==> without_trailing_dots(c).last() != '.',
    decreases c.len(),
{
    if c.len() > 0 && c.last() == '.' {
        trailing_dots_are_gone(c.drop_last());
    }
}

proof fn trimmed_is_a_prefix(c: Seq<char>)
    ensures
        without_trailing_dots(c).len() <= c.len(),
        without_trailing_dots(c) == c.take(without_trailing_dots(c).len() as int),
    decreases c.len(),
{
    if c.len() > 0 && c.last() == '.' {
        trimmed_is_a_prefix(c.drop_last());
        let t = without_trailing_dots(c);
        assert(c.drop_last().take(t.len() as int) =~= c.take(t.len() as int));
    } else {
        assert(c.take(c.len() as int) =~= c);
    }
}

} // verus!
