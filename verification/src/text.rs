//! Text utilities used to build messages and to read identifiers out of strings.
use vstd::prelude::*;
use vstd::string::*;

verus! {

/// The character that writes the decimal digit `d` (`0 <= d < 10`).
pub open spec fn digit_char(d: nat) -> char {
    if d == 0 { '0' }
    else if d == 1 { '1' }
    else if d == 2 { '2' }
    else if d == 3 { '3' }
    else if d == 4 { '4' }
    else if d == 5 { '5' }
    else if d == 6 { '6' }
    else if d == 7 { '7' }
    else if d == 8 { '8' }
    else { '9' }
}

/// Decimal notation of a natural number, most significant digit first, without leading zeros.
pub open spec fn nat_to_decimal(n: nat) -> Seq<char>
    decreases n,
{
    if n < 10 {
        seq![digit_char(n)]
    } else {
        nat_to_decimal(n / 10).push(digit_char(n % 10))
    }
}

/// Decimal notation of an integer, as Rust's `Display` writes it: a minus sign for negative values.
pub open spec fn int_to_decimal(i: int) -> Seq<char> {
    if i < 0 {
        seq!['-'] + nat_to_decimal((-i) as nat)
    } else {
        nat_to_decimal(i as nat)
    }
}

fn digit_str(d: u64) -> (s: &'static str)
    requires
        d < 10,
    ensures
        s@ == seq![digit_char(d as nat)],
{
    proof {
        reveal_strlit("0");
        reveal_strlit("1");
        reveal_strlit("2");
        reveal_strlit("3");
        reveal_strlit("4");
        reveal_strlit("5");
        reveal_strlit("6");
        reveal_strlit("7");
        reveal_strlit("8");
        reveal_strlit("9");
    }
    if d == 0 { "0" }
    else if d == 1 { "1" }
    else if d == 2 { "2" }
    else if d == 3 { "3" }
    else if d == 4 { "4" }
    else if d == 5 { "5" }
    else if d == 6 { "6" }
    else if d == 7 { "7" }
    else if d == 8 { "8" }
    else { "9" }
}

fn append_digits(s: &mut String, n: u64)
    ensures
        final(s)@ == old(s)@ + nat_to_decimal(n as nat),
    decreases n,
{
    if n >= 10 {
        append_digits(s, n / 10);
    }
    s.append(digit_str(n % 10));
    proof {
        if n >= 10 {
            assert(nat_to_decimal(n as nat) == nat_to_decimal((n / 10) as nat).push(digit_char((n % 10) as nat)));
        }
    }
}

/// Writes an `i64` in decimal, as `format!("{}", i)` does.
pub fn i64_to_string(i: i64) -> (s: String)
    ensures
        s@ == int_to_decimal(i as int),
{
    let mut s = String::new();
    if i < 0 {
        proof {
            reveal_strlit("-");
        }
        s.append("-");
        let magnitude: u64 = (-(i as i128)) as u64;
        append_digits(&mut s, magnitude);
    } else {
        append_digits(&mut s, i as u64);
    }
    s
}

/// Writes an `i32` in decimal, as `format!("{}", i)` does.
pub fn i32_to_string(i: i32) -> (s: String)
    ensures
        s@ == int_to_decimal(i as int),
{
    i64_to_string(i as i64)
}

/// `a`, then `b`, then `c`, as one string.
pub fn concat3(a: &str, b: &str, c: &str) -> (s: String)
    ensures
        s@ == a@ + b@ + c@,
{
    let mut s = a.to_owned();
    s.append(b);
    s.append(c);
    s
}

/// `prefix`, the decimal form of `n`, then `suffix`.
pub fn with_number(prefix: &str, n: i64, suffix: &str) -> (s: String)
    ensures
        s@ == prefix@ + int_to_decimal(n as int) + suffix@,
{
    let digits = i64_to_string(n);
    concat3(prefix, digits.as_str(), suffix)
}

/// `a` followed by `b`.
pub fn concat2(a: &str, b: &str) -> (s: String)
    ensures
        s@ == a@ + b@,
{
    let mut s = a.to_owned();
    s.append(b);
    s
}

/// The characters of a string slice, in order.
pub fn chars_of(s: &str) -> (v: Vec<char>)
    ensures
        v@ == s@,
{
    let n = s.unicode_len();
    let mut v: Vec<char> = Vec::new();
    let mut i: usize = 0;
    while i < n
        invariant
            n == s@.len(),
            i <= n,
            v@ == s@.take(i as int),
        decreases n - i,
    {
        v.push(s.get_char(i));
        assert(s@.take(i + 1) == s@.take(i as int).push(s@[i as int]));
        i = i + 1;
    }
    assert(s@.take(n as int) == s@);
    v
}

/// Two string slices hold the same characters.
pub fn str_eq(a: &str, b: &str) -> (r: bool)
    ensures
        r == (a@ == b@),
{
    let va = chars_of(a);
    let vb = chars_of(b);
    if va.len() != vb.len() {
        return false;
    }
    let mut i: usize = 0;
    while i < va.len()
        invariant
            va@ == a@,
            vb@ == b@,
            va.len() == vb.len(),
            i <= va.len(),
            forall|j: int| 0 <= j < i ==> va@[j] == vb@[j],
        decreases va.len() - i,
    {
        if va[i] != vb[i] {
            return false;
        }
        i = i + 1;
    }
    assert(va@ =~= vb@);
    true
}

/// `needle` occurs in `hay` at position `i`.
pub open spec fn occurs_at(hay: Seq<char>, needle: Seq<char>, i: int) -> bool {
    0 <= i && i + needle.len() <= hay.len() && hay.subrange(i, i + needle.len()) == needle
}

/// `needle` occurs somewhere in `hay` (the empty needle occurs in every string).
pub open spec fn has_substring(hay: Seq<char>, needle: Seq<char>) -> bool {
    exists|i: int| occurs_at(hay, needle, i)
}

fn matches_at(hay: &Vec<char>, needle: &Vec<char>, i: usize) -> (r: bool)
    requires
        i + needle@.len() <= hay@.len(),
    ensures
        r == occurs_at(hay@, needle@, i as int),
{
    let hl = hay.len();
    let mut j: usize = 0;
    while j < needle.len()
        invariant
            hl == hay@.len(),
            i + needle@.len() <= hay@.len(),
            j <= needle@.len(),
            forall|k: int| 0 <= k < j ==> hay@[i + k] == needle@[k],
        decreases needle.len() - j,
    {
        if hay[i + j] != needle[j] {
            assert(hay@.subrange(i as int, i + needle@.len())[j as int] != needle@[j as int]);
            return false;
        }
        j = j + 1;
    }
    assert(hay@.subrange(i as int, i + needle@.len()) =~= needle@);
    true
}

/// Whether `needle` occurs in `hay`, as `str::contains` with a `&str` pattern answers.
pub fn str_contains(hay: &str, needle: &str) -> (r: bool)
    ensures
        r == has_substring(hay@, needle@),
{
    let h = chars_of(hay);
    let n = chars_of(needle);
    if n.len() > h.len() {
        assert forall|i: int| !occurs_at(hay@, needle@, i) by {}
        return false;
    }
    let last = h.len() - n.len();
    let mut i: usize = 0;
    loop
        invariant
            h@ == hay@,
            n@ == needle@,
            last == h@.len() - n@.len(),
            n@.len() <= h@.len(),
            i <= last,
            forall|k: int| 0 <= k < i ==> !occurs_at(hay@, needle@, k),
        decreases last - i,
    {
        if matches_at(&h, &n, i) {
            return true;
        }
        if i == last {
            assert forall|k: int| !occurs_at(hay@, needle@, k) by {
                if 0 <= k < i {
                }
            }
            return false;
        }
        i = i + 1;
    }
}

/// The pieces of `s` between occurrences of `sep`, as `str::split` with a `char` pattern yields
/// them: the empty string gives one empty piece, and a trailing separator a trailing empty piece.
pub open spec fn split_on(s: Seq<char>, sep: char) -> Seq<Seq<char>>
    decreases s.len(),
{
    if s.len() == 0 {
        seq![Seq::<char>::empty()]
    } else {
        let prev = split_on(s.drop_last(), sep);
        if s.last() == sep {
            prev.push(Seq::<char>::empty())
        } else {
            prev.update(prev.len() - 1, prev.last().push(s.last()))
        }
    }
}

pub proof fn lemma_split_on_nonempty(s: Seq<char>, sep: char)
    ensures
        split_on(s, sep).len() >= 1,
    decreases s.len(),
{
    if s.len() > 0 {
        lemma_split_on_nonempty(s.drop_last(), sep);
    }
}

/// Splits `s` at every occurrence of `sep`.
pub fn split_char(s: &str, sep: char) -> (parts: Vec<String>)
    ensures
        parts.deep_view() == split_on(s@, sep),
{
    let v = chars_of(s);
    let n = v.len();
    let mut parts: Vec<String> = Vec::new();
    let mut start: usize = 0;
    let mut i: usize = 0;
    assert(s@.take(0) =~= Seq::<char>::empty());
    assert(s@.subrange(0, 0) =~= Seq::<char>::empty());
    assert(parts.deep_view().push(s@.subrange(0, 0)) =~= seq![Seq::<char>::empty()]);
    while i < n
        invariant
            v@ == s@,
            n == s@.len(),
            start <= i <= n,
            split_on(s@.take(i as int), sep) == parts.deep_view().push(s@.subrange(start as int, i as int)),
        decreases n - i,
    {
        let ghost before = s@.take(i as int);
        let ghost after = s@.take(i + 1);
        assert(after.drop_last() =~= before);
        assert(after.last() == s@[i as int]);
        if v[i] == sep {
            let piece = s.substring_char(start, i).to_owned();
            let ghost old_parts = parts.deep_view();
            parts.push(piece);
            assert(parts.deep_view() =~= old_parts.push(s@.subrange(start as int, i as int)));
            start = i + 1;
            assert(s@.subrange(start as int, i + 1) =~= Seq::<char>::empty());
        } else {
            assert(s@.subrange(start as int, i + 1) =~= s@.subrange(start as int, i as int).push(s@[i as int]));
        }
        i = i + 1;
    }
    assert(s@.take(n as int) =~= s@);
    let last_piece = s.substring_char(start, n).to_owned();
    let ghost old_parts = parts.deep_view();
    parts.push(last_piece);
    assert(parts.deep_view() =~= old_parts.push(s@.subrange(start as int, n as int)));
    parts
}

/// The pieces of `list` separated by `sep`.
pub open spec fn seq_join(list: Seq<Seq<char>>, sep: Seq<char>) -> Seq<char>
    decreases list.len(),
{
    if list.len() == 0 {
        Seq::<char>::empty()
    } else if list.len() == 1 {
        list[0]
    } else {
        seq_join(list.drop_last(), sep) + sep + list.last()
    }
}

/// Joins the strings of `list` with `sep` between them, as `[String]::join` does.
pub fn join_strings(list: &Vec<String>, sep: &str) -> (r: String)
    ensures
        r@ == seq_join(list.deep_view(), sep@),
{
    let mut r = String::new();
    let mut i: usize = 0;
    while i < list.len()
        invariant
            i <= list.len(),
            r@ == seq_join(list.deep_view().take(i as int), sep@),
        decreases list.len() - i,
    {
        assert(list.deep_view().take(i + 1).drop_last() =~= list.deep_view().take(i as int));
        if i != 0 {
            r.append(sep);
        } else {
            assert(list.deep_view().take(1) =~= seq![list[0]@]);
        }
        r.append(list[i].as_str());
        i = i + 1;
    }
    assert(list.deep_view().take(list.len() as int) =~= list.deep_view());
    r
}

/// What `str::to_lowercase` returns for a string: each character mapped to its Unicode
/// lowercase form.
pub uninterp spec fn lowercase(s: Seq<char>) -> Seq<char>;

/// Calls `str::to_lowercase`. Its result is named by `lowercase`; nothing more is stated
/// (the Unicode case tables are not written out here).
#[verifier::external_body]
pub(crate) fn to_lowercase(s: &str) -> (r: String)
    ensures
        r@ == lowercase(s@),
{
    s.to_lowercase()
}

/// The text of an optional string.
pub open spec fn opt_text(o: Option<String>) -> Option<Seq<char>> {
    match o {
        Some(s) => Some(s@),
        None => None,
    }
}

/// The lowercase text of an optional string.
pub open spec fn opt_lowercase(o: Option<String>) -> Option<Seq<char>> {
    match o {
        Some(s) => Some(lowercase(s@)),
        None => None,
    }
}

/// Lowercases an optional string.
pub fn lowercase_option(o: &Option<String>) -> (r: Option<String>)
    ensures
        opt_text(r) == opt_lowercase(*o),
{
    match o {
        Some(s) => Some(to_lowercase(s.as_str())),
        None => None,
    }
}

/// `c` is one of the ASCII digits `0`..`9`.
pub open spec fn is_digit(c: char) -> bool {
    '0' <= c && c <= '9'
}

/// Value of the ASCII digit `c`.
pub open spec fn digit_value(c: char) -> nat {
    (c as int - '0' as int) as nat
}

/// Value of a sequence of decimal digits (the empty sequence is worth 0).
pub open spec fn digits_value(s: Seq<char>) -> nat
    decreases s.len(),
{
    if s.len() == 0 {
        0
    } else {
        digits_value(s.drop_last()) * 10 + digit_value(s.last())
    }
}

/// The digits part of a number: what follows a leading `+`, if there is one.
pub open spec fn unsigned_digits(s: Seq<char>) -> Seq<char> {
    if s.len() > 0 && s[0] == '+' { s.drop_first() } else { s }
}

/// Every character of `d` is a decimal digit.
pub open spec fn all_digits(d: Seq<char>) -> bool {
    forall|i: int| 0 <= i < d.len() ==> is_digit(#[trigger] d[i])
}

/// What `str::parse::<u32>` accepts and returns: an optional `+`, then at least one decimal
/// digit and nothing else, with a value that fits in a `u32`.
pub open spec fn spec_parse_u32(s: Seq<char>) -> Option<u32> {
    let d = unsigned_digits(s);
    if d.len() > 0 && all_digits(d) && digits_value(d) <= u32::MAX {
        Some(digits_value(d) as u32)
    } else {
        None
    }
}

/// Parses a decimal `u32` the way `str::parse::<u32>` does; `None` where it returns an error.
pub fn parse_u32(s: &str) -> (r: Option<u32>)
    ensures
        r == spec_parse_u32(s@),
{
    let v = chars_of(s);
    let mut i: usize = 0;
    if v.len() > 0 && v[0] == '+' {
        i = 1;
    }
    let ghost d = unsigned_digits(s@);
    let first = i;
    assert(d =~= s@.subrange(first as int, s@.len() as int));
    if first >= v.len() {
        assert(d.len() == 0);
        return None;
    }
    let mut acc: u64 = 0;
    let mut overflow = false;
    assert(d.take(0) =~= Seq::<char>::empty());
    while i < v.len()
        invariant
            v@ == s@,
            first <= i <= v@.len(),
            first == 0 || first == 1,
            d == s@.subrange(first as int, s@.len() as int),
            d == unsigned_digits(s@),
            forall|k: int| 0 <= k < i - first ==> is_digit(#[trigger] d[k]),
            !overflow ==> acc == digits_value(d.take(i - first)) && acc <= u32::MAX,
            overflow ==> digits_value(d.take(i - first)) > u32::MAX,
        decreases v.len() - i,
    {
        let c = v[i];
        let ghost k = i - first;
        assert(d[k] == c);
        if c < '0' || c > '9' {
            assert(0 <= k < d.len());
            assert(!is_digit(d[k]));
            assert(!all_digits(d));
            return None;
        }
        let dv: u64 = ((c as u32) - ('0' as u32)) as u64;
        assert(d.take(k + 1).drop_last() =~= d.take(k));
        assert(d.take(k + 1).last() == c);
        assert(digits_value(d.take(k + 1)) == digits_value(d.take(k)) * 10 + dv);
        if !overflow {
            acc = acc * 10 + dv;
            if acc > 4294967295u64 {
                overflow = true;
            }
        }
        i = i + 1;
    }
    assert(d.take(d.len() as int) =~= d);
    assert(all_digits(d));
    if overflow {
        None
    } else {
        Some(acc as u32)
    }
}

} // verus!
