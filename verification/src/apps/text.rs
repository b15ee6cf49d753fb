//! Command-line text: splitting a line into words and comparing words.
use vstd::prelude::*;

use crate::services::Ipv4Address;

verus! {

/// ASCII white space as `char::is_ascii_whitespace` defines it: space,
/// horizontal tab, line feed, form feed and carriage return.
pub open spec fn is_ascii_ws(c: char) -> bool {
    c == ' ' || c == '\t' || c == '\n' || c == '\u{000C}' || c == '\r'
}

/// Scanning the first `i` characters of `s`: the words completed so far and
/// the word being read.
pub open spec fn split_state(s: Seq<char>, i: int) -> (Seq<Seq<char>>, Seq<char>)
    decreases i,
{
    if i <= 0 {
        (Seq::empty(), Seq::empty())
    } else {
        let prev = split_state(s, i - 1);
        if is_ascii_ws(s[i - 1]) {
            if prev.1.len() > 0 {
                (prev.0.push(prev.1), Seq::empty())
            } else {
                (prev.0, Seq::empty())
            }
        } else {
            (prev.0, prev.1.push(s[i - 1]))
        }
    }
}

/// The words of `s`: its maximal runs of characters that are not ASCII
/// white space, in order.
pub open spec fn ascii_words(s: Seq<char>) -> Seq<Seq<char>> {
    let st = split_state(s, s.len() as int);
    if st.1.len() > 0 {
        st.0.push(st.1)
    } else {
        st.0
    }
}

/// The character views of a list of string slices.
pub open spec fn str_views(v: Seq<&str>) -> Seq<Seq<char>> {
    v.map_values(|x: &str| x@)
}

/// Whether `c` is ASCII white space.
pub fn is_ascii_whitespace(c: char) -> (r: bool)
    ensures
        r == is_ascii_ws(c),
{
    c == ' ' || c == '\t' || c == '\n' || c == '\u{000C}' || c == '\r'
}

/// Splits a command line into its words, as `str::split_ascii_whitespace`
/// does.
pub fn split_words<'a>(line: &'a str) -> (w: Vec<&'a str>)
    ensures
        str_views(w@) == ascii_words(line@),
{
    let n = line.unicode_len();
    let mut words: Vec<&'a str> = Vec::new();
    let mut start: usize = 0;
    let mut i: usize = 0;
    while i < n
        invariant
            n == line@.len(),
            start <= i <= n,
            split_state(line@, i as int).0 == str_views(words@),
            split_state(line@, i as int).1 == line@.subrange(start as int, i as int),
        decreases n - i,
    {
        let c = line.get_char(i);
        let ghost prev = split_state(line@, i as int);
        if is_ascii_whitespace(c) {
            if start < i {
                let word = line.substring_char(start, i);
                proof {
                    assert(str_views(words@.push(word)) =~= str_views(words@).push(word@));
                }
                words.push(word);
            }
            start = i + 1;
            assert(split_state(line@, (i + 1) as int).1 =~= line@.subrange(
                start as int,
                (i + 1) as int,
            ));
        } else {
            assert(line@.subrange(start as int, (i + 1) as int) =~= line@.subrange(
                start as int,
                i as int,
            ).push(c));
        }
        i += 1;
    }
    if start < n {
        let word = line.substring_char(start, n);
        proof {
            assert(str_views(words@.push(word)) =~= str_views(words@).push(word@));
        }
        words.push(word);
    }
    words
}

/// Whether two strings hold the same characters.
pub fn str_eq(a: &str, b: &str) -> (r: bool)
    ensures
        r == (a@ == b@),
{
    let n = a.unicode_len();
    if n != b.unicode_len() {
        return false;
    }
    let mut i: usize = 0;
    while i < n
        invariant
            n == a@.len(),
            n == b@.len(),
            i <= n,
            forall|j: int| 0 <= j < i ==> a@[j] == b@[j],
        decreases n - i,
    {
        if a.get_char(i) != b.get_char(i) {
            return false;
        }
        i += 1;
    }
    assert(a@ =~= b@);
    true
}

/// A word: non-empty, with no white space in it.
pub open spec fn is_word(w: Seq<char>) -> bool {
    w.len() > 0 && forall|j: int| 0 <= j < w.len() ==> !is_ascii_ws(#[trigger] w[j])
}

/// Every word of a line is non-empty and holds no white space.
pub proof fn lemma_words_are_clean(s: Seq<char>)
    ensures
        forall|k: int| 0 <= k < ascii_words(s).len() ==> is_word(#[trigger] ascii_words(s)[k]),
{
    lemma_split_state_clean(s, s.len() as int);
    let st = split_state(s, s.len() as int);
    if st.1.len() > 0 {
        assert(is_word(st.1));
        assert forall|k: int| 0 <= k < st.0.push(st.1).len() implies is_word(
            #[trigger] st.0.push(st.1)[k],
        ) by {
            if k < st.0.len() {
                assert(st.0.push(st.1)[k] == st.0[k]);
            }
        }
    }
}

proof fn lemma_split_state_clean(s: Seq<char>, i: int)
    requires
        0 <= i <= s.len(),
    ensures
        forall|k: int| 0 <= k < split_state(s, i).0.len() ==> is_word(#[trigger] split_state(s, i).0[k]),
        forall|j: int| 0 <= j < split_state(s, i).1.len() ==> !is_ascii_ws(#[trigger] split_state(s, i).1[j]),
    decreases i,
{
    if i > 0 {
        lemma_split_state_clean(s, i - 1);
        let prev = split_state(s, i - 1);
        let cur = split_state(s, i);
        if is_ascii_ws(s[i - 1]) {
            if prev.1.len() > 0 {
                assert(is_word(prev.1));
                assert forall|k: int| 0 <= k < cur.0.len() implies is_word(#[trigger] cur.0[k]) by {
                    if k < prev.0.len() {
                        assert(cur.0[k] == prev.0[k]);
                    }
                }
            }
        } else {
            assert forall|j: int| 0 <= j < cur.1.len() implies !is_ascii_ws(#[trigger] cur.1[j]) by {
                if j < prev.1.len() {
                    assert(cur.1[j] == prev.1[j]);
                }
            }
        }
    }
}


/// An ASCII decimal digit.
pub open spec fn is_digit(c: char) -> bool {
    '0' <= c && c <= '9'
}

/// Whether every character of `s` is a decimal digit.
pub open spec fn all_digits(s: Seq<char>) -> bool {
    forall|i: int| 0 <= i < s.len() ==> is_digit(#[trigger] s[i])
}

/// The value of a run of decimal digits.
pub open spec fn dec_value(s: Seq<char>) -> nat
    decreases s.len(),
{
    if s.len() == 0 {
        0
    } else {
        dec_value(s.drop_last()) * 10 + ((s.last() as u32) - 48) as nat
    }
}

/// A 16-bit unsigned number as `u16::from_str` reads it: an optional `+`,
/// then one or more decimal digits whose value fits.
pub open spec fn parse_u16_spec(s: Seq<char>) -> Option<u16> {
    let d = if s.len() > 0 && s[0] == '+' {
        s.drop_first()
    } else {
        s
    };
    if d.len() > 0 && all_digits(d) && dec_value(d) <= 65535 {
        Some(dec_value(d) as u16)
    } else {
        None
    }
}

/// Extending a run of digits never lowers its value.
proof fn lemma_dec_value_prefix(d: Seq<char>, k: int)
    requires
        0 <= k <= d.len(),
        all_digits(d),
    ensures
        dec_value(d.subrange(0, k)) <= dec_value(d),
    decreases d.len() - k,
{
    if k < d.len() {
        lemma_dec_value_prefix(d, k + 1);
        let p = d.subrange(0, k + 1);
        assert(p.drop_last() =~= d.subrange(0, k));
        assert(is_digit(d[k]));
    } else {
        assert(d.subrange(0, k) =~= d);
    }
}

/// Whether `c` is a decimal digit.
pub fn is_dec_digit(c: char) -> (r: bool)
    ensures
        r == is_digit(c),
{
    '0' <= c && c <= '9'
}

/// Reads a run of digits `s[start..]` whose value is at most `max`.
fn digits_value(s: &str, start: usize, max: u32) -> (r: Option<u32>)
    requires
        start <= s@.len(),
        max <= 65535,
    ensures
        ({
            let d = s@.subrange(start as int, s@.len() as int);
            match r {
                Some(v) => all_digits(d) && v == dec_value(d) && v <= max,
                None => !(all_digits(d) && dec_value(d) <= max),
            }
        }),
{
    let n = s.unicode_len();
    let ghost d = s@.subrange(start as int, n as int);
    let mut acc: u32 = 0;
    let mut i: usize = start;
    while i < n
        invariant
            n == s@.len(),
            start <= i <= n,
            max <= 65535,
            d == s@.subrange(start as int, n as int),
            acc <= max,
            acc == dec_value(d.subrange(0, i - start)),
            all_digits(d.subrange(0, i - start)),
        decreases n - i,
    {
        let c = s.get_char(i);
        assert(d[i - start] == c);
        if !is_dec_digit(c) {
            return None;
        }
        let ghost p = d.subrange(0, i - start + 1);
        assert(p.drop_last() =~= d.subrange(0, i - start));
        acc = acc * 10 + ((c as u32) - 48);
        if acc > max {
            proof {
                assert forall|j: int| 0 <= j < p.len() implies is_digit(#[trigger] p[j]) by {
                    if j < p.len() - 1 {
                        assert(p[j] == d.subrange(0, i - start)[j]);
                    }
                }
                if all_digits(d) {
                    lemma_dec_value_prefix(d, i - start + 1);
                }
            }
            return None;
        }
        assert forall|j: int| 0 <= j < p.len() implies is_digit(#[trigger] p[j]) by {
            if j < p.len() - 1 {
                assert(p[j] == d.subrange(0, i - start)[j]);
            }
        }
        i += 1;
    }
    assert(d.subrange(0, n - start) =~= d);
    Some(acc)
}

/// Reads a 16-bit unsigned number, as `u16::from_str` does.
pub fn parse_u16(s: &str) -> (r: Option<u16>)
    ensures
        r == parse_u16_spec(s@),
{
    let n = s.unicode_len();
    let start: usize = if n > 0 && s.get_char(0) == '+' {
        1
    } else {
        0
    };
    let ghost d = if s@.len() > 0 && s@[0] == '+' {
        s@.drop_first()
    } else {
        s@
    };
    assert(d =~= s@.subrange(start as int, n as int));
    if start == n {
        return None;
    }
    match digits_value(s, start, 65535) {
        Some(v) => Some(v as u16),
        None => None,
    }
}

/// Scanning the first `i` characters of `s` for dot-separated fields: the
/// fields completed so far and the one being read.
pub open spec fn dot_state(s: Seq<char>, i: int) -> (Seq<Seq<char>>, Seq<char>)
    decreases i,
{
    if i <= 0 {
        (Seq::empty(), Seq::empty())
    } else {
        let prev = dot_state(s, i - 1);
        if s[i - 1] == '.' {
            (prev.0.push(prev.1), Seq::empty())
        } else {
            (prev.0, prev.1.push(s[i - 1]))
        }
    }
}

/// The dot-separated fields of `s`, empty ones included.
pub open spec fn dot_fields(s: Seq<char>) -> Seq<Seq<char>> {
    let st = dot_state(s, s.len() as int);
    st.0.push(st.1)
}

/// One octet of a dotted IPv4 address: one to three digits, no leading
/// zero, a value below 256.
pub open spec fn octet_spec(f: Seq<char>) -> Option<u8> {
    if 1 <= f.len() <= 3 && all_digits(f) && !(f.len() > 1 && f[0] == '0') && dec_value(f) <= 255 {
        Some(dec_value(f) as u8)
    } else {
        None
    }
}

/// A dotted IPv4 address as `Ipv4Addr::from_str` reads it: exactly four
/// octets.
pub open spec fn parse_ipv4_spec(s: Seq<char>) -> Option<Ipv4Address> {
    let f = dot_fields(s);
    if f.len() == 4 && octet_spec(f[0]) is Some && octet_spec(f[1]) is Some && octet_spec(
        f[2],
    ) is Some && octet_spec(f[3]) is Some {
        Some(
            Ipv4Address(
                octet_spec(f[0])->0,
                octet_spec(f[1])->0,
                octet_spec(f[2])->0,
                octet_spec(f[3])->0,
            ),
        )
    } else {
        None
    }
}

/// Splits `s` at each dot.
pub fn split_dots<'a>(s: &'a str) -> (w: Vec<&'a str>)
    ensures
        str_views(w@) == dot_fields(s@),
{
    let n = s.unicode_len();
    let mut fields: Vec<&'a str> = Vec::new();
    let mut start: usize = 0;
    let mut i: usize = 0;
    while i < n
        invariant
            n == s@.len(),
            start <= i <= n,
            dot_state(s@, i as int).0 == str_views(fields@),
            dot_state(s@, i as int).1 == s@.subrange(start as int, i as int),
        decreases n - i,
    {
        let c = s.get_char(i);
        if c == '.' {
            let f = s.substring_char(start, i);
            proof {
                assert(str_views(fields@.push(f)) =~= str_views(fields@).push(f@));
            }
            fields.push(f);
            start = i + 1;
            assert(dot_state(s@, (i + 1) as int).1 =~= s@.subrange(start as int, (i + 1) as int));
        } else {
            assert(s@.subrange(start as int, (i + 1) as int) =~= s@.subrange(
                start as int,
                i as int,
            ).push(c));
        }
        i += 1;
    }
    let f = s.substring_char(start, n);
    proof {
        assert(str_views(fields@.push(f)) =~= str_views(fields@).push(f@));
    }
    fields.push(f);
    fields
}

/// Reads one octet of a dotted address.
pub fn parse_octet(f: &str) -> (r: Option<u8>)
    ensures
        r == octet_spec(f@),
{
    let n = f.unicode_len();
    if n == 0 || n > 3 {
        return None;
    }
    if n > 1 && f.get_char(0) == '0' {
        return None;
    }
    assert(f@.subrange(0, n as int) =~= f@);
    match digits_value(f, 0, 255) {
        Some(v) => Some(v as u8),
        None => None,
    }
}

/// Reads a dotted IPv4 address, as `Ipv4Addr::from_str` does.
pub fn parse_ipv4(s: &str) -> (r: Option<Ipv4Address>)
    ensures
        r == parse_ipv4_spec(s@),
{
    let fields = split_dots(s);
    if fields.len() != 4 {
        return None;
    }
    assert(fields[0]@ == dot_fields(s@)[0]);
    assert(fields[1]@ == dot_fields(s@)[1]);
    assert(fields[2]@ == dot_fields(s@)[2]);
    assert(fields[3]@ == dot_fields(s@)[3]);
    let a = parse_octet(fields[0]);
    let b = parse_octet(fields[1]);
    let c = parse_octet(fields[2]);
    let d = parse_octet(fields[3]);
    match (a, b, c, d) {
        (Some(a), Some(b), Some(c), Some(d)) => Some(Ipv4Address(a, b, c, d)),
        _ => None,
    }
}

} // verus!
