//! Parsing of the runtime-editable configuration fields: the core port as
//! a decimal number and the core address as dotted-quad IPv4 text.
//!
//! Both parsers are total: they state exactly which buffers they accept
//! and what value each accepted buffer denotes.

use vstd::prelude::*;
use crate::text::TextBuffer;

verus! {

/// An ASCII decimal digit.
pub open spec fn spec_is_digit(b: u8) -> bool {
    48 <= b <= 57
}

/// Every byte is an ASCII digit.
pub open spec fn spec_all_digits(s: Seq<u8>) -> bool {
    forall|i: int| 0 <= i < s.len() ==> spec_is_digit(#[trigger] s[i])
}

/// The decimal value of a digit run, most significant first.
pub open spec fn spec_decimal_value(s: Seq<u8>) -> int
    decreases s.len(),
{
    if s.len() == 0 {
        0
    } else {
        spec_decimal_value(s.drop_last()) * 10 + (s.last() - 48)
    }
}

/// A digit run denotes a non-negative value.
pub proof fn lemma_decimal_value_nonneg(s: Seq<u8>)
    requires
        spec_all_digits(s),
    ensures
        spec_decimal_value(s) >= 0,
    decreases s.len(),
{
    if s.len() > 0 {
        assert(spec_all_digits(s.drop_last())) by {
            assert(forall|i: int|
                0 <= i < s.len() - 1 ==> s.drop_last()[i] == #[trigger] s[i]);
        }
        lemma_decimal_value_nonneg(s.drop_last());
    }
}

/// Extending a digit run never shrinks its value: every prefix denotes at
/// most the whole.
pub proof fn lemma_decimal_prefix_le(s: Seq<u8>, i: int)
    requires
        spec_all_digits(s),
        0 <= i <= s.len(),
    ensures
        spec_decimal_value(s.take(i)) <= spec_decimal_value(s),
    decreases s.len() - i,
{
    if i < s.len() {
        assert(s.take(i + 1).drop_last() =~= s.take(i));
        assert(s.take(i + 1).last() == s[i]);
        assert(spec_all_digits(s.take(i))) by {
            assert(forall|j: int| 0 <= j < i ==> s.take(i)[j] == #[trigger] s[j]);
        }
        lemma_decimal_value_nonneg(s.take(i));
        assert(spec_decimal_value(s.take(i + 1)) >= spec_decimal_value(s.take(i)));
        lemma_decimal_prefix_le(s, i + 1);
    } else {
        assert(s.take(i) =~= s);
    }
}

/// The digit part of a decimal field: one leading `+` is tolerated, as the
/// usual integer parsers do.
pub open spec fn spec_digits_of(s: Seq<u8>) -> Seq<u8> {
    if s.len() > 0 && s[0] == 43 {
        s.drop_first()
    } else {
        s
    }
}

/// A buffer parses as a 16-bit port exactly when its digit part is a
/// non-empty digit run whose value fits.
pub open spec fn spec_parse_u16_ok(s: Seq<u8>) -> bool {
    let d = spec_digits_of(s);
    d.len() > 0 && spec_all_digits(d) && spec_decimal_value(d) <= u16::MAX
}

/// Parses a decimal 16-bit value, accepting exactly what
/// [`spec_parse_u16_ok`] describes.
pub fn parse_u16(b: &TextBuffer<32>) -> (r: Option<u16>)
    requires
        b.wf(),
    ensures
        (r is Some) <==> spec_parse_u16_ok(b@),
        r matches Some(v) ==> v == spec_decimal_value(spec_digits_of(b@)),
{
    let ghost d = spec_digits_of(b@);
    let n = b.len();
    let start: usize = if n > 0 && b.byte_at(0) == 43 {
        1
    } else {
        0
    };
    if n == start {
        return None;
    }
    let mut i: usize = start;
    let mut acc: u32 = 0;
    while i < n
        invariant
            b.wf(),
            n == b@.len(),
            start <= i <= n,
            start <= 1,
            n > start,
            d == spec_digits_of(b@),
            (start == 1) ==> (n > 0 && b@[0] == 43),
            (start == 0) ==> d == b@,
            (start == 1) ==> d == b@.drop_first(),
            acc <= 65535,
            spec_all_digits(d.take(i - start)),
            acc == spec_decimal_value(d.take(i - start)),
        decreases n - i,
    {
        let c = b.byte_at(i);
        proof {
            assert(d[i - start] == b@[i as int]);
        }
        if c < 48 || c > 57 {
            return None;
        }
        acc = acc * 10 + (c - 48) as u32;
        proof {
            assert(d.take(i - start + 1).drop_last() =~= d.take(i - start));
            assert(d.take(i - start + 1).last() == d[i - start]);
            assert(spec_all_digits(d.take(i - start + 1)));
        }
        if acc > 65535 {
            proof {
                if spec_all_digits(d) {
                    lemma_decimal_prefix_le(d, i - start + 1);
                }
            }
            return None;
        }
        i += 1;
    }
    proof {
        assert(d.take(n - start) =~= d);
    }
    Some(acc as u16)
}

/// One octet group of a dotted quad: a non-empty digit run whose value
/// fits one byte.
pub open spec fn spec_group_ok(g: Seq<u8>) -> bool {
    g.len() > 0 && spec_all_digits(g) && spec_decimal_value(g) <= 255
}

/// The three dots sit at `i < j < k`, and the four groups between them and
/// the ends are all valid octets.
pub open spec fn spec_ipv4_split_at(s: Seq<u8>, i: int, j: int, k: int) -> bool {
    &&& 0 <= i < j < k < s.len()
    &&& s[i] == 46
    &&& s[j] == 46
    &&& s[k] == 46
    &&& spec_group_ok(s.subrange(0, i))
    &&& spec_group_ok(s.subrange(i + 1, j))
    &&& spec_group_ok(s.subrange(j + 1, k))
    &&& spec_group_ok(s.subrange(k + 1, s.len() as int))
}

/// A buffer parses as an IPv4 address exactly when it splits as a dotted
/// quad somewhere.
pub open spec fn spec_ipv4_ok(s: Seq<u8>) -> bool {
    exists|i: int, j: int, k: int| spec_ipv4_split_at(s, i, j, k)
}

/// A maximal digit run from `from` ends exactly where a claimed group
/// bordered by a dot (or the end of the text) ends.
proof fn lemma_digit_run_stops_at_dot(s: Seq<u8>, from: int, end: int, stop: int)
    requires
        0 <= from <= end <= s.len(),
        spec_all_digits(s.subrange(from, end)),
        end == s.len() || !spec_is_digit(s[end]),
        from <= stop <= s.len(),
        spec_all_digits(s.subrange(from, stop)),
        stop == s.len() || s[stop] == 46,
    ensures
        end == stop,
{
    if stop < end {
        assert(s.subrange(from, end)[stop - from] == s[stop]);
    } else if end < stop {
        assert(s.subrange(from, stop)[end - from] == s[end]);
    }
}

/// Scans the maximal digit run starting at `from`: where it ends, whether
/// it forms a valid octet group, and that group's value.
fn scan_group(b: &TextBuffer<32>, from: usize) -> (r: (bool, u8, usize))
    requires
        b.wf(),
        from <= b@.len(),
    ensures
        ({
            let (ok, val, end) = r;
            &&& from <= end <= b@.len()
            &&& spec_all_digits(b@.subrange(from as int, end as int))
            &&& (end == b@.len() || !spec_is_digit(b@[end as int]))
            &&& (ok <==> spec_group_ok(b@.subrange(from as int, end as int)))
            &&& (ok ==> val == spec_decimal_value(b@.subrange(from as int, end as int)))
        }),
{
    let n = b.len();
    let mut i: usize = from;
    let mut acc: u16 = 0;
    let mut over: bool = false;
    while digit_at(b, i, n)
        invariant
            b.wf(),
            n == b@.len(),
            from <= i <= n,
            spec_all_digits(b@.subrange(from as int, i as int)),
            !over ==> acc <= 255 && acc == spec_decimal_value(
                b@.subrange(from as int, i as int),
            ),
            over ==> spec_decimal_value(b@.subrange(from as int, i as int)) > 255,
        decreases n - i,
    {
        let c = b.byte_at(i);
        proof {
            assert(b@.subrange(from as int, i as int + 1).drop_last() =~= b@.subrange(
                from as int,
                i as int,
            ));
            assert(b@.subrange(from as int, i as int + 1).last() == b@[i as int]);
            assert(spec_all_digits(b@.subrange(from as int, i as int + 1)));
        }
        if !over {
            let widened: u16 = acc * 10 + (c - 48) as u16;
            if widened > 255 {
                over = true;
            } else {
                acc = widened;
            }
        }
        i += 1;
    }
    let ok = !over && i > from;
    (ok, acc as u8, i)
}

/// Whether position `i` holds a digit; `n` is the buffer's length.
fn digit_at(b: &TextBuffer<32>, i: usize, n: usize) -> (r: bool)
    requires
        b.wf(),
        n == b@.len(),
    ensures
        r == (i < b@.len() && spec_is_digit(b@[i as int])),
{
    if i < n {
        let c = b.byte_at(i);
        48 <= c && c <= 57
    } else {
        false
    }
}

/// Parses dotted-quad IPv4 text, accepting exactly what [`spec_ipv4_ok`]
/// describes; the octets returned are the values of the four groups of the
/// split.
pub fn parse_ipv4(b: &TextBuffer<32>) -> (r: Option<[u8; 4]>)
    requires
        b.wf(),
    ensures
        (r is Some) <==> spec_ipv4_ok(b@),
        r matches Some(oct) ==> exists|i: int, j: int, k: int|
            spec_ipv4_split_at(b@, i, j, k) && oct@[0] == spec_decimal_value(
                b@.subrange(0, i),
            ) && oct@[1] == spec_decimal_value(b@.subrange(i + 1, j)) && oct@[2]
                == spec_decimal_value(b@.subrange(j + 1, k)) && oct@[3] == spec_decimal_value(
                b@.subrange(k + 1, b@.len() as int),
            ),
{
    let ghost s = b@;
    let n = b.len();
    let (ok0, v0, e0) = scan_group(b, 0);
    if !ok0 || e0 >= n || b.byte_at(e0) != 46 {
        proof {
            if spec_ipv4_ok(s) {
                let (i, j, k) = choose|i: int, j: int, k: int| spec_ipv4_split_at(s, i, j, k);
                lemma_digit_run_stops_at_dot(s, 0, e0 as int, i);
                assert(false);
            }
        }
        return None;
    }
    let (ok1, v1, e1) = scan_group(b, e0 + 1);
    if !ok1 || e1 >= n || b.byte_at(e1) != 46 {
        proof {
            if spec_ipv4_ok(s) {
                let (i, j, k) = choose|i: int, j: int, k: int| spec_ipv4_split_at(s, i, j, k);
                lemma_digit_run_stops_at_dot(s, 0, e0 as int, i);
                lemma_digit_run_stops_at_dot(s, e0 as int + 1, e1 as int, j);
                assert(false);
            }
        }
        return None;
    }
    let (ok2, v2, e2) = scan_group(b, e1 + 1);
    if !ok2 || e2 >= n || b.byte_at(e2) != 46 {
        proof {
            if spec_ipv4_ok(s) {
                let (i, j, k) = choose|i: int, j: int, k: int| spec_ipv4_split_at(s, i, j, k);
                lemma_digit_run_stops_at_dot(s, 0, e0 as int, i);
                lemma_digit_run_stops_at_dot(s, e0 as int + 1, e1 as int, j);
                lemma_digit_run_stops_at_dot(s, e1 as int + 1, e2 as int, k);
                assert(false);
            }
        }
        return None;
    }
    let (ok3, v3, e3) = scan_group(b, e2 + 1);
    if !ok3 || e3 < n {
        proof {
            if spec_ipv4_ok(s) {
                let (i, j, k) = choose|i: int, j: int, k: int| spec_ipv4_split_at(s, i, j, k);
                lemma_digit_run_stops_at_dot(s, 0, e0 as int, i);
                lemma_digit_run_stops_at_dot(s, e0 as int + 1, e1 as int, j);
                lemma_digit_run_stops_at_dot(s, e1 as int + 1, e2 as int, k);
                lemma_digit_run_stops_at_dot(s, e2 as int + 1, e3 as int, s.len() as int);
                assert(false);
            }
        }
        return None;
    }
    let r: [u8; 4] = [v0, v1, v2, v3];
    proof {
        assert(spec_ipv4_split_at(s, e0 as int, e1 as int, e2 as int));
        assert(r@[0] == v0 && r@[1] == v1 && r@[2] == v2 && r@[3] == v3);
    }
    Some(r)
}

} // verus!
