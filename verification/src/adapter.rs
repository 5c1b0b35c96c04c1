use vstd::prelude::*;
use vstd::slice::{slice_index_get, slice_subrange};
use crate::digits::{all_digits, digits_value, spec_parse_usize, parse_usize};

verus! {

/// True when the two-byte marker `(#` starts at position `i` of `s`.
pub open spec fn open_marker_at(s: Seq<u8>, i: int) -> bool {
    0 <= i && i + 2 <= s.len() && s[i] == 40 && s[i + 1] == 35
}

/// True when a closing parenthesis `)` stands at position `i` of `s`.
pub open spec fn close_at(s: Seq<u8>, i: int) -> bool {
    0 <= i < s.len() && s[i] == 41
}

/// The start of the last `(#` marker strictly before position `from`,
/// if any.
pub open spec fn last_open_marker_before(s: Seq<u8>, from: int) -> Option<int>
    decreases from,
{
    if from <= 0 {
        None
    } else if open_marker_at(s, from - 1) {
        Some(from - 1)
    } else {
        last_open_marker_before(s, from - 1)
    }
}

/// The position of the last `)` strictly before position `from`, if any.
pub open spec fn last_close_before(s: Seq<u8>, from: int) -> Option<int>
    decreases from,
{
    if from <= 0 {
        None
    } else if close_at(s, from - 1) {
        Some(from - 1)
    } else {
        last_close_before(s, from - 1)
    }
}

/// What extracting the monitor index from an adapter-name string yields:
/// the number written strictly between the last `(#` marker and the last
/// `)`, when both exist in that order and the bytes between them are
/// digits writing a number that fits in `usize`; nothing otherwise.
pub open spec fn spec_extract(s: Seq<u8>) -> Option<usize> {
    match (last_open_marker_before(s, s.len() as int), last_close_before(s, s.len() as int)) {
        (Some(p), Some(q)) => {
            if p + 2 <= q {
                spec_parse_usize(s.subrange(p + 2, q))
            } else {
                None
            }
        },
        _ => None,
    }
}

/// Extracts the monitor index embedded in a display adapter name of the
/// form `<free text>(#<digits>)`: the digits strictly between the
/// rightmost `(#` marker and the rightmost `)`. Returns nothing when a
/// marker is missing, stands in the wrong order, encloses no digits, or
/// encloses anything but digits.
pub fn extract_monitor_index(name: &[u8]) -> (r: Option<usize>)
    ensures
        r == spec_extract(name@),
{
    let n = name.len();
    let mut open_pos: Option<usize> = None;
    let mut i: usize = n;
    while open_pos.is_none() && i > 0
        invariant
            n == name@.len(),
            i <= n,
            match open_pos {
                None => last_open_marker_before(name@, n as int) == last_open_marker_before(
                    name@,
                    i as int,
                ),
                Some(p) => last_open_marker_before(name@, n as int) == Some(p as int)
                    && open_marker_at(name@, p as int),
            },
        decreases i,
    {
        i = i - 1;
        if i < n - 1 && *slice_index_get(name, i) == 40 && *slice_index_get(name, i + 1) == 35 {
            open_pos = Some(i);
        }
    }
    let mut close_pos: Option<usize> = None;
    let mut j: usize = n;
    while close_pos.is_none() && j > 0
        invariant
            n == name@.len(),
            j <= n,
            match close_pos {
                None => last_close_before(name@, n as int) == last_close_before(name@, j as int),
                Some(q) => last_close_before(name@, n as int) == Some(q as int) && close_at(
                    name@,
                    q as int,
                ),
            },
        decreases j,
    {
        j = j - 1;
        if *slice_index_get(name, j) == 41 {
            close_pos = Some(j);
        }
    }
    match (open_pos, close_pos) {
        (Some(p), Some(q)) => {
            if p + 2 <= q {
                parse_usize(slice_subrange(name, p + 2, q))
            } else {
                None
            }
        },
        _ => None,
    }
}

/// The result of `last_close_before` is indeed a closing parenthesis.
proof fn lemma_last_close_is_close(s: Seq<u8>, from: int, q: int)
    requires
        last_close_before(s, from) == Some(q),
    ensures
        close_at(s, q),
        q < from,
    decreases from,
{
    if from > 0 && !close_at(s, from - 1) {
        lemma_last_close_is_close(s, from - 1, q);
    }
}

/// Without any `(#` marker, no marker is found.
proof fn lemma_last_open_none(s: Seq<u8>, from: int)
    requires
        forall|k: int| !(#[trigger] open_marker_at(s, k)),
    ensures
        last_open_marker_before(s, from) is None,
    decreases from,
{
    if from > 0 {
        lemma_last_open_none(s, from - 1);
    }
}

/// A marker position with no marker after it is the one found.
proof fn lemma_last_open_found(s: Seq<u8>, from: int, p: int)
    requires
        open_marker_at(s, p),
        p < from,
        forall|k: int| p < k < from ==> !(#[trigger] open_marker_at(s, k)),
    ensures
        last_open_marker_before(s, from) == Some(p),
    decreases from,
{
    if from - 1 > p {
        lemma_last_open_found(s, from - 1, p);
    }
}

/// A closing parenthesis with no other one after it is the one found.
proof fn lemma_last_close_found(s: Seq<u8>, from: int, q: int)
    requires
        close_at(s, q),
        q < from,
        forall|k: int| q < k < from ==> !(#[trigger] close_at(s, k)),
    ensures
        last_close_before(s, from) == Some(q),
    decreases from,
{
    if from - 1 > q {
        lemma_last_close_found(s, from - 1, q);
    }
}

/// Every adapter name whose rightmost parenthesized group is `(#N)` for
/// a non-empty digit string `N`, with no later `)` and no later `(#`,
/// yields exactly the number `N` writes. The group may be preceded and
/// followed by arbitrary free text.
pub proof fn lemma_extract_rightmost_group(prefix: Seq<u8>, digits: Seq<u8>, suffix: Seq<u8>)
    requires
        digits.len() > 0,
        all_digits(digits),
        digits_value(digits) <= usize::MAX,
        forall|j: int| 0 <= j < suffix.len() ==> #[trigger] suffix[j] != 41,
        forall|j: int| 0 <= j < suffix.len() - 1 ==> !(#[trigger] suffix[j] == 40 && suffix[j + 1]
            == 35),
    ensures
        spec_extract(prefix + seq![40u8, 35u8] + digits + seq![41u8] + suffix) == Some(
            digits_value(digits) as usize,
        ),
{
    let s = prefix + seq![40u8, 35u8] + digits + seq![41u8] + suffix;
    let p = prefix.len() as int;
    let q = p + 2 + digits.len() as int;
    assert(s.len() == prefix.len() + 2 + digits.len() + 1 + suffix.len());
    assert(s[p] == 40 && s[p + 1] == 35);
    assert(forall|k: int| p + 2 <= k < q ==> #[trigger] s[k] == digits[k - (p + 2)]);
    assert(s[q] == 41);
    assert(forall|k: int| q < k < s.len() ==> #[trigger] s[k] == suffix[k - q - 1]);
    assert(open_marker_at(s, p));
    assert(close_at(s, q));
    assert forall|k: int| p < k < s.len() implies !(#[trigger] open_marker_at(s, k)) by {
        if open_marker_at(s, k) {
            if k == p + 1 {
                assert(s[k] == 35);
            } else if p + 2 <= k < q {
                assert(crate::digits::is_digit(digits[k - (p + 2)]));
                assert(s[k] != 40);
            } else if k == q {
                assert(s[k] == 41);
            } else {
                assert(q < k);
                assert(s[k] == suffix[k - q - 1]);
                if k + 1 < s.len() {
                    assert(s[k + 1] == suffix[k - q]);
                    assert(!(suffix[k - q - 1] == 40 && suffix[k - q] == 35));
                } else {
                    assert(k + 2 > s.len());
                }
            }
        }
    }
    assert forall|k: int| q < k < s.len() implies !(#[trigger] close_at(s, k)) by {
        if close_at(s, k) {
            assert(s[k] == suffix[k - q - 1]);
            assert(suffix[k - q - 1] != 41);
        }
    }
    lemma_last_open_found(s, s.len() as int, p);
    lemma_last_close_found(s, s.len() as int, q);
    assert(s.subrange(p + 2, q) =~= digits);
}

/// An adapter name without any `(#` marker yields nothing.
pub proof fn lemma_extract_no_marker(s: Seq<u8>)
    requires
        forall|k: int| !(#[trigger] open_marker_at(s, k)),
    ensures
        spec_extract(s) is None,
{
    lemma_last_open_none(s, s.len() as int);
}

/// An adapter name whose last `(#` marker has no `)` after it yields
/// nothing.
pub proof fn lemma_extract_no_close_after_marker(s: Seq<u8>, p: int)
    requires
        open_marker_at(s, p),
        forall|k: int| k > p ==> !(#[trigger] open_marker_at(s, k)),
        forall|j: int| p + 2 <= j < s.len() ==> #[trigger] s[j] != 41,
    ensures
        spec_extract(s) is None,
{
    lemma_last_open_found(s, s.len() as int, p);
    match last_close_before(s, s.len() as int) {
        None => {},
        Some(q) => {
            lemma_last_close_is_close(s, s.len() as int, q);
            assert(s[q] == 41);
            assert(q < p + 2);
        },
    }
}

} // verus!
