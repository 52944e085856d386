//! Sort keys of table cells, their order, and the stable sort of rows.
//!
//! A cell's key is what the comparison of two cells reads: a missing value
//! sorts first, then values read as numbers (by their number), then values
//! kept as text (by their characters, which orders them as their UTF-8 bytes
//! do).
use std::cmp::Ordering;
use vstd::prelude::*;

use super::types::ColumnType;
use crate::text::{is_white_space, is_whitespace};

verus! {

/// The sort key of a cell.
#[derive(Debug, Clone)]
pub enum CellKey {
    /// The row has no value in the column.
    Missing,
    /// The value read as a number (numeric columns).
    Number(i128),
    /// The value as text.
    Text(Vec<char>),
}

/// A cell key with its text taken by its characters.
pub enum KeyView {
    Missing,
    Number(int),
    Text(Seq<char>),
}

/// The view of a key.
pub open spec fn key_view(k: CellKey) -> KeyView {
    match k {
        CellKey::Missing => KeyView::Missing,
        CellKey::Number(n) => KeyView::Number(n as int),
        CellKey::Text(t) => KeyView::Text(t@),
    }
}

/// Lexicographic order of character sequences by code point: -1, 0 or 1.
pub open spec fn text_order(a: Seq<char>, b: Seq<char>) -> int
    decreases a.len(),
{
    if a.len() == 0 {
        if b.len() == 0 {
            0
        } else {
            -1
        }
    } else if b.len() == 0 {
        1
    } else if a[0] < b[0] {
        -1
    } else if a[0] > b[0] {
        1
    } else {
        text_order(a.drop_first(), b.drop_first())
    }
}

/// The order of keys: -1, 0 or 1.
pub open spec fn key_order(a: KeyView, b: KeyView) -> int {
    match (a, b) {
        (KeyView::Missing, KeyView::Missing) => 0,
        (KeyView::Missing, _) => -1,
        (_, KeyView::Missing) => 1,
        (KeyView::Number(x), KeyView::Number(y)) => if x < y {
            -1
        } else if x > y {
            1
        } else {
            0
        },
        (KeyView::Number(_), KeyView::Text(_)) => -1,
        (KeyView::Text(_), KeyView::Number(_)) => 1,
        (KeyView::Text(s), KeyView::Text(t)) => text_order(s, t),
    }
}

/// The key order in a sort direction (reversed when descending).
pub open spec fn dir_order(a: KeyView, b: KeyView, descending: bool) -> int {
    if descending {
        key_order(b, a)
    } else {
        key_order(a, b)
    }
}

/// The `Ordering` that an order value stands for.
pub open spec fn ordering_of(o: int) -> Ordering {
    if o < 0 {
        Ordering::Less
    } else if o > 0 {
        Ordering::Greater
    } else {
        Ordering::Equal
    }
}

proof fn lemma_text_order_props(a: Seq<char>, b: Seq<char>)
    ensures
        text_order(a, b) == -text_order(b, a),
        -1 <= text_order(a, b) <= 1,
        text_order(a, b) == 0 <==> a == b,
    decreases a.len(),
{
    if a.len() > 0 && b.len() > 0 {
        lemma_text_order_props(a.drop_first(), b.drop_first());
        if a[0] == b[0] && a.drop_first() == b.drop_first() {
            assert(a =~= seq![a[0]] + a.drop_first());
            assert(b =~= seq![b[0]] + b.drop_first());
        }
        if a == b {
            assert(a.drop_first() == b.drop_first());
        }
    } else if a.len() == 0 && b.len() == 0 {
        assert(a =~= b);
    }
}

proof fn lemma_text_order_trans(a: Seq<char>, b: Seq<char>, c: Seq<char>)
    requires
        text_order(a, b) <= 0,
        text_order(b, c) <= 0,
    ensures
        text_order(a, c) <= 0,
        text_order(a, b) < 0 || text_order(b, c) < 0 ==> text_order(a, c) < 0,
    decreases a.len(),
{
    lemma_text_order_props(a, b);
    lemma_text_order_props(b, c);
    lemma_text_order_props(a, c);
    if a.len() > 0 && b.len() > 0 && c.len() > 0 {
        if a[0] == b[0] && b[0] == c[0] {
            lemma_text_order_trans(a.drop_first(), b.drop_first(), c.drop_first());
        }
    }
}

/// The key order is a total order: antisymmetric, zero exactly on equal
/// keys, and transitive.
pub proof fn lemma_key_order_props(a: KeyView, b: KeyView)
    ensures
        key_order(a, b) == -key_order(b, a),
        -1 <= key_order(a, b) <= 1,
        key_order(a, b) == 0 <==> a == b,
{
    match (a, b) {
        (KeyView::Text(s), KeyView::Text(t)) => {
            lemma_text_order_props(s, t);
        },
        _ => {},
    }
}

/// How keys of different kinds sort: a missing value before any value,
/// numbers before text, numbers by their value; and a descending sort
/// orders every two keys the other way round from an ascending one.
pub proof fn lemma_key_kinds_and_directions(a: KeyView, b: KeyView, x: int, y: int, t: Seq<char>)
    ensures
        key_order(KeyView::Missing, KeyView::Number(x)) == -1,
        key_order(KeyView::Missing, KeyView::Text(t)) == -1,
        key_order(KeyView::Number(x), KeyView::Text(t)) == -1,
        key_order(KeyView::Number(x), KeyView::Number(y)) < 0 <==> x < y,
        key_order(KeyView::Number(x), KeyView::Number(y)) == 0 <==> x == y,
        dir_order(a, b, true) == -dir_order(a, b, false),
        dir_order(a, b, false) == key_order(a, b),
{
    lemma_key_order_props(a, b);
}

/// Text keys sort in dictionary order, as `str::cmp` orders strings: a text
/// sorts before every longer text that it begins, and otherwise by the first
/// character where the two differ.
pub proof fn lemma_text_keys_in_dictionary_order(s: Seq<char>, t: Seq<char>)
    ensures
        s.len() < t.len() && s == t.subrange(0, s.len() as int) ==> key_order(
            KeyView::Text(s),
            KeyView::Text(t),
        ) == -1,
        forall|i: int|
            0 <= i < s.len() && i < t.len() && s.subrange(0, i) == t.subrange(0, i) && s[i]
                < t[i] ==> key_order(KeyView::Text(s), KeyView::Text(t)) == -1,
{
    if s.len() < t.len() && s == t.subrange(0, s.len() as int) {
        lemma_prefix_first(s, t);
    }
    assert forall|i: int|
        0 <= i < s.len() && i < t.len() && s.subrange(0, i) == t.subrange(0, i) && s[i]
            < t[i] implies key_order(KeyView::Text(s), KeyView::Text(t)) == -1 by {
        lemma_first_difference(s, t, i);
    }
}

proof fn lemma_prefix_first(s: Seq<char>, t: Seq<char>)
    requires
        s.len() < t.len(),
        s == t.subrange(0, s.len() as int),
    ensures
        text_order(s, t) == -1,
    decreases s.len(),
{
    if s.len() > 0 {
        assert(s[0] == t[0]);
        assert(s.drop_first() =~= t.drop_first().subrange(0, s.len() - 1));
        lemma_prefix_first(s.drop_first(), t.drop_first());
    }
}

proof fn lemma_first_difference(s: Seq<char>, t: Seq<char>, i: int)
    requires
        0 <= i < s.len(),
        i < t.len(),
        s.subrange(0, i) == t.subrange(0, i),
        s[i] < t[i],
    ensures
        text_order(s, t) == -1,
    decreases i,
{
    if i > 0 {
        assert(s[0] == s.subrange(0, i)[0]);
        assert(t[0] == t.subrange(0, i)[0]);
        assert(s.drop_first().subrange(0, i - 1) =~= t.drop_first().subrange(0, i - 1)) by {
            assert forall|j: int| 0 <= j < i - 1 implies s.drop_first()[j] == t.drop_first()[j] by {
                assert(s[j + 1] == s.subrange(0, i)[j + 1]);
                assert(t[j + 1] == t.subrange(0, i)[j + 1]);
            }
        }
        lemma_first_difference(s.drop_first(), t.drop_first(), i - 1);
    }
}

/// Transitivity of the key order.
pub proof fn lemma_key_order_trans(a: KeyView, b: KeyView, c: KeyView)
    requires
        key_order(a, b) <= 0,
        key_order(b, c) <= 0,
    ensures
        key_order(a, c) <= 0,
        key_order(a, b) < 0 || key_order(b, c) < 0 ==> key_order(a, c) < 0,
{
    lemma_key_order_props(a, b);
    lemma_key_order_props(b, c);
    lemma_key_order_props(a, c);
    match (a, b, c) {
        (KeyView::Text(s), KeyView::Text(t), KeyView::Text(u)) => {
            lemma_text_order_trans(s, t, u);
        },
        _ => {},
    }
}

fn compare_text(a: &Vec<char>, b: &Vec<char>) -> (o: i8)
    ensures
        o as int == text_order(a@, b@),
{
    let mut i: usize = 0;
    assert(a@.skip(0) =~= a@);
    assert(b@.skip(0) =~= b@);
    while i < a.len() && i < b.len()
        invariant
            i <= a@.len(),
            i <= b@.len(),
            forall|j: int| 0 <= j < i ==> a@[j] == b@[j],
            text_order(a@, b@) == text_order(a@.skip(i as int), b@.skip(i as int)),
        decreases a@.len() - i,
    {
        let x = a[i];
        let y = b[i];
        if x < y {
            return -1;
        } else if x > y {
            return 1;
        }
        proof {
            assert(a@[i as int] == b@[i as int]);
            assert(a@.skip(i as int).drop_first() =~= a@.skip(i + 1));
            assert(b@.skip(i as int).drop_first() =~= b@.skip(i + 1));
        }
        i = i + 1;
    }
    if i < a.len() {
        1
    } else if i < b.len() {
        -1
    } else {
        0
    }
}

/// Compare two cell keys: a missing value first, then numbers, then text.
pub fn compare_values(a: &CellKey, b: &CellKey) -> (o: Ordering)
    ensures
        o == ordering_of(key_order(key_view(*a), key_view(*b))),
{
    match (a, b) {
        (CellKey::Missing, CellKey::Missing) => Ordering::Equal,
        (CellKey::Missing, _) => Ordering::Less,
        (_, CellKey::Missing) => Ordering::Greater,
        (CellKey::Number(x), CellKey::Number(y)) => {
            if *x < *y {
                Ordering::Less
            } else if *x > *y {
                Ordering::Greater
            } else {
                Ordering::Equal
            }
        },
        (CellKey::Number(_), CellKey::Text(_)) => Ordering::Less,
        (CellKey::Text(_), CellKey::Number(_)) => Ordering::Greater,
        (CellKey::Text(s), CellKey::Text(t)) => {
            let o = compare_text(s, t);
            if o < 0 {
                Ordering::Less
            } else if o > 0 {
                Ordering::Greater
            } else {
                Ordering::Equal
            }
        },
    }
}

// ---------------------------------------------------------------------------
// Reading integers
// ---------------------------------------------------------------------------

/// `s` without its leading whitespace.
pub open spec fn trim_front(s: Seq<char>) -> Seq<char>
    decreases s.len(),
{
    if s.len() > 0 && is_white_space(s[0]) {
        trim_front(s.drop_first())
    } else {
        s
    }
}

/// `s` without its trailing whitespace.
pub open spec fn trim_back(s: Seq<char>) -> Seq<char>
    decreases s.len(),
{
    if s.len() > 0 && is_white_space(s.last()) {
        trim_back(s.drop_last())
    } else {
        s
    }
}

/// `s` without leading and trailing whitespace (`str::trim`).
pub open spec fn trimmed(s: Seq<char>) -> Seq<char> {
    trim_back(trim_front(s))
}

/// `s` with every comma removed.
pub open spec fn without_commas(s: Seq<char>) -> Seq<char>
    decreases s.len(),
{
    if s.len() == 0 {
        s
    } else if s.last() == ',' {
        without_commas(s.drop_last())
    } else {
        without_commas(s.drop_last()).push(s.last())
    }
}

/// Whether every character of `d` is an ASCII digit.
pub open spec fn all_digits(d: Seq<char>) -> bool {
    forall|i: int| 0 <= i < d.len() ==> 48 <= #[trigger] (d[i] as u32) <= 57
}

/// The value of a string of decimal digits.
pub open spec fn digits_value(d: Seq<char>) -> nat
    decreases d.len(),
{
    if d.len() == 0 {
        0
    } else {
        digits_value(d.drop_last()) * 10 + ((d.last() as u32) - 48) as nat
    }
}

/// The `i64` that `s` reads as (`i64::from_str`): an optional `+` or `-`
/// followed by one or more ASCII digits, within the range of `i64`.
pub open spec fn parse_i64(s: Seq<char>) -> Option<int> {
    if s.len() == 0 {
        None
    } else {
        let neg = s[0] == '-';
        let d = if s[0] == '-' || s[0] == '+' {
            s.drop_first()
        } else {
            s
        };
        if d.len() == 0 || !all_digits(d) {
            None
        } else if neg {
            if digits_value(d) <= 0x8000_0000_0000_0000 {
                Some(-digits_value(d))
            } else {
                None
            }
        } else if digits_value(d) <= i64::MAX {
            Some(digits_value(d) as int)
        } else {
            None
        }
    }
}

/// What an integer cell reads as: trimmed, commas removed, then parsed.
pub open spec fn integer_value(s: Seq<char>) -> Option<int> {
    parse_i64(without_commas(trimmed(s)))
}

proof fn lemma_trim_front_skip(s: Seq<char>, i: int)
    requires
        0 <= i <= s.len(),
        forall|j: int| 0 <= j < i ==> is_white_space(#[trigger] s[j]),
    ensures
        trim_front(s) == trim_front(s.skip(i)),
    decreases i,
{
    if i > 0 {
        assert(s.drop_first().skip(i - 1) =~= s.skip(i));
        lemma_trim_front_skip(s.drop_first(), i - 1);
    } else {
        assert(s.skip(0) =~= s);
    }
}

proof fn lemma_trim_back_take(s: Seq<char>, e: int)
    requires
        0 <= e <= s.len(),
        forall|j: int| e <= j < s.len() ==> is_white_space(#[trigger] s[j]),
    ensures
        trim_back(s) == trim_back(s.take(e)),
    decreases s.len() - e,
{
    if e < s.len() {
        assert(s.drop_last().take(e) =~= s.take(e));
        lemma_trim_back_take(s.drop_last(), e);
    } else {
        assert(s.take(e) =~= s);
    }
}

proof fn lemma_digits_prefix_grows(d: Seq<char>, j: int, k: int)
    requires
        0 <= j <= k <= d.len(),
        all_digits(d),
    ensures
        digits_value(d.take(j)) <= digits_value(d.take(k)),
    decreases k - j,
{
    if j < k {
        lemma_digits_prefix_grows(d, j, k - 1);
        assert(d.take(k).drop_last() =~= d.take(k - 1));
    }
}

/// Read a cell as an integer the way integer columns do: trim, drop
/// commas, parse as `i64`.
pub fn parse_integer(s: &Vec<char>) -> (r: Option<i64>)
    ensures
        match r {
            Some(v) => integer_value(s@) == Some(v as int),
            None => integer_value(s@) is None,
        },
{
    let n = s.len();
    // leading whitespace
    let mut start: usize = 0;
    while start < n && is_whitespace(s[start])
        invariant
            n == s@.len(),
            start <= n,
            forall|j: int| 0 <= j < start ==> is_white_space(#[trigger] s@[j]),
        decreases n - start,
    {
        start = start + 1;
    }
    proof {
        lemma_trim_front_skip(s@, start as int);
    }
    let ghost front = s@.skip(start as int);
    assert(start == n || !is_white_space(front[0]));
    assert(trim_front(s@) == front);
    // trailing whitespace
    let mut end: usize = n;
    while end > start && is_whitespace(s[end - 1])
        invariant
            n == s@.len(),
            start <= end <= n,
            forall|j: int| end <= j < n ==> is_white_space(#[trigger] s@[j]),
        decreases end,
    {
        end = end - 1;
    }
    proof {
        assert forall|j: int| end - start <= j < front.len() implies is_white_space(#[trigger] front[j]) by {
            assert(front[j] == s@[j + start]);
        }
        lemma_trim_back_take(front, end - start);
        assert(front.take(end - start) =~= s@.subrange(start as int, end as int));
    }
    let ghost core = s@.subrange(start as int, end as int);
    assert(end == start || !is_white_space(core.last()));
    assert(trimmed(s@) == core);
    // commas
    let mut t: Vec<char> = Vec::new();
    let mut i: usize = start;
    assert(core.take(0) =~= Seq::<char>::empty());
    while i < end
        invariant
            start <= i <= end <= n,
            n == s@.len(),
            core == s@.subrange(start as int, end as int),
            t@ == without_commas(core.take(i - start)),
        decreases end - i,
    {
        let c = s[i];
        proof {
            assert(core.take(i - start + 1).drop_last() =~= core.take(i - start));
            assert(core.take(i - start + 1).last() == c);
        }
        if c != ',' {
            t.push(c);
        }
        i = i + 1;
    }
    assert(core.take(end - start) =~= core);
    // sign and digits
    let m = t.len();
    if m == 0 {
        return None;
    }
    let neg = t[0] == '-';
    let first: usize = if t[0] == '-' || t[0] == '+' {
        1
    } else {
        0
    };
    let ghost d = if t@[0] == '-' || t@[0] == '+' {
        t@.drop_first()
    } else {
        t@
    };
    assert(d =~= t@.skip(first as int));
    if first == m {
        return None;
    }
    let limit: u64 = if neg {
        0x8000_0000_0000_0000
    } else {
        0x7fff_ffff_ffff_ffff
    };
    let mut acc: u64 = 0;
    let mut j: usize = first;
    assert(d.take(0) =~= Seq::<char>::empty());
    while j < m
        invariant
            first <= j <= m,
            m == t@.len(),
            first < m,
            d == t@.skip(first as int),
            forall|q: int| 0 <= q < j - first ==> 48 <= #[trigger] (d[q] as u32) <= 57,
            acc == digits_value(d.take(j - first)),
            acc <= limit,
            t@ == without_commas(trimmed(s@)),
            neg == (t@[0] == '-'),
            d == if t@[0] == '-' || t@[0] == '+' {
                t@.drop_first()
            } else {
                t@
            },
            neg ==> limit == 0x8000_0000_0000_0000,
            !neg ==> limit == 0x7fff_ffff_ffff_ffff,
        decreases m - j,
    {
        let c = t[j];
        let cu = c as u32;
        if cu < 48 || cu > 57 {
            assert(!all_digits(d)) by {
                assert(d[j - first] == c);
            }
            return None;
        }
        let digit: u64 = (cu - 48) as u64;
        proof {
            assert(d.take(j - first + 1).drop_last() =~= d.take(j - first));
            assert(d.take(j - first + 1).last() == c);
        }
        if acc > (limit - digit) / 10 {
            proof {
                assert(digits_value(d.take(j - first + 1)) > limit);
                if all_digits(d) {
                    lemma_digits_prefix_grows(d, j - first + 1, d.len() as int);
                    assert(d.take(d.len() as int) =~= d);
                }
            }
            // the digits may still hold a non-digit; either way no value
            return None;
        }
        acc = acc * 10 + digit;
        j = j + 1;
    }
    assert(d.take(m - first) =~= d);
    if neg {
        if acc == 0x8000_0000_0000_0000 {
            Some(i64::MIN)
        } else {
            Some(-(acc as i64))
        }
    } else {
        Some(acc as i64)
    }
}

/// The key of a cell: `value` is the row's value in the column (if any),
/// `number` what the application read from it for a floating-point based
/// column (if anything).
pub open spec fn cell_key_spec(value: Option<Seq<char>>, ty: ColumnType, number: Option<int>) -> KeyView {
    match value {
        None => KeyView::Missing,
        Some(v) => if ty == ColumnType::Integer {
            match integer_value(v) {
                Some(n) => KeyView::Number(n),
                None => KeyView::Text(v),
            }
        } else if ty.is_float_based() {
            match number {
                Some(n) => KeyView::Number(n),
                None => KeyView::Text(v),
            }
        } else {
            KeyView::Text(v)
        },
    }
}

/// The key of a cell (see `cell_key_spec`).
pub fn cell_key(value: Option<Vec<char>>, ty: ColumnType, number: Option<i128>) -> (k: CellKey)
    ensures
        key_view(k) == cell_key_spec(
            match value {
                Some(v) => Some(v@),
                None => None,
            },
            ty,
            match number {
                Some(n) => Some(n as int),
                None => None,
            },
        ),
{
    match value {
        None => CellKey::Missing,
        Some(v) => {
            if ty == ColumnType::Integer {
                match parse_integer(&v) {
                    Some(n) => CellKey::Number(n as i128),
                    None => CellKey::Text(v),
                }
            } else if ty == ColumnType::Float || ty == ColumnType::Percent || ty == ColumnType::Size {
                match number {
                    Some(n) => CellKey::Number(n),
                    None => CellKey::Text(v),
                }
            } else {
                CellKey::Text(v)
            }
        },
    }
}

// ---------------------------------------------------------------------------
// Stable sort of row indices
// ---------------------------------------------------------------------------

/// The views of a list of keys.
pub open spec fn keys_view(keys: Seq<CellKey>) -> Seq<KeyView> {
    keys.map_values(|k: CellKey| key_view(k))
}

/// `x` comes before `y` in `s`.
pub open spec fn appears_before(s: Seq<usize>, x: usize, y: usize) -> bool {
    exists|i: int, j: int| 0 <= i < j < s.len() && s[i] == x && s[j] == y
}

/// `r` holds the same distinct elements as `s`.
pub open spec fn is_permutation_of(r: Seq<usize>, s: Seq<usize>) -> bool {
    &&& r.len() == s.len()
    &&& r.no_duplicates()
    &&& forall|x: usize| r.contains(x) <==> s.contains(x)
}

/// `r` is in key order (reversed when descending), and elements with equal
/// keys keep the order they had in `input`: the stable sort of `input`.
pub open spec fn stably_sorted(
    r: Seq<usize>,
    input: Seq<usize>,
    keys: Seq<KeyView>,
    descending: bool,
) -> bool {
    forall|a: int, b: int|
        #![trigger r[a], r[b]]
        0 <= a < b < r.len() ==> {
            let o = dir_order(keys[r[a] as int], keys[r[b] as int], descending);
            o < 0 || (o == 0 && appears_before(input, r[a], r[b]))
        }
}

proof fn lemma_dir_order_props(a: KeyView, b: KeyView, c: KeyView, descending: bool)
    ensures
        dir_order(a, b, descending) == -dir_order(b, a, descending),
        dir_order(a, b, descending) <= 0 && dir_order(b, c, descending) <= 0 ==> dir_order(
            a,
            c,
            descending,
        ) <= 0,
        dir_order(a, b, descending) < 0 && dir_order(b, c, descending) <= 0 ==> dir_order(
            a,
            c,
            descending,
        ) < 0,
        dir_order(a, b, descending) <= 0 && dir_order(b, c, descending) < 0 ==> dir_order(
            a,
            c,
            descending,
        ) < 0,
{
    lemma_key_order_props(a, b);
    lemma_key_order_props(b, c);
    lemma_key_order_props(a, c);
    if key_order(a, b) <= 0 && key_order(b, c) <= 0 {
        lemma_key_order_trans(a, b, c);
    }
    if key_order(c, b) <= 0 && key_order(b, a) <= 0 {
        lemma_key_order_trans(c, b, a);
    }
}

/// Whether key `a` sorts strictly before key `b` in the direction.
fn sorts_before(a: &CellKey, b: &CellKey, descending: bool) -> (r: bool)
    ensures
        r == (dir_order(key_view(*a), key_view(*b), descending) < 0),
{
    let o = if descending {
        compare_values(b, a)
    } else {
        compare_values(a, b)
    };
    match o {
        Ordering::Less => true,
        _ => false,
    }
}

/// Sort row indices stably by their keys: `keys[i]` is the key of row `i`.
pub fn stable_sort(order: &Vec<usize>, keys: &Vec<CellKey>, descending: bool) -> (r: Vec<usize>)
    requires
        order@.no_duplicates(),
        forall|i: int| 0 <= i < order@.len() ==> #[trigger] order@[i] < keys@.len(),
    ensures
        is_permutation_of(r@, order@),
        stably_sorted(r@, order@, keys_view(keys@), descending),
{
    let ghost kv = keys_view(keys@);
    let mut r: Vec<usize> = Vec::new();
    let ghost mut rpos: Seq<int> = Seq::empty();
    let n = order.len();
    for i in 0..n
        invariant
            n == order@.len(),
            order@.no_duplicates(),
            forall|q: int| 0 <= q < order@.len() ==> #[trigger] order@[q] < keys@.len(),
            kv == keys_view(keys@),
            r@.len() == i,
            forall|q: int| 0 <= q < r@.len() ==> #[trigger] r@[q] < keys@.len(),
            rpos.len() == i,
            forall|a: int| 0 <= a < i ==> 0 <= #[trigger] rpos[a] < i,
            forall|a: int| 0 <= a < i ==> r@[a] == order@[#[trigger] rpos[a]],
            forall|a: int, b: int| 0 <= a < b < i ==> rpos[a] != rpos[b],
            forall|a: int, b: int|
                #![trigger r@[a], r@[b]]
                0 <= a < b < i ==> {
                    let o = dir_order(kv[r@[a] as int], kv[r@[b] as int], descending);
                    o < 0 || (o == 0 && rpos[a] < rpos[b])
                },
    {
        let x = order[i];
        let ghost kx = kv[x as int];
        let mut p: usize = 0;
        while p < r.len() && !sorts_before(&keys[x], &keys[r[p]], descending)
            invariant
                p <= r@.len(),
                r@.len() == i,
                i < n,
                n == order@.len(),
                x == order@[i as int],
                x < keys@.len(),
                kv == keys_view(keys@),
                kx == kv[x as int],
                forall|q: int| 0 <= q < r@.len() ==> #[trigger] r@[q] < keys@.len(),
                forall|q: int| 0 <= q < p ==> dir_order(kx, #[trigger] kv[r@[q] as int], descending) >= 0,
            decreases r@.len() - p,
        {
            p = p + 1;
        }
        proof {
            assert forall|a: int, b: int|
                #![trigger r@.insert(p as int, x)[a], r@.insert(p as int, x)[b]]
                0 <= a < b <= i implies {
                let rr = r@.insert(p as int, x);
                let rp = rpos.insert(p as int, i as int);
                let o = dir_order(kv[rr[a] as int], kv[rr[b] as int], descending);
                o < 0 || (o == 0 && rp[a] < rp[b])
            } by {
                let rr = r@.insert(p as int, x);
                let rp = rpos.insert(p as int, i as int);
                if b < p {
                } else if b == p {
                    lemma_dir_order_props(kv[r@[a] as int], kx, kx, descending);
                } else if a == p {
                    lemma_dir_order_props(kx, kv[r@[p as int] as int], kv[r@[b - 1] as int], descending);
                    if b - 1 > p {
                        lemma_dir_order_props(kv[r@[p as int] as int], kv[r@[b - 1] as int], kv[r@[b - 1] as int], descending);
                    }
                } else if a < p {
                } else {
                }
            }
        }
        r.insert(p, x);
        proof {
            rpos = rpos.insert(p as int, i as int);
        }
    }
    proof {
        assert forall|a: int, b: int|
            #![trigger r@[a], r@[b]]
            0 <= a < b < r@.len() implies {
            let o = dir_order(kv[r@[a] as int], kv[r@[b] as int], descending);
            o < 0 || (o == 0 && appears_before(order@, r@[a], r@[b]))
        } by {
            let o = dir_order(kv[r@[a] as int], kv[r@[b] as int], descending);
            if o == 0 {
                assert(order@[rpos[a]] == r@[a] && order@[rpos[b]] == r@[b]);
            }
        }
        assert(r@.no_duplicates()) by {
            assert forall|a: int, b: int| 0 <= a < r@.len() && 0 <= b < r@.len() && a != b implies r@[a] != r@[b] by {
                assert(rpos[a] != rpos[b]);
            }
        }
        assert forall|y: usize| r@.contains(y) <==> order@.contains(y) by {
            if r@.contains(y) {
                let a = choose|a: int| 0 <= a < r@.len() && r@[a] == y;
                assert(order@[rpos[a]] == y);
            }
            if order@.contains(y) {
                let q = choose|q: int| 0 <= q < order@.len() && order@[q] == y;
                lemma_positions_cover(rpos, n as int, q);
                let a = choose|a: int| 0 <= a < n && rpos[a] == q;
                assert(r@[a] == y);
            }
        }
    }
    r
}

/// `n` distinct positions below `n` cover every position below `n`.
proof fn lemma_positions_cover(pos: Seq<int>, n: int, q: int)
    requires
        pos.len() == n,
        0 <= q < n,
        forall|a: int| 0 <= a < n ==> 0 <= #[trigger] pos[a] < n,
        forall|a: int, b: int| 0 <= a < b < n ==> pos[a] != pos[b],
    ensures
        exists|a: int| 0 <= a < n && #[trigger] pos[a] == q,
{
    if !(exists|a: int| 0 <= a < n && #[trigger] pos[a] == q) {
        let s = pos.to_set();
        assert(pos.no_duplicates()) by {
            assert forall|a: int, b: int|
                0 <= a < pos.len() && 0 <= b < pos.len() && a != b implies pos[a] != pos[b] by {
                if a < b {
                } else {
                }
            }
        }
        pos.unique_seq_to_set();
        let rng = vstd::set_lib::set_int_range(0, n);
        vstd::set_lib::lemma_int_range(0, n);
        assert(s.subset_of(rng.remove(q)));
        vstd::set_lib::lemma_len_subset(s, rng.remove(q));
    }
}

} // verus!
