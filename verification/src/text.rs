//! Text over sequences of characters: the splitting, matching, number
//! formatting and number parsing that the sysfs readers, the packet protocol
//! and the renderers are built on.
use vstd::prelude::*;

verus! {

// ---------------------------------------------------------------------
// Specifications
// ---------------------------------------------------------------------

/// The decimal digit character for `d` (`0 <= d < 10`).
pub open spec fn digit_char(d: int) -> char {
    if d == 0 {
        '0'
    } else if d == 1 {
        '1'
    } else if d == 2 {
        '2'
    } else if d == 3 {
        '3'
    } else if d == 4 {
        '4'
    } else if d == 5 {
        '5'
    } else if d == 6 {
        '6'
    } else if d == 7 {
        '7'
    } else if d == 8 {
        '8'
    } else {
        '9'
    }
}

/// The decimal text of a natural number, without leading zeros.
pub open spec fn dec_nat(n: nat) -> Seq<char>
    decreases n,
{
    if n < 10 {
        seq![digit_char(n as int)]
    } else {
        dec_nat(n / 10).push(digit_char((n % 10) as int))
    }
}

/// The decimal text of an integer, with a leading `-` when negative.
pub open spec fn dec_int(i: int) -> Seq<char> {
    if i < 0 {
        seq!['-'] + dec_nat((-i) as nat)
    } else {
        dec_nat(i as nat)
    }
}

pub open spec fn is_digit(c: char) -> bool {
    '0' <= c && c <= '9'
}

pub open spec fn digit_value(c: char) -> int {
    c as int - '0' as int
}

pub open spec fn all_digits(s: Seq<char>) -> bool {
    forall|i: int| 0 <= i < s.len() ==> #[trigger] is_digit(s[i])
}

/// The value of a string of decimal digits, most significant first.
pub open spec fn digits_value(s: Seq<char>) -> int
    decreases s.len(),
{
    if s.len() == 0 {
        0
    } else {
        digits_value(s.drop_last()) * 10 + digit_value(s.last())
    }
}

/// What the standard library's integer `from_str` gives for `s`, for an
/// integer type whose range is `lo..=hi` (`signed` when it has a sign):
/// an optional `+` (or `-` for a signed type), then one or more ASCII
/// digits whose value lies in the range; anything else is an error.
pub open spec fn parse_int(s: Seq<char>, signed: bool, lo: int, hi: int) -> Option<int> {
    if s.len() == 0 {
        None
    } else if (s[0] == '+' || s[0] == '-') && s.len() == 1 {
        None
    } else {
        let neg = s[0] == '-' && signed;
        let d = if s[0] == '+' || neg {
            s.skip(1)
        } else {
            s
        };
        let v = if neg {
            -digits_value(d)
        } else {
            digits_value(d)
        };
        if all_digits(d) && lo <= v <= hi {
            Some(v)
        } else {
            None
        }
    }
}

pub open spec fn parse_i8(s: Seq<char>) -> Option<int> {
    parse_int(s, true, i8::MIN as int, i8::MAX as int)
}

pub open spec fn parse_i32(s: Seq<char>) -> Option<int> {
    parse_int(s, true, i32::MIN as int, i32::MAX as int)
}

pub open spec fn parse_u32(s: Seq<char>) -> Option<int> {
    parse_int(s, false, 0, u32::MAX as int)
}

/// What the standard library's `bool::from_str` gives for `s`.
pub open spec fn parse_bool(s: Seq<char>) -> Option<bool> {
    if s == seq!['t', 'r', 'u', 'e'] {
        Some(true)
    } else if s == seq!['f', 'a', 'l', 's', 'e'] {
        Some(false)
    } else {
        None
    }
}

/// The pieces of `s` between the occurrences of `sep`, as `str::split` with a
/// character pattern yields them (always at least one piece).
pub open spec fn split_char(s: Seq<char>, sep: char) -> Seq<Seq<char>>
    decreases s.len(),
{
    if s.len() == 0 {
        seq![Seq::<char>::empty()]
    } else {
        let r = split_char(s.drop_last(), sep);
        if s.last() == sep {
            r.push(Seq::<char>::empty())
        } else {
            r.update(r.len() - 1, r.last().push(s.last()))
        }
    }
}

pub open spec fn has_prefix(s: Seq<char>, p: Seq<char>) -> bool {
    p.len() <= s.len() && s.subrange(0, p.len() as int) == p
}

pub open spec fn occurs_at(s: Seq<char>, p: Seq<char>, i: int) -> bool {
    0 <= i && i + p.len() <= s.len() && s.subrange(i, i + p.len()) == p
}

pub open spec fn contains(s: Seq<char>, p: Seq<char>) -> bool {
    exists|i: int| occurs_at(s, p, i)
}

/// `s` with every occurrence of the non-empty `from` replaced by `to`,
/// matched from the left without overlap, as `str::replace` does.
pub open spec fn replace_all(s: Seq<char>, from: Seq<char>, to: Seq<char>) -> Seq<char>
    decreases s.len(),
{
    if from.len() == 0 || s.len() < from.len() {
        s
    } else if has_prefix(s, from) {
        to + replace_all(s.skip(from.len() as int), from, to)
    } else {
        seq![s[0]] + replace_all(s.skip(1), from, to)
    }
}

/// The last piece that `str::split` yields for the two-character pattern
/// `[a, b]` with `a != b`: what follows its last occurrence, or all of `s`.
pub open spec fn after_last_pair(s: Seq<char>, a: char, b: char) -> Seq<char>
    decreases s.len(),
{
    if s.len() < 2 {
        s
    } else if s[s.len() - 2] == a && s[s.len() - 1] == b {
        Seq::<char>::empty()
    } else {
        after_last_pair(s.drop_last(), a, b).push(s.last())
    }
}

/// `s` without its last character, as `String::pop` leaves it.
pub open spec fn pop_last(s: Seq<char>) -> Seq<char> {
    if s.len() == 0 {
        s
    } else {
        s.drop_last()
    }
}

/// The views of a sequence of character vectors.
pub open spec fn char_views(v: Seq<Vec<char>>) -> Seq<Seq<char>> {
    v.map_values(|x: Vec<char>| x@)
}

/// The views of a sequence of strings.
pub open spec fn views(v: Seq<String>) -> Seq<Seq<char>> {
    v.map_values(|x: String| x@)
}

/// The text of `items` joined: each followed by `sep`.
pub open spec fn join_after(items: Seq<Seq<char>>, sep: Seq<char>) -> Seq<char>
    decreases items.len(),
{
    if items.len() == 0 {
        Seq::<char>::empty()
    } else {
        join_after(items.drop_last(), sep) + items.last() + sep
    }
}

/// Whether `s` holds no `c`.
pub open spec fn free_of(s: Seq<char>, c: char) -> bool {
    forall|i: int| 0 <= i < s.len() ==> s[i] != c
}

// ---------------------------------------------------------------------
// Lemmas
// ---------------------------------------------------------------------

pub proof fn lemma_split_char_nonempty(s: Seq<char>, sep: char)
    ensures
        split_char(s, sep).len() >= 1,
    decreases s.len(),
{
    if s.len() > 0 {
        lemma_split_char_nonempty(s.drop_last(), sep);
    }
}

pub proof fn lemma_dec_nat_digits(n: nat)
    ensures
        dec_nat(n).len() >= 1,
        all_digits(dec_nat(n)),
        dec_nat(n)[0] != '-',
    decreases n,
{
    if n >= 10 {
        lemma_dec_nat_digits(n / 10);
        let d = dec_nat(n / 10);
        assert forall|i: int| 0 <= i < dec_nat(n).len() implies #[trigger] is_digit(
            dec_nat(n)[i],
        ) by {
            if i < d.len() {
                assert(is_digit(d[i]));
            }
        }
    }
}

proof fn lemma_digit_char_value(d: int)
    requires
        0 <= d < 10,
    ensures
        digit_value(digit_char(d)) == d,
        is_digit(digit_char(d)),
{
}

/// A text without the separator is one piece.
pub proof fn lemma_split_free(s: Seq<char>, c: char)
    requires
        free_of(s, c),
    ensures
        split_char(s, c) == seq![s],
    decreases s.len(),
{
    if s.len() > 0 {
        lemma_split_free(s.drop_last(), c);
        assert(s.drop_last().push(s.last()) =~= s);
        assert(s[s.len() - 1] != c);
        assert(seq![s.drop_last()].update(0, s.drop_last().push(s.last())) =~= seq![s]);
    } else {
        assert(s =~= Seq::<char>::empty());
    }
}

/// Splitting two texts joined by the separator gives the pieces of each.
pub proof fn lemma_split_join(a: Seq<char>, b: Seq<char>, c: char)
    ensures
        split_char(a + seq![c] + b, c) == split_char(a, c) + split_char(b, c),
    decreases b.len(),
{
    lemma_split_char_nonempty(a, c);
    if b.len() == 0 {
        assert((a + seq![c] + b).drop_last() =~= a);
        assert(split_char(b, c) =~= seq![Seq::<char>::empty()]);
        assert(split_char(a, c).push(Seq::<char>::empty()) =~= split_char(a, c) + split_char(b, c));
    } else {
        lemma_split_join(a, b.drop_last(), c);
        lemma_split_char_nonempty(b.drop_last(), c);
        assert((a + seq![c] + b).drop_last() =~= a + seq![c] + b.drop_last());
        let r = split_char(a, c) + split_char(b.drop_last(), c);
        if b.last() == c {
            assert(r.push(Seq::<char>::empty()) =~= split_char(a, c) + split_char(b, c));
        } else {
            let rb = split_char(b.drop_last(), c);
            assert(r.update(r.len() - 1, r.last().push(b.last())) =~= split_char(a, c) + rb.update(
                rb.len() - 1,
                rb.last().push(b.last()),
            ));
        }
    }
}

/// Reading back the decimal text of a natural number gives the number.
pub proof fn lemma_dec_nat_value(n: nat)
    ensures
        digits_value(dec_nat(n)) == n,
    decreases n,
{
    if n < 10 {
        lemma_digit_char_value(n as int);
        assert(dec_nat(n).drop_last() =~= Seq::<char>::empty());
        assert(digits_value(Seq::<char>::empty()) == 0);
    } else {
        lemma_dec_nat_value(n / 10);
        lemma_digit_char_value((n % 10) as int);
        assert(dec_nat(n).drop_last() =~= dec_nat(n / 10));
        assert(n == (n / 10) * 10 + n % 10) by (nonlinear_arith);
    }
}

proof fn lemma_digits_value_nonneg(s: Seq<char>)
    requires
        all_digits(s),
    ensures
        digits_value(s) >= 0,
    decreases s.len(),
{
    if s.len() > 0 {
        assert(is_digit(s[s.len() - 1]));
        lemma_digits_value_nonneg(s.drop_last());
    }
}

/// Parsing the decimal text of an integer in range gives the integer back.
pub proof fn lemma_parse_dec_int(i: int, signed: bool, lo: int, hi: int)
    requires
        lo <= i <= hi,
        signed || i >= 0,
    ensures
        parse_int(dec_int(i), signed, lo, hi) == Some(i),
{
    lemma_dec_nat_digits(if i < 0 {
        (-i) as nat
    } else {
        i as nat
    });
    if i < 0 {
        let d = dec_nat((-i) as nat);
        lemma_dec_nat_value((-i) as nat);
        assert(dec_int(i).skip(1) =~= d);
        assert(dec_int(i)[0] == '-');
    } else {
        let d = dec_nat(i as nat);
        lemma_dec_nat_value(i as nat);
        assert(is_digit(d[0]));
    }
}

// ---------------------------------------------------------------------
// Executable operations
// ---------------------------------------------------------------------

/// Appends one character (`String::push`).
#[verifier::external_body]
pub(crate) fn push_char(s: &mut String, c: char)
    ensures
        final(s)@ == old(s)@.push(c),
{
    s.push(c);
}

/// The characters of `s`, in order.
pub fn chars_of(s: &str) -> (v: Vec<char>)
    ensures
        v@ == s@,
{
    let mut v: Vec<char> = Vec::new();
    for c in it: s.chars()
        invariant
            v@ == it.seq().take(it.index()),
            it.seq() == s@,
    {
        v.push(c);
    }
    v
}

/// The string made of the characters `v`.
pub fn string_of(v: &Vec<char>) -> (s: String)
    ensures
        s@ == v@,
{
    let mut s = String::new();
    let mut i: usize = 0;
    while i < v.len()
        invariant
            i <= v.len(),
            s@ == v@.take(i as int),
        decreases v.len() - i,
    {
        push_char(&mut s, v[i]);
        assert(v@.take(i + 1) =~= v@.take(i as int).push(v@[i as int]));
        i = i + 1;
    }
    assert(v@.take(v.len() as int) =~= v@);
    s
}

/// `a` followed by `b`.
pub fn concat(a: &str, b: &str) -> (s: String)
    ensures
        s@ == a@ + b@,
{
    let mut s = String::new();
    let va = chars_of(a);
    let vb = chars_of(b);
    let mut i: usize = 0;
    while i < va.len()
        invariant
            i <= va.len(),
            va@ == a@,
            s@ == a@.take(i as int),
        decreases va.len() - i,
    {
        push_char(&mut s, va[i]);
        assert(a@.take(i + 1) =~= a@.take(i as int).push(a@[i as int]));
        i = i + 1;
    }
    assert(a@.take(va.len() as int) =~= a@);
    let mut j: usize = 0;
    while j < vb.len()
        invariant
            j <= vb.len(),
            vb@ == b@,
            s@ == a@ + b@.take(j as int),
        decreases vb.len() - j,
    {
        push_char(&mut s, vb[j]);
        assert(b@.take(j + 1) =~= b@.take(j as int).push(b@[j as int]));
        assert(a@ + b@.take(j + 1) =~= (a@ + b@.take(j as int)).push(b@[j as int]));
        j = j + 1;
    }
    assert(b@.take(vb.len() as int) =~= b@);
    s
}

/// The characters `v[from..to]`.
pub fn slice_chars(v: &Vec<char>, from: usize, to: usize) -> (r: Vec<char>)
    requires
        from <= to <= v.len(),
    ensures
        r@ == v@.subrange(from as int, to as int),
{
    let mut r: Vec<char> = Vec::new();
    let mut i: usize = from;
    while i < to
        invariant
            from <= i <= to <= v.len(),
            r@ == v@.subrange(from as int, i as int),
        decreases to - i,
    {
        r.push(v[i]);
        assert(v@.subrange(from as int, i + 1) =~= v@.subrange(from as int, i as int).push(
            v@[i as int],
        ));
        i = i + 1;
    }
    r
}

/// Whether two character sequences are equal.
pub fn chars_eq(a: &Vec<char>, b: &Vec<char>) -> (r: bool)
    ensures
        r == (a@ == b@),
{
    if a.len() != b.len() {
        return false;
    }
    let mut i: usize = 0;
    while i < a.len()
        invariant
            a.len() == b.len(),
            i <= a.len(),
            forall|k: int| 0 <= k < i ==> a@[k] == b@[k],
        decreases a.len() - i,
    {
        if a[i] != b[i] {
            return false;
        }
        i = i + 1;
    }
    assert(a@ =~= b@);
    true
}

/// Whether `s` begins with `p`.
pub fn starts_with(s: &Vec<char>, p: &Vec<char>) -> (r: bool)
    ensures
        r == has_prefix(s@, p@),
{
    if p.len() > s.len() {
        return false;
    }
    let mut i: usize = 0;
    while i < p.len()
        invariant
            p.len() <= s.len(),
            i <= p.len(),
            forall|k: int| 0 <= k < i ==> s@[k] == p@[k],
        decreases p.len() - i,
    {
        if s[i] != p[i] {
            assert(s@.subrange(0, p.len() as int)[i as int] != p@[i as int]);
            return false;
        }
        i = i + 1;
    }
    assert(s@.subrange(0, p.len() as int) =~= p@);
    true
}

/// Whether `p` occurs in `s` at position `i`.
pub fn matches_at(s: &Vec<char>, p: &Vec<char>, i: usize) -> (r: bool)
    requires
        i <= s.len(),
    ensures
        r == occurs_at(s@, p@, i as int),
{
    if p.len() > s.len() - i {
        return false;
    }
    let mut k: usize = 0;
    while k < p.len()
        invariant
            i + p.len() <= s.len(),
            k <= p.len(),
            forall|j: int| 0 <= j < k ==> s@[i + j] == p@[j],
        decreases p.len() - k,
    {
        if s[i + k] != p[k] {
            assert(s@.subrange(i as int, i + p.len())[k as int] != p@[k as int]);
            return false;
        }
        k = k + 1;
    }
    assert(s@.subrange(i as int, i + p.len()) =~= p@);
    true
}

/// Whether `p` occurs anywhere in `s` (`str::contains`).
pub fn contains_chars(s: &Vec<char>, p: &Vec<char>) -> (r: bool)
    ensures
        r == contains(s@, p@),
{
    let mut i: usize = 0;
    while i < s.len()
        invariant
            i <= s.len(),
            forall|j: int| 0 <= j < i ==> !occurs_at(s@, p@, j),
        decreases s.len() - i,
    {
        if matches_at(s, p, i) {
            return true;
        }
        i = i + 1;
    }
    if matches_at(s, p, i) {
        return true;
    }
    assert forall|j: int| !occurs_at(s@, p@, j) by {
        if 0 <= j <= i {
        }
    }
    false
}

/// `s` without its last character (what `String::pop` leaves).
pub fn pop_chars(s: &Vec<char>) -> (r: Vec<char>)
    ensures
        r@ == pop_last(s@),
{
    if s.len() == 0 {
        Vec::new()
    } else {
        let r = slice_chars(s, 0, s.len() - 1);
        assert(r@ =~= s@.drop_last());
        r
    }
}

/// The pieces of `s` between the occurrences of `sep` (`str::split`).
pub fn split_chars(s: &Vec<char>, sep: char) -> (pieces: Vec<Vec<char>>)
    ensures
        char_views(pieces@) == split_char(s@, sep),
{
    let mut pieces: Vec<Vec<char>> = Vec::new();
    let mut cur: Vec<char> = Vec::new();
    let mut i: usize = 0;
    assert(s@.take(0) =~= Seq::<char>::empty());
    assert(char_views(pieces@).push(cur@) =~= seq![Seq::<char>::empty()]);
    while i < s.len()
        invariant
            i <= s.len(),
            char_views(pieces@).push(cur@) == split_char(s@.take(i as int), sep),
        decreases s.len() - i,
    {
        let ghost before = char_views(pieces@);
        let ghost cur_before = cur@;
        let c = s[i];
        assert(s@.take(i + 1).drop_last() =~= s@.take(i as int));
        assert(s@.take(i + 1).last() == c);
        if c == sep {
            pieces.push(cur);
            cur = Vec::new();
            assert(char_views(pieces@) =~= before.push(cur_before));
            assert(char_views(pieces@).push(cur@) =~= before.push(cur_before).push(
                Seq::<char>::empty(),
            ));
        } else {
            cur.push(c);
            assert(char_views(pieces@) =~= before);
            assert(char_views(pieces@).push(cur@) =~= before.push(cur_before).update(
                before.len() as int,
                cur_before.push(c),
            ));
        }
        i = i + 1;
    }
    assert(s@.take(s.len() as int) =~= s@);
    pieces.push(cur);
    pieces
}

/// What follows the last occurrence of `[a, b]` in `s` (`a != b`), or all of
/// `s`: the last piece of `str::split` with that pattern.
pub fn after_last_pair_chars(s: &Vec<char>, a: char, b: char) -> (r: Vec<char>)
    requires
        a != b,
    ensures
        r@ == after_last_pair(s@, a, b),
{
    let mut j: usize = s.len();
    assert(s@.take(j as int) =~= s@);
    assert(s@.skip(j as int) =~= Seq::<char>::empty());
    while j >= 2
        invariant
            j <= s.len(),
            after_last_pair(s@, a, b) == after_last_pair(s@.take(j as int), a, b) + s@.skip(
                j as int,
            ),
        decreases j,
    {
        let ghost t = s@.take(j as int);
        if s[j - 2] == a && s[j - 1] == b {
            assert(after_last_pair(t, a, b) =~= Seq::<char>::empty());
            let r = slice_chars(s, j, s.len());
            assert(r@ =~= after_last_pair(s@, a, b));
            return r;
        }
        assert(t.drop_last() =~= s@.take(j - 1));
        assert(s@.skip(j - 1) =~= seq![s@[j - 1]] + s@.skip(j as int));
        assert(after_last_pair(t, a, b) == after_last_pair(s@.take(j - 1), a, b).push(
            s@[j - 1],
        ));
        assert(after_last_pair(s@.take(j - 1), a, b).push(s@[j - 1]) + s@.skip(j as int)
            =~= after_last_pair(s@.take(j - 1), a, b) + s@.skip(j - 1));
        j = j - 1;
    }
    assert(after_last_pair(s@.take(j as int), a, b) == s@.take(j as int));
    assert(s@.take(j as int) + s@.skip(j as int) =~= s@);
    slice_chars(s, 0, s.len())
}

/// `s` with every occurrence of the non-empty `from` replaced by `to`
/// (`str::replace`).
pub fn replace_chars(s: &Vec<char>, from: &Vec<char>, to: &Vec<char>) -> (r: Vec<char>)
    requires
        from.len() > 0,
    ensures
        r@ == replace_all(s@, from@, to@),
{
    let mut out: Vec<char> = Vec::new();
    let mut i: usize = 0;
    assert(s@.skip(0) =~= s@);
    while i < s.len() && from.len() <= s.len() - i
        invariant
            i <= s.len(),
            from.len() > 0,
            out@ + replace_all(s@.skip(i as int), from@, to@) == replace_all(s@, from@, to@),
        decreases s.len() - i,
    {
        let ghost rest = s@.skip(i as int);
        if matches_at(s, from, i) {
            assert(has_prefix(rest, from@)) by {
                assert(rest.subrange(0, from@.len() as int) =~= s@.subrange(
                    i as int,
                    i + from@.len(),
                ));
            }
            assert(rest.skip(from@.len() as int) =~= s@.skip(i + from.len()));
            let mut k: usize = 0;
            let ghost out0 = out@;
            while k < to.len()
                invariant
                    k <= to.len(),
                    out@ == out0 + to@.take(k as int),
                decreases to.len() - k,
            {
                out.push(to[k]);
                assert(to@.take(k + 1) =~= to@.take(k as int).push(to@[k as int]));
                assert(out0 + to@.take(k + 1) =~= (out0 + to@.take(k as int)).push(
                    to@[k as int],
                ));
                k = k + 1;
            }
            assert(to@.take(to.len() as int) =~= to@);
            assert(out0 + (to@ + replace_all(s@.skip(i + from.len()), from@, to@)) =~= out@
                + replace_all(s@.skip(i + from.len()), from@, to@));
            i = i + from.len();
        } else {
            assert(!has_prefix(rest, from@)) by {
                if has_prefix(rest, from@) {
                    assert(rest.subrange(0, from@.len() as int) =~= s@.subrange(
                        i as int,
                        i + from@.len(),
                    ));
                }
            }
            assert(rest.skip(1) =~= s@.skip(i + 1));
            assert(rest[0] == s@[i as int]);
            let ghost out0 = out@;
            out.push(s[i]);
            assert(out0 + (seq![s@[i as int]] + replace_all(s@.skip(i + 1), from@, to@))
                =~= out@ + replace_all(s@.skip(i + 1), from@, to@));
            i = i + 1;
        }
    }
    let tail = slice_chars(s, i, s.len());
    assert(tail@ =~= s@.skip(i as int));
    let ghost out0 = out@;
    let mut k: usize = 0;
    while k < tail.len()
        invariant
            k <= tail.len(),
            out@ == out0 + tail@.take(k as int),
        decreases tail.len() - k,
    {
        out.push(tail[k]);
        assert(tail@.take(k + 1) =~= tail@.take(k as int).push(tail@[k as int]));
        assert(out0 + tail@.take(k + 1) =~= (out0 + tail@.take(k as int)).push(
            tail@[k as int],
        ));
        k = k + 1;
    }
    assert(tail@.take(tail.len() as int) =~= tail@);
    out
}

fn digit_of(d: u64) -> (c: char)
    requires
        d < 10,
    ensures
        c == digit_char(d as int),
{
    if d == 0 {
        '0'
    } else if d == 1 {
        '1'
    } else if d == 2 {
        '2'
    } else if d == 3 {
        '3'
    } else if d == 4 {
        '4'
    } else if d == 5 {
        '5'
    } else if d == 6 {
        '6'
    } else if d == 7 {
        '7'
    } else if d == 8 {
        '8'
    } else {
        '9'
    }
}

/// The decimal text of `n`.
pub fn fmt_u64(n: u64) -> (s: String)
    ensures
        s@ == dec_nat(n as nat),
    decreases n,
{
    if n < 10 {
        let mut s = String::new();
        push_char(&mut s, digit_of(n));
        assert(s@ =~= dec_nat(n as nat));
        s
    } else {
        let mut s = fmt_u64(n / 10);
        push_char(&mut s, digit_of(n % 10));
        s
    }
}

/// The decimal text of `i` (`i64`'s `Display`).
pub fn fmt_i64(i: i64) -> (s: String)
    ensures
        s@ == dec_int(i as int),
{
    if i < 0 {
        let m: u64 = (-(i as i128)) as u64;
        let d = fmt_u64(m);
        let mut s = String::new();
        push_char(&mut s, '-');
        let r = concat(s.as_str(), d.as_str());
        assert(r@ =~= dec_int(i as int));
        r
    } else {
        fmt_u64(i as u64)
    }
}

proof fn lemma_digits_value_push(p: Seq<char>, c: char)
    ensures
        digits_value(p.push(c)) == digits_value(p) * 10 + digit_value(c),
{
    assert(p.push(c).drop_last() =~= p);
}

/// Parses `s` as the standard library parses an integer of the range
/// `lo..=hi` (see `parse_int`).
pub fn parse_int_chars(s: &Vec<char>, signed: bool, lo: i64, hi: i64) -> (r: Option<i64>)
    requires
        lo <= 0 <= hi,
    ensures
        match r {
            Some(v) => parse_int(s@, signed, lo as int, hi as int) == Some(v as int),
            None => parse_int(s@, signed, lo as int, hi as int) is None,
        },
{
    let n = s.len();
    if n == 0 {
        return None;
    }
    if (s[0] == '+' || s[0] == '-') && n == 1 {
        return None;
    }
    let neg = s[0] == '-' && signed;
    let start: usize = if s[0] == '+' || neg {
        1
    } else {
        0
    };
    let ghost d = if s@[0] == '+' || neg {
        s@.skip(1)
    } else {
        s@
    };
    assert(d =~= s@.subrange(start as int, n as int));
    let bound: i128 = if neg {
        -(lo as i128)
    } else {
        hi as i128
    };
    let mut acc: i128 = 0;
    let mut over = false;
    let mut i: usize = start;
    assert(s@.subrange(start as int, start as int) =~= Seq::<char>::empty());
    while i < n
        invariant
            start <= i <= n,
            n == s.len(),
            0 <= bound,
            bound <= 0x1_0000_0000_0000_0000,
            all_digits(s@.subrange(start as int, i as int)),
            d == s@.subrange(start as int, n as int),
            n > 0,
            !((s@[0] == '+' || s@[0] == '-') && n == 1),
            neg == (s@[0] == '-' && signed),
            d == (if s@[0] == '+' || neg {
                s@.skip(1)
            } else {
                s@
            }),
            !over ==> acc == digits_value(s@.subrange(start as int, i as int)) && 0 <= acc
                <= bound,
            over ==> digits_value(s@.subrange(start as int, i as int)) > bound,
        decreases n - i,
    {
        let c = s[i];
        let ghost p = s@.subrange(start as int, i as int);
        if !('0' <= c && c <= '9') {
            assert(!is_digit(d[i - start]));
            return None;
        }
        assert(s@.subrange(start as int, i + 1) =~= p.push(c));
        proof {
            lemma_digits_value_push(p, c);
        }
        if !over {
            let dv: i128 = (c as u32 - '0' as u32) as i128;
            let nacc: i128 = acc * 10 + dv;
            if nacc > bound {
                over = true;
            } else {
                acc = nacc;
            }
        }
        i = i + 1;
    }
    assert(s@.subrange(start as int, n as int) == d);
    if over {
        None
    } else if neg {
        Some((-acc) as i64)
    } else {
        Some(acc as i64)
    }
}

/// `i8::from_str`.
pub fn parse_i8_str(s: &str) -> (r: Option<i8>)
    ensures
        match r {
            Some(v) => parse_i8(s@) == Some(v as int),
            None => parse_i8(s@) is None,
        },
{
    let v = chars_of(s);
    match parse_int_chars(&v, true, -128, 127) {
        Some(x) => Some(x as i8),
        None => None,
    }
}

/// `i32::from_str`.
pub fn parse_i32_str(s: &str) -> (r: Option<i32>)
    ensures
        match r {
            Some(v) => parse_i32(s@) == Some(v as int),
            None => parse_i32(s@) is None,
        },
{
    let v = chars_of(s);
    match parse_int_chars(&v, true, -2147483648, 2147483647) {
        Some(x) => Some(x as i32),
        None => None,
    }
}

/// `u32::from_str`.
pub fn parse_u32_str(s: &str) -> (r: Option<u32>)
    ensures
        match r {
            Some(v) => parse_u32(s@) == Some(v as int),
            None => parse_u32(s@) is None,
        },
{
    let v = chars_of(s);
    match parse_int_chars(&v, false, 0, 4294967295) {
        Some(x) => Some(x as u32),
        None => None,
    }
}

/// `bool::from_str`.
pub fn parse_bool_str(s: &str) -> (r: Option<bool>)
    ensures
        r == parse_bool(s@),
{
    let v = chars_of(s);
    let t = chars_of("true");
    let f = chars_of("false");
    proof {
        reveal_strlit("true");
        reveal_strlit("false");
        assert("true"@ =~= seq!['t', 'r', 'u', 'e']);
        assert("false"@ =~= seq!['f', 'a', 'l', 's', 'e']);
    }
    if chars_eq(&v, &t) {
        Some(true)
    } else if chars_eq(&v, &f) {
        assert(v@ != seq!['t', 'r', 'u', 'e']);
        Some(false)
    } else {
        assert(v@ != seq!['t', 'r', 'u', 'e']);
        assert(v@ != seq!['f', 'a', 'l', 's', 'e']);
        None
    }
}

} // verus!
