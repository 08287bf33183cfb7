//! String building blocks shared by every module: class-list joining and
//! decimal / hexadecimal rendering of integers.

use vstd::prelude::*;

verus! {

/// The Tailwind class list made of the non-empty entries of `classes`,
/// in order, separated by single spaces.
pub open spec fn cn_spec(classes: Seq<Seq<char>>) -> Seq<char>
    decreases classes.len(),
{
    if classes.len() == 0 {
        Seq::empty()
    } else {
        let prev = cn_spec(classes.drop_last());
        let last = classes.last();
        if last.len() == 0 {
            prev
        } else if prev.len() == 0 {
            last
        } else {
            prev + seq![' '] + last
        }
    }
}

/// The views of a slice of string slices.
pub open spec fn views(classes: Seq<&str>) -> Seq<Seq<char>> {
    classes.map_values(|s: &str| s@)
}

/// Combines classes into one `class` attribute value, dropping empty entries.
pub fn cn(classes: &[&str]) -> (out: String)
    ensures
        out@ == cn_spec(views(classes@)),
{
    let mut out = String::new();
    let mut i: usize = 0;
    proof {
        reveal_strlit(" ");
        assert(views(classes@).take(0) =~= Seq::<Seq<char>>::empty());
    }
    while i < classes.len()
        invariant
            i <= classes@.len(),
            out@ == cn_spec(views(classes@).take(i as int)),
            " "@ == seq![' '],
        decreases classes.len() - i,
    {
        let c: &str = classes[i];
        proof {
            assert(views(classes@).take(i + 1).drop_last() =~= views(classes@).take(i as int));
            assert(views(classes@).take(i + 1).last() == c@);
        }
        if !c.is_empty() {
            if !out.as_str().is_empty() {
                out.append(" ");
            }
            out.append(c);
        }
        i = i + 1;
    }
    proof {
        assert(views(classes@).take(classes@.len() as int) =~= views(classes@));
    }
    out
}


/// `s` cut at every `sep`, as `str::split` does: `k` separators give
/// `k + 1` pieces, empty ones included.
pub open spec fn split_on(s: Seq<char>, sep: char) -> Seq<Seq<char>>
    decreases s.len(),
{
    if s.len() == 0 {
        seq![Seq::<char>::empty()]
    } else {
        let prev = split_on(s.drop_last(), sep);
        if s.last() == sep {
            prev.push(Seq::<char>::empty())
        } else {
            prev.update(prev.len() - 1, prev.last().push(s.last()))
        }
    }
}

/// The non-empty entries of `classes`, in order.
pub open spec fn non_empty(classes: Seq<Seq<char>>) -> Seq<Seq<char>>
    decreases classes.len(),
{
    if classes.len() == 0 {
        Seq::empty()
    } else {
        let prev = non_empty(classes.drop_last());
        if classes.last().len() == 0 { prev } else { prev.push(classes.last()) }
    }
}

proof fn lemma_split_nonempty(s: Seq<char>, sep: char)
    ensures
        split_on(s, sep).len() >= 1,
    decreases s.len(),
{
    if s.len() > 0 {
        lemma_split_nonempty(s.drop_last(), sep);
    }
}

/// Appending text without separators only extends the last piece.
proof fn lemma_split_append(a: Seq<char>, b: Seq<char>, sep: char)
    requires
        !b.contains(sep),
    ensures
        split_on(a + b, sep) == split_on(a, sep).update(split_on(a, sep).len() - 1, split_on(a, sep).last() + b),
    decreases b.len(),
{
    lemma_split_nonempty(a, sep);
    let sa = split_on(a, sep);
    if b.len() == 0 {
        assert(a + b =~= a);
        assert(sa.last() + b =~= sa.last());
        assert(sa.update(sa.len() - 1, sa.last()) =~= sa);
    } else {
        let b0 = b.drop_last();
        assert(!b0.contains(sep)) by {
            if b0.contains(sep) {
                let i = choose|i: int| 0 <= i < b0.len() && b0[i] == sep;
                assert(b[i] == sep);
            }
        }
        lemma_split_append(a, b0, sep);
        assert((a + b).drop_last() =~= a + b0);
        assert((a + b).last() == b.last());
        assert(b.last() != sep) by {
            assert(b[b.len() - 1] == b.last());
        }
        assert((sa.last() + b0).push(b.last()) =~= sa.last() + b);
        let mid = sa.update(sa.len() - 1, sa.last() + b0);
        assert(mid.len() == sa.len());
        assert(mid.update(mid.len() - 1, mid.last().push(b.last())) =~= sa.update(sa.len() - 1, sa.last() + b));
    }
}

proof fn lemma_cn_empty_iff(classes: Seq<Seq<char>>)
    ensures
        (cn_spec(classes).len() == 0) == (non_empty(classes).len() == 0),
    decreases classes.len(),
{
    if classes.len() > 0 {
        lemma_cn_empty_iff(classes.drop_last());
    }
}

/// Splitting a class list on spaces gives back exactly the non-empty
/// classes it was made of, in order: `cn` adds no leading, trailing or
/// doubled space. (The classes must hold no space themselves, and one at
/// least must be non-empty.)
pub proof fn law_cn_splits_back(classes: Seq<Seq<char>>)
    requires
        forall|i: int| 0 <= i < classes.len() ==> !(#[trigger] classes[i]).contains(' '),
        exists|i: int| 0 <= i < classes.len() && (#[trigger] classes[i]).len() > 0,
    ensures
        split_on(cn_spec(classes), ' ') == non_empty(classes),
    decreases classes.len(),
{
    let prev = classes.drop_last();
    let last = classes.last();
    assert(!last.contains(' ')) by {
        assert(classes[classes.len() - 1] == last);
    }
    assert forall|i: int| 0 <= i < prev.len() implies !(#[trigger] prev[i]).contains(' ') by {
        assert(prev[i] == classes[i]);
    }
    lemma_cn_empty_iff(prev);
    if non_empty(prev).len() > 0 {
        if !(exists|i: int| 0 <= i < prev.len() && (#[trigger] prev[i]).len() > 0) {
            lemma_all_empty(prev);
        }
        law_cn_splits_back(prev);
    }
    if last.len() == 0 {
        if non_empty(prev).len() == 0 {
            let i = choose|i: int| 0 <= i < classes.len() && (#[trigger] classes[i]).len() > 0;
            lemma_all_empty_means(prev, i);
            assert(false);
        }
    } else if cn_spec(prev).len() == 0 {
        lemma_split_append(Seq::empty(), last, ' ');
        assert(Seq::<char>::empty() + last =~= last);
        assert(split_on(Seq::<char>::empty(), ' ') =~= seq![Seq::<char>::empty()]);
        assert(Seq::<char>::empty() + last =~= last);
        assert(non_empty(prev) =~= Seq::<Seq<char>>::empty());
        assert(seq![Seq::<char>::empty()].update(0, Seq::<char>::empty() + last) =~= non_empty(prev).push(last));
    } else {
        let a = cn_spec(prev) + seq![' '];
        lemma_split_append(a, last, ' ');
        assert(a.drop_last() =~= cn_spec(prev));
        assert(a.last() == ' ');
        lemma_split_nonempty(cn_spec(prev), ' ');
        let sa = split_on(a, ' ');
        assert(sa == split_on(cn_spec(prev), ' ').push(Seq::<char>::empty()));
        assert(sa.last() + last =~= last);
        assert(sa.update(sa.len() - 1, sa.last() + last) =~= non_empty(prev).push(last));
        assert(cn_spec(prev) + seq![' '] + last =~= a + last);
    }
}

proof fn lemma_all_empty(classes: Seq<Seq<char>>)
    requires
        forall|i: int| 0 <= i < classes.len() ==> (#[trigger] classes[i]).len() == 0,
    ensures
        non_empty(classes).len() == 0,
    decreases classes.len(),
{
    if classes.len() > 0 {
        let prev = classes.drop_last();
        assert forall|i: int| 0 <= i < prev.len() implies (#[trigger] prev[i]).len() == 0 by {
            assert(prev[i] == classes[i]);
        }
        lemma_all_empty(prev);
        assert(classes[classes.len() - 1] == classes.last());
    }
}

/// Every entry is empty when `non_empty` finds none.
proof fn lemma_all_empty_means(prev: Seq<Seq<char>>, i: int)
    requires
        non_empty(prev).len() == 0,
        0 <= i < prev.len(),
    ensures
        prev[i].len() == 0,
    decreases prev.len(),
{
    let p = prev.drop_last();
    if prev.last().len() == 0 {
        if i < p.len() {
            lemma_all_empty_means(p, i);
            assert(prev[i] == p[i]);
        }
    } else {
        assert(non_empty(prev).len() == non_empty(p).len() + 1);
    }
}

/// The ASCII character of a decimal or hexadecimal digit value (lowercase).
pub open spec fn digit_char(d: nat) -> char {
    if d < 10 {
        (48 + d) as char
    } else {
        (87 + d) as char
    }
}

/// Decimal rendering of a natural number, without leading zeros.
pub open spec fn decimal(n: nat) -> Seq<char>
    decreases n,
{
    if n < 10 {
        seq![digit_char(n)]
    } else {
        decimal(n / 10) + seq![digit_char(n % 10)]
    }
}

/// Decimal rendering of an integer, with a leading `-` when negative.
pub open spec fn decimal_int(i: int) -> Seq<char> {
    if i < 0 {
        seq!['-'] + decimal((-i) as nat)
    } else {
        decimal(i as nat)
    }
}

/// The lowest `width` hexadecimal digits of `n`, lowercase, most significant first.
pub open spec fn hex_fixed(n: nat, width: nat) -> Seq<char>
    decreases width,
{
    if width == 0 {
        Seq::empty()
    } else {
        hex_fixed(n / 16, (width - 1) as nat) + seq![digit_char(n % 16)]
    }
}

/// Appends one character (`String::push`).
#[verifier::external_body]
pub(crate) fn push_char(s: &mut String, c: char)
    ensures
        final(s)@ == old(s)@.push(c),
{
    s.push(c);
}

/// The character of a digit value below sixteen.
pub fn digit(d: u64) -> (c: char)
    requires
        d < 16,
    ensures
        c == digit_char(d as nat),
{
    if d < 10 {
        ((48 + d) as u8) as char
    } else {
        ((87 + d) as u8) as char
    }
}

/// Appends the decimal rendering of `n`.
pub fn push_decimal(out: &mut String, n: u64)
    ensures
        final(out)@ == old(out)@ + decimal(n as nat),
    decreases n,
{
    if n >= 10 {
        push_decimal(out, n / 10);
    }
    let c = digit(n % 10);
    push_char(out, c);
    proof {
        if n < 10 {
            assert(n % 10 == n);
        }
    }
}

/// Appends the decimal rendering of a signed integer.
pub fn push_decimal_i64(out: &mut String, n: i64)
    ensures
        final(out)@ == old(out)@ + decimal_int(n as int),
{
    if n < 0 {
        push_char(out, '-');
        let magnitude: u64 = ((-(n + 1)) as u64) + 1;
        push_decimal(out, magnitude);
        proof {
            assert(magnitude as int == -(n as int));
        }
    } else {
        push_decimal(out, n as u64);
    }
}

/// The decimal rendering of `n` as a new string (`n.to_string()`).
pub fn decimal_string(n: u64) -> (s: String)
    ensures
        s@ == decimal(n as nat),
{
    let mut s = String::new();
    push_decimal(&mut s, n);
    s
}

/// Appends the lowest `width` hexadecimal digits of `n`.
pub fn push_hex_fixed(out: &mut String, n: u64, width: u32)
    ensures
        final(out)@ == old(out)@ + hex_fixed(n as nat, width as nat),
    decreases width,
{
    if width > 0 {
        push_hex_fixed(out, n / 16, width - 1);
        let c = digit(n % 16);
        push_char(out, c);
    }
}

/// The decimal rendering of one- and two-digit numbers, spelled out.
pub proof fn lemma_decimal_small(n: nat)
    requires
        n < 100,
    ensures
        n < 10 ==> decimal(n) == seq![digit_char(n)],
        10 <= n ==> decimal(n) == seq![digit_char(n / 10), digit_char(n % 10)],
{
    if n >= 10 {
        assert(n / 10 < 10);
        assert(decimal(n / 10) == seq![digit_char(n / 10)]);
        assert(decimal(n) =~= seq![digit_char(n / 10), digit_char(n % 10)]);
    }
}

/// Numbers from ten up take at least two digits.
pub proof fn lemma_decimal_len_at_least_two(n: nat)
    requires
        n >= 10,
    ensures
        decimal(n).len() >= 2,
    decreases n,
{
    lemma_decimal_nonempty(n / 10);
}

/// Every decimal rendering has a digit.
pub proof fn lemma_decimal_nonempty(n: nat)
    ensures
        decimal(n).len() >= 1,
    decreases n,
{
    if n >= 10 {
        lemma_decimal_nonempty(n / 10);
    }
}

} // verus!
