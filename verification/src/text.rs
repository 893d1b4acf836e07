//! Text helpers: splitting on a separator, joining, and decimal rendering
//! of integers.

use vstd::prelude::*;

verus! {

/// The pieces of `s` between occurrences of `sep`, as `str::split` with a
/// single-character pattern yields them: an empty text gives one empty piece,
/// and a separator at either end gives an empty piece there.
pub open spec fn split_on(s: Seq<char>, sep: char) -> Seq<Seq<char>>
    decreases s.len(),
{
    if s.len() == 0 {
        seq![Seq::<char>::empty()]
    } else {
        let rest = split_on(s.drop_last(), sep);
        if s.last() == sep {
            rest.push(Seq::<char>::empty())
        } else {
            rest.update(rest.len() - 1, rest.last().push(s.last()))
        }
    }
}

/// The pieces of `parts` glued together with `sep` between neighbours.
pub open spec fn join_with(parts: Seq<Seq<char>>, sep: Seq<char>) -> Seq<char>
    decreases parts.len(),
{
    if parts.len() == 0 {
        Seq::<char>::empty()
    } else if parts.len() == 1 {
        parts[0]
    } else {
        join_with(parts.drop_last(), sep) + sep + parts.last()
    }
}

/// The views of a vector of strings.
pub open spec fn string_views(v: Seq<String>) -> Seq<Seq<char>> {
    v.map_values(|s: String| s@)
}

/// The ten decimal digits in order.
pub open spec fn digit_chars() -> Seq<char> {
    seq!['0', '1', '2', '3', '4', '5', '6', '7', '8', '9']
}

/// The decimal rendering of a natural number, without leading zeros
/// (zero renders as `"0"`), as `Display` writes unsigned integers.
pub open spec fn decimal(n: nat) -> Seq<char>
    decreases n,
{
    if n < 10 {
        seq![digit_chars()[n as int]]
    } else {
        decimal(n / 10).push(digit_chars()[(n % 10) as int])
    }
}

/// The decimal rendering of an integer, with a leading `-` when negative,
/// as `Display` writes signed integers.
pub open spec fn signed_decimal(n: int) -> Seq<char> {
    if n < 0 {
        seq!['-'] + decimal((-n) as nat)
    } else {
        decimal(n as nat)
    }
}

/// Splitting never yields an empty list of pieces.
pub proof fn lemma_split_on_nonempty(s: Seq<char>, sep: char)
    ensures
        split_on(s, sep).len() >= 1,
    decreases s.len(),
{
    if s.len() > 0 {
        lemma_split_on_nonempty(s.drop_last(), sep);
    }
}

/// No piece produced by splitting contains the separator.
pub proof fn lemma_split_on_pieces_lack_sep(s: Seq<char>, sep: char)
    ensures
        forall|i: int, j: int|
            0 <= i < split_on(s, sep).len() && 0 <= j < split_on(s, sep)[i].len()
                ==> split_on(s, sep)[i][j] != sep,
    decreases s.len(),
{
    lemma_split_on_nonempty(s, sep);
    if s.len() > 0 {
        lemma_split_on_pieces_lack_sep(s.drop_last(), sep);
        lemma_split_on_nonempty(s.drop_last(), sep);
        let rest = split_on(s.drop_last(), sep);
        if s.last() != sep {
            let r = split_on(s, sep);
            assert forall|i: int, j: int| 0 <= i < r.len() && 0 <= j < r[i].len() implies r[i][j]
                != sep by {
                if i == rest.len() - 1 {
                    if j < rest.last().len() {
                        assert(r[i][j] == rest[i][j]);
                    }
                }
            }
        }
    }
}

/// Joining the pieces of a split with the separator gives back the text.
pub proof fn lemma_join_split(s: Seq<char>, sep: char)
    ensures
        join_with(split_on(s, sep), seq![sep]) == s,
    decreases s.len(),
{
    if s.len() > 0 {
        let p = s.drop_last();
        lemma_join_split(p, sep);
        lemma_split_on_nonempty(p, sep);
        let rest = split_on(p, sep);
        if s.last() == sep {
            let r = rest.push(Seq::<char>::empty());
            assert(r.drop_last() =~= rest);
            assert(join_with(r, seq![sep]) =~= p + seq![sep]);
            assert(p + seq![sep] =~= s);
        } else {
            let r = rest.update(rest.len() - 1, rest.last().push(s.last()));
            if rest.len() == 1 {
                assert(r[0] =~= p.push(s.last()));
                assert(s =~= p.push(s.last()));
            } else {
                assert(r.drop_last() =~= rest.drop_last());
                assert(join_with(rest, seq![sep]) == join_with(rest.drop_last(), seq![sep]) + seq![
                    sep,
                ] + rest.last());
                assert(join_with(r, seq![sep]) =~= join_with(rest, seq![sep]).push(s.last()));
                assert(s =~= p.push(s.last()));
            }
        }
    }
}

/// Splits `line` at every `sep`, as `line.split(sep)` collected into owned
/// strings.
pub fn split_fields(line: &str, sep: char) -> (fields: Vec<String>)
    ensures
        string_views(fields@) == split_on(line@, sep),
{
    let n = line.unicode_len();
    let mut fields: Vec<String> = Vec::new();
    let mut start: usize = 0;
    let mut i: usize = 0;
    assert(line@.take(0) =~= Seq::<char>::empty());
    while i < n
        invariant
            n == line@.len(),
            start <= i <= n,
            split_on(line@.take(i as int), sep) =~= string_views(fields@).push(
                line@.subrange(start as int, i as int),
            ),
        decreases n - i,
    {
        let c = line.get_char(i);
        let ghost prefix = line@.take(i as int);
        assert(line@.take(i + 1).drop_last() =~= prefix);
        assert(line@.take(i + 1).last() == c);
        let ghost rest = split_on(prefix, sep);
        assert(rest =~= string_views(fields@).push(line@.subrange(start as int, i as int)));
        if c == sep {
            let piece = line.substring_char(start, i).to_owned();
            let ghost before = fields@;
            fields.push(piece);
            assert(string_views(fields@) =~= string_views(before).push(piece@));
            assert(split_on(line@.take(i + 1), sep) == rest.push(Seq::<char>::empty()));
            assert(line@.subrange(i + 1, i + 1) =~= Seq::<char>::empty());
            start = i + 1;
        } else {
            assert(line@.subrange(start as int, i + 1) =~= line@.subrange(start as int, i as int).push(c));
            assert(split_on(line@.take(i + 1), sep) == rest.update(rest.len() - 1, rest.last().push(c)));
        }
        i = i + 1;
    }
    let last = line.substring_char(start, n).to_owned();
    let ghost before = fields@;
    fields.push(last);
    assert(string_views(fields@) =~= string_views(before).push(last@));
    assert(line@.take(n as int) =~= line@);
    fields
}

/// Ten to the power `k`.
pub open spec fn pow10(k: nat) -> nat
    decreases k,
{
    if k == 0 {
        1
    } else {
        10 * pow10((k - 1) as nat)
    }
}

/// A number at least `10^k` has at least `k + 1` decimal digits.
pub proof fn lemma_decimal_len_at_least(n: nat, k: nat)
    requires
        n >= pow10(k),
    ensures
        decimal(n).len() >= k + 1,
    decreases k,
{
    if k > 0 {
        assert(pow10(k) == 10 * pow10((k - 1) as nat));
        assert(n / 10 >= pow10((k - 1) as nat));
        lemma_decimal_len_at_least(n / 10, (k - 1) as nat);
    }
}

/// A number below `10^k` (with `k >= 1`) has at most `k` decimal digits.
pub proof fn lemma_decimal_len_at_most(n: nat, k: nat)
    requires
        k >= 1,
        n < pow10(k),
    ensures
        decimal(n).len() <= k,
    decreases k,
{
    if n >= 10 {
        assert(pow10(k) == 10 * pow10((k - 1) as nat));
        assert(k >= 2) by {
            if k == 1 {
                assert(pow10(0) == 1);
            }
        }
        assert(n / 10 < pow10((k - 1) as nat));
        lemma_decimal_len_at_most(n / 10, (k - 1) as nat);
    }
}

/// The decimal rendering of `n`, as `n.to_string()` gives it.
pub fn decimal_string(n: u64) -> (s: String)
    ensures
        s@ == decimal(n as nat),
    decreases n,
{
    let digits = "0123456789";
    proof {
        reveal_strlit("0123456789");
    }
    assert(digits@ =~= digit_chars());
    let d: usize = (n % 10) as usize;
    let ch = digits.substring_char(d, d + 1);
    assert(ch@ =~= seq![digit_chars()[d as int]]);
    if n < 10 {
        ch.to_owned()
    } else {
        let mut s = decimal_string(n / 10);
        s.append(ch);
        assert(s@ =~= decimal((n / 10) as nat).push(digit_chars()[(n % 10) as int]));
        s
    }
}

/// The decimal rendering of a signed `n`, as `n.to_string()` gives it.
pub fn signed_decimal_string(n: i64) -> (s: String)
    ensures
        s@ == signed_decimal(n as int),
{
    if n < 0 {
        let m: u64 = ((-(n + 1)) as u64) + 1;
        assert(m == -n);
        let mut s = "-".to_owned();
        proof {
            reveal_strlit("-");
        }
        let tail = decimal_string(m);
        s.append(tail.as_str());
        assert(s@ =~= seq!['-'] + decimal(m as nat));
        s
    } else {
        decimal_string(n as u64)
    }
}

/// Joins `parts` with `sep` between neighbours, as `parts.join(sep)` does.
pub fn join_strings(parts: &Vec<String>, sep: &str) -> (s: String)
    ensures
        s@ == join_with(string_views(parts@), sep@),
{
    let mut s = String::new();
    let mut i: usize = 0;
    while i < parts.len()
        invariant
            i <= parts.len(),
            s@ == join_with(string_views(parts@.take(i as int)), sep@),
        decreases parts.len() - i,
    {
        let ghost before = s@;
        if i > 0 {
            s.append(sep);
        }
        s.append(parts[i].as_str());
        let ghost t = string_views(parts@.take(i + 1));
        assert(t.drop_last() =~= string_views(parts@.take(i as int)));
        assert(t.last() == parts@[i as int]@);
        if i == 0 {
            assert(s@ =~= t[0]);
        } else {
            assert(s@ =~= before + sep@ + t.last());
        }
        i = i + 1;
    }
    assert(parts@.take(parts.len() as int) =~= parts@);
    s
}

/// Whether two texts are equal, as `==` on strings decides.
pub fn str_equals(a: &str, b: &str) -> (r: bool)
    ensures
        r == (a@ == b@),
{
    let n = a.unicode_len();
    let m = b.unicode_len();
    if n != m {
        return false;
    }
    let mut i: usize = 0;
    while i < n
        invariant
            n == a@.len(),
            n == b@.len(),
            i <= n,
            forall|j: int| 0 <= j < i ==> a@[j] == b@[j],
        decreases n - i,
    {
        if a.get_char(i) != b.get_char(i) {
            return false;
        }
        i = i + 1;
    }
    assert(a@ =~= b@);
    true
}

/// Whether `s` begins with the character `c`, as `s.starts_with(c)` decides.
pub fn starts_with_char(s: &str, c: char) -> (r: bool)
    ensures
        r == (s@.len() > 0 && s@[0] == c),
{
    if s.unicode_len() == 0 {
        false
    } else {
        s.get_char(0) == c
    }
}

/// Whether every character of `s` is a decimal digit `0`..`9`.
pub open spec fn all_digits(s: Seq<char>) -> bool {
    forall|i: int| 0 <= i < s.len() ==> 48 <= #[trigger] (s[i] as int) <= 57
}

/// The number a text of decimal digits denotes, read left to right.
pub open spec fn digits_value(s: Seq<char>) -> int
    decreases s.len(),
{
    if s.len() == 0 {
        0
    } else {
        digits_value(s.drop_last()) * 10 + (s.last() as int - 48)
    }
}

/// The decimal rendering of `n` is a non-empty text of digits, without a
/// leading zero unless it is `0`, and it reads back as `n`.
pub proof fn lemma_decimal_reads_back(n: nat)
    ensures
        decimal(n).len() >= 1,
        all_digits(decimal(n)),
        digits_value(decimal(n)) == n,
        n > 0 ==> decimal(n)[0] != '0',
    decreases n,
{
    assert('0' as int == 48 && '1' as int == 49 && '2' as int == 50 && '3' as int == 51);
    assert('4' as int == 52 && '5' as int == 53 && '6' as int == 54 && '7' as int == 55);
    assert('8' as int == 56 && '9' as int == 57);
    let dc = digit_chars();
    assert forall|k: int| 0 <= k < 10 implies #[trigger] (dc[k] as int) == 48 + k by {
        if k == 0 {} else if k == 1 {} else if k == 2 {} else if k == 3 {} else if k == 4 {}
        else if k == 5 {} else if k == 6 {} else if k == 7 {} else if k == 8 {} else {}
    }
    if n < 10 {
        let d = decimal(n);
        assert(d == seq![dc[n as int]]);
        assert(d.drop_last() =~= Seq::<char>::empty());
        assert(digits_value(d) == digits_value(d.drop_last()) * 10 + (d.last() as int - 48));
        assert(digits_value(Seq::<char>::empty()) == 0);
    } else {
        lemma_decimal_reads_back(n / 10);
        let p = decimal(n / 10);
        let d = decimal(n);
        let c = dc[(n % 10) as int];
        assert(d == p.push(c));
        assert(d.drop_last() =~= p);
        assert(c as int == 48 + n % 10);
        assert(digits_value(d) == digits_value(p) * 10 + (n % 10));
        assert(digits_value(d) == n) by (nonlinear_arith)
            requires
                digits_value(d) == digits_value(p) * 10 + (n % 10),
                digits_value(p) == n / 10,
                n >= 10,
        {
        }
        assert forall|i: int| 0 <= i < d.len() implies 48 <= #[trigger] (d[i] as int) <= 57 by {
            if i < p.len() {
                assert(d[i] == p[i]);
            }
        }
        assert(d[0] == p[0]);
    }
}

/// Two texts of digits, each followed by a non-digit separator and then
/// anything, are equal as wholes only if the digit parts are equal.
pub proof fn lemma_digits_before_separator(d1: Seq<char>, d2: Seq<char>, r1: Seq<char>, r2: Seq<char>)
    requires
        all_digits(d1),
        all_digits(d2),
        r1.len() > 0,
        r2.len() > 0,
        !(48 <= (r1[0] as int) <= 57),
        !(48 <= (r2[0] as int) <= 57),
        d1 + r1 == d2 + r2,
    ensures
        d1 == d2,
        r1 == r2,
{
    let a = d1 + r1;
    let b = d2 + r2;
    if d1.len() < d2.len() {
        assert(a[d1.len() as int] == r1[0]);
        assert(b[d1.len() as int] == d2[d1.len() as int]);
    } else if d2.len() < d1.len() {
        assert(b[d2.len() as int] == r2[0]);
        assert(a[d2.len() as int] == d1[d2.len() as int]);
    } else {
        assert(d1 =~= a.take(d1.len() as int));
        assert(d2 =~= b.take(d2.len() as int));
        assert(r1 =~= a.skip(d1.len() as int));
        assert(r2 =~= b.skip(d2.len() as int));
    }
}

/// Different numbers have different decimal renderings.
pub proof fn lemma_decimal_injective(a: nat, b: nat)
    requires
        decimal(a) == decimal(b),
    ensures
        a == b,
{
    lemma_decimal_reads_back(a);
    lemma_decimal_reads_back(b);
}

} // verus!
