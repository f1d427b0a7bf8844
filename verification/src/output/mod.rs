//! Output: frame counters and file names, the VTK header lines and section
//! order, and the layout of the NetCDF-3 files.

pub mod netcdf;
pub mod vtk;

pub use netcdf::NetcdfWriter;
pub use vtk::VtkWriter;

use vstd::prelude::*;

verus! {

/// The character of decimal digit `d`.
pub open spec fn digit_char(d: int) -> char {
    (48 + d) as char
}

/// The decimal representation of `n`, most significant digit first, without
/// leading zeros (`"0"` for zero).
pub open spec fn decimal(n: nat) -> Seq<char>
    decreases n,
{
    if n < 10 {
        seq![digit_char(n as int)]
    } else {
        decimal(n / 10).push(digit_char((n % 10) as int))
    }
}

/// The decimal representation of `n`, left-padded with `'0'` to at least
/// `width` characters.
pub open spec fn zero_padded(n: nat, width: nat) -> Seq<char> {
    let digits = decimal(n);
    if digits.len() < width {
        Seq::new((width - digits.len()) as nat, |k: int| '0') + digits
    } else {
        digits
    }
}

/// The decimal representation of `n` has at least one digit, and its first
/// digit is not `'0'` unless `n` is zero.
pub proof fn lemma_decimal_shape(n: nat)
    ensures
        decimal(n).len() >= 1,
        n >= 10 <==> decimal(n).len() >= 2,
        n > 0 ==> decimal(n)[0] != '0',
        forall|k: int| 0 <= k < decimal(n).len() ==> '0' <= #[trigger] decimal(n)[k] <= '9',
    decreases n,
{
    if n >= 10 {
        lemma_decimal_shape(n / 10);
        assert forall|k: int| 0 <= k < decimal(n).len() implies '0' <= #[trigger] decimal(n)[k]
            <= '9' by {
            if k < decimal(n / 10).len() {
                assert(decimal(n)[k] == decimal(n / 10)[k]);
            }
        }
    }
}

/// The number that a text of decimal digits denotes, most significant digit
/// first, each character `c` standing for the digit `c - '0'`.
pub open spec fn decimal_value(s: Seq<char>) -> int
    decreases s.len(),
{
    if s.len() == 0 {
        0
    } else {
        decimal_value(s.drop_last()) * 10 + ((s.last() as int) - ('0' as int))
    }
}

/// The decimal representation of `n` reads back as `n`: it is made of the
/// digits `0` to `9`, and their value in base 10 is `n`.
pub proof fn lemma_decimal_value(n: nat)
    ensures
        decimal_value(decimal(n)) == n,
        forall|k: int| 0 <= k < decimal(n).len() ==> '0' <= #[trigger] decimal(n)[k] <= '9',
    decreases n,
{
    lemma_decimal_shape(n);
    if n >= 10 {
        lemma_decimal_value(n / 10);
        let d = decimal(n);
        assert(d.drop_last() =~= decimal(n / 10));
        assert(d.last() == digit_char((n % 10) as int));
        assert((digit_char((n % 10) as int) as int) == 48 + n % 10);
        assert(decimal_value(d) == decimal_value(d.drop_last()) * 10 + ((d.last() as int) - ('0' as int)));
        assert(n == (n / 10) * 10 + n % 10);
    } else {
        assert(decimal(n).drop_last() =~= Seq::<char>::empty());
        assert((digit_char(n as int) as int) == 48 + n);
        let d = decimal(n);
        assert(decimal_value(d) == decimal_value(d.drop_last()) * 10 + ((d.last() as int) - ('0' as int)));
        assert(decimal_value(d.drop_last()) == 0);
    }
}

/// Leading zeros do not change the value of a text of digits.
proof fn lemma_leading_zeros_value(z: nat, s: Seq<char>)
    ensures
        decimal_value(Seq::new(z, |k: int| '0') + s) == decimal_value(s),
    decreases s.len(), z,
{
    let zs = Seq::new(z, |k: int| '0');
    if s.len() == 0 {
        assert(zs + s =~= zs);
        if z > 0 {
            assert(zs.drop_last() =~= Seq::new((z - 1) as nat, |k: int| '0'));
            lemma_leading_zeros_value((z - 1) as nat, s);
            assert(Seq::new((z - 1) as nat, |k: int| '0') + s =~= Seq::new((z - 1) as nat, |k: int| '0'));
        }
    } else {
        assert((zs + s).drop_last() =~= zs + s.drop_last());
        assert((zs + s).last() == s.last());
        lemma_leading_zeros_value(z, s.drop_last());
    }
}

/// The zero-padded representation of `n` reads back as `n`: a number
/// written into a file name can be read from it.
pub proof fn lemma_zero_padded_value(n: nat, width: nat)
    ensures
        decimal_value(zero_padded(n, width)) == n,
        forall|k: int| 0 <= k < zero_padded(n, width).len() ==> '0' <= #[trigger] zero_padded(n, width)[k] <= '9',
{
    lemma_decimal_value(n);
    let d = decimal(n);
    if d.len() < width {
        lemma_leading_zeros_value((width - d.len()) as nat, d);
        let zp = zero_padded(n, width);
        let pad = (width - d.len()) as int;
        assert forall|k: int| 0 <= k < zp.len() implies '0' <= #[trigger] zp[k] <= '9' by {
            if k >= pad {
                assert(zp[k] == d[k - pad]);
            }
        }
    }
}

/// Distinct numbers have distinct decimal representations.
pub proof fn lemma_decimal_injective(a: nat, b: nat)
    requires
        decimal(a) == decimal(b),
    ensures
        a == b,
    decreases a,
{
    lemma_decimal_shape(a);
    lemma_decimal_shape(b);
    if a >= 10 {
        let da = decimal(a);
        let db = decimal(b);
        assert(da.last() == db.last());
        assert(da.drop_last() =~= decimal(a / 10));
        assert(db.drop_last() =~= decimal(b / 10));
        lemma_decimal_injective(a / 10, b / 10);
    }
}

/// Zero-padding to a common width keeps distinct numbers distinct: the
/// file names that number files never coincide for distinct numbers.
pub proof fn lemma_zero_padded_injective(a: nat, b: nat, width: nat)
    requires
        zero_padded(a, width) == zero_padded(b, width),
    ensures
        a == b,
{
    lemma_decimal_shape(a);
    lemma_decimal_shape(b);
    let da = decimal(a);
    let db = decimal(b);
    let pa = zero_padded(a, width);
    if da.len() == db.len() {
        let pad = pa.len() - da.len();
        assert(pa.subrange(pad, pa.len() as int) =~= da);
        assert(zero_padded(b, width).subrange(pad, pa.len() as int) =~= db);
        lemma_decimal_injective(a, b);
    } else if da.len() > db.len() {
        // `a` has more digits, so its first digit, not '0', faces a padding '0' of `b`
        let pos = pa.len() - da.len();
        assert(pa[pos] == da[0]);
        assert(zero_padded(b, width)[pos] == '0');
    } else {
        let pos = pa.len() - db.len();
        assert(zero_padded(b, width)[pos] == db[0]);
        assert(pa[pos] == '0');
    }
}

/// Names built as `before + zero_padded(n, width) + after` differ for
/// distinct numbers.
pub proof fn lemma_numbered_names_distinct(
    before: Seq<char>,
    after: Seq<char>,
    width: nat,
    a: nat,
    b: nat,
)
    requires
        a != b,
    ensures
        before + zero_padded(a, width) + after != before + zero_padded(b, width) + after,
{
    let na = before + zero_padded(a, width) + after;
    let nb = before + zero_padded(b, width) + after;
    if na == nb {
        assert(na.subrange(before.len() as int, na.len() - after.len()) =~= zero_padded(a, width));
        assert(nb.subrange(before.len() as int, nb.len() - after.len()) =~= zero_padded(b, width));
        lemma_zero_padded_injective(a, b, width);
    }
}

/// The one-character string of decimal digit `d`.
fn digit_str(d: usize) -> (s: &'static str)
    requires
        d < 10,
    ensures
        s@ == seq![digit_char(d as int)],
{
    proof {
        reveal_strlit("0");
        reveal_strlit("1");
        reveal_strlit("2");
        reveal_strlit("3");
        reveal_strlit("4");
        reveal_strlit("5");
        reveal_strlit("6");
        reveal_strlit("7");
        reveal_strlit("8");
        reveal_strlit("9");
    }
    match d {
        0 => "0",
        1 => "1",
        2 => "2",
        3 => "3",
        4 => "4",
        5 => "5",
        6 => "6",
        7 => "7",
        8 => "8",
        _ => "9",
    }
}

/// Append the decimal representation of `n` to `s`.
pub(crate) fn append_decimal(s: &mut String, n: usize)
    ensures
        final(s)@ == old(s)@ + decimal(n as nat),
    decreases n,
{
    if n >= 10 {
        append_decimal(s, n / 10);
    }
    s.append(digit_str(n % 10));
    proof {
        if n >= 10 {
            assert(final(s)@ =~= old(s)@ + decimal(n as nat));
        } else {
            assert(final(s)@ =~= old(s)@ + decimal(n as nat));
        }
    }
}

/// Number of decimal digits of `n`.
fn decimal_len(n: usize) -> (len: usize)
    ensures
        len == decimal(n as nat).len(),
        1 <= len <= n + 1,
    decreases n,
{
    if n < 10 {
        1
    } else {
        decimal_len(n / 10) + 1
    }
}

/// Append the decimal representation of `n`, left-padded with `'0'` to at
/// least `width` characters, to `s`.
pub(crate) fn append_zero_padded(s: &mut String, n: usize, width: usize)
    ensures
        final(s)@ == old(s)@ + zero_padded(n as nat, width as nat),
{
    let len = decimal_len(n);
    let ghost start = s@;
    let mut k = len;
    while k < width
        invariant
            len <= k,
            k <= width || k == len,
            s@ == start + Seq::new((k - len) as nat, |q: int| '0'),
        decreases width - k,
    {
        s.append("0");
        k = k + 1;
        proof {
            reveal_strlit("0");
            assert(s@ =~= start + Seq::new((k - len) as nat, |q: int| '0'));
        }
    }
    let ghost padded = s@;
    append_decimal(s, n);
    proof {
        if len < width {
            assert(k == width);
            assert(s@ =~= start + zero_padded(n as nat, width as nat));
        } else {
            assert(padded =~= start);
            assert(s@ =~= start + zero_padded(n as nat, width as nat));
        }
    }
}

} // verus!
