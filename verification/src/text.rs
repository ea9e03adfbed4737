//! Character-level formatting used by the text report: decimal and
//! hexadecimal rendering of integers and space padding, each with a
//! mathematical definition over `Seq<char>`.

use vstd::prelude::*;

verus! {

/// The sixteen lower-case hexadecimal digits, in value order.
pub open spec fn hex_alphabet() -> Seq<char> {
    seq!['0', '1', '2', '3', '4', '5', '6', '7', '8', '9', 'a', 'b', 'c', 'd', 'e', 'f']
}

/// The digit character for a value below 16 (below 10 it is a decimal digit).
pub open spec fn digit_char(d: nat) -> char {
    hex_alphabet()[d as int]
}

/// Decimal rendering without leading zeros (`0` renders as `"0"`), as `{}` does.
pub open spec fn dec(v: nat) -> Seq<char>
    decreases v,
{
    if v < 10 {
        seq![digit_char(v)]
    } else {
        dec(v / 10).push(digit_char(v % 10))
    }
}

/// Lower-case hexadecimal rendering without leading zeros, as `{:x}` does.
pub open spec fn hex(v: nat) -> Seq<char>
    decreases v,
{
    if v < 16 {
        seq![digit_char(v)]
    } else {
        hex(v / 16).push(digit_char(v % 16))
    }
}

/// The lowest `n` hexadecimal digits of `v`, most significant first, zero-filled.
pub open spec fn hex_fixed(v: nat, n: nat) -> Seq<char>
    decreases n,
{
    if n == 0 {
        seq![]
    } else {
        hex_fixed(v / 16, (n - 1) as nat).push(digit_char(v % 16))
    }
}

/// `n` space characters.
pub open spec fn spaces(n: nat) -> Seq<char> {
    Seq::new(n, |i: int| ' ')
}

/// `s` followed by spaces up to width `w` (left-aligned, as `{:<w}` does).
pub open spec fn pad_end(s: Seq<char>, w: nat) -> Seq<char> {
    if s.len() < w {
        s + spaces((w - s.len()) as nat)
    } else {
        s
    }
}

/// Spaces up to width `w` followed by `s` (right-aligned, as `{:>w}` does).
pub open spec fn pad_start(s: Seq<char>, w: nat) -> Seq<char> {
    if s.len() < w {
        spaces((w - s.len()) as nat) + s
    } else {
        s
    }
}

/// A one-character string literal holding the digit for `d`.
pub fn digit_str(d: u64) -> (s: &'static str)
    requires
        d < 16,
    ensures
        s@ == seq![digit_char(d as nat)],
{
    if d == 0 {
        proof { reveal_strlit("0"); }
        "0"
    } else if d == 1 {
        proof { reveal_strlit("1"); }
        "1"
    } else if d == 2 {
        proof { reveal_strlit("2"); }
        "2"
    } else if d == 3 {
        proof { reveal_strlit("3"); }
        "3"
    } else if d == 4 {
        proof { reveal_strlit("4"); }
        "4"
    } else if d == 5 {
        proof { reveal_strlit("5"); }
        "5"
    } else if d == 6 {
        proof { reveal_strlit("6"); }
        "6"
    } else if d == 7 {
        proof { reveal_strlit("7"); }
        "7"
    } else if d == 8 {
        proof { reveal_strlit("8"); }
        "8"
    } else if d == 9 {
        proof { reveal_strlit("9"); }
        "9"
    } else if d == 10 {
        proof { reveal_strlit("a"); }
        "a"
    } else if d == 11 {
        proof { reveal_strlit("b"); }
        "b"
    } else if d == 12 {
        proof { reveal_strlit("c"); }
        "c"
    } else if d == 13 {
        proof { reveal_strlit("d"); }
        "d"
    } else if d == 14 {
        proof { reveal_strlit("e"); }
        "e"
    } else {
        proof { reveal_strlit("f"); }
        "f"
    }
}

/// Appends the decimal rendering of `v`; returns how many digits it wrote.
pub fn push_dec(s: &mut String, v: u64) -> (n: usize)
    ensures
        final(s)@ == old(s)@ + dec(v as nat),
        n == dec(v as nat).len(),
    decreases v,
{
    if v < 10 {
        s.append(digit_str(v));
        1
    } else {
        let k = push_dec(s, v / 10);
        s.append(digit_str(v % 10));
        proof { lemma_dec_len_u64(v as nat / 10); }
        k + 1
    }
}

/// Appends the lower-case hexadecimal rendering of `v` (no prefix).
pub fn push_hex(s: &mut String, v: u64)
    ensures
        final(s)@ == old(s)@ + hex(v as nat),
    decreases v,
{
    if v < 16 {
        s.append(digit_str(v));
    } else {
        push_hex(s, v / 16);
        s.append(digit_str(v % 16));
    }
}

/// Appends the lowest `n` hexadecimal digits of `v`, zero-filled.
pub fn push_hex_fixed(s: &mut String, v: u64, n: usize)
    ensures
        final(s)@ == old(s)@ + hex_fixed(v as nat, n as nat),
    decreases n,
{
    if n > 0 {
        push_hex_fixed(s, v / 16, n - 1);
        s.append(digit_str(v % 16));
    }
}

/// Appends `n` spaces.
pub fn push_spaces(s: &mut String, n: usize)
    ensures
        final(s)@ == old(s)@ + spaces(n as nat),
{
    let ghost start = s@;
    let mut i: usize = 0;
    while i < n
        invariant
            i <= n,
            s@ == start + spaces(i as nat),
        decreases n - i,
    {
        proof { reveal_strlit(" "); }
        s.append(" ");
        i = i + 1;
        assert(s@ =~= start + spaces(i as nat));
    }
}

/// Appends `t` followed by spaces up to width `w`.
pub fn push_pad_end(s: &mut String, t: &str, w: usize)
    ensures
        final(s)@ == old(s)@ + pad_end(t@, w as nat),
{
    let ghost start = s@;
    s.append(t);
    let k = t.unicode_len();
    if k < w {
        push_spaces(s, w - k);
    }
    assert(s@ =~= start + pad_end(t@, w as nat));
}

/// Appends the decimal rendering of `v`, right-aligned in width `w`.
pub fn push_dec_pad_start(s: &mut String, v: u64, w: usize)
    ensures
        final(s)@ == old(s)@ + pad_start(dec(v as nat), w as nat),
{
    let ghost start = s@;
    let mut digits = String::new();
    let k = push_dec(&mut digits, v);
    if k < w {
        push_spaces(s, w - k);
    }
    s.append(digits.as_str());
    assert(s@ =~= start + pad_start(dec(v as nat), w as nat));
}

/// Appends the decimal rendering of `v`, left-aligned in width `w`.
pub fn push_dec_pad_end(s: &mut String, v: u64, w: usize)
    ensures
        final(s)@ == old(s)@ + pad_end(dec(v as nat), w as nat),
{
    let ghost start = s@;
    let k = push_dec(s, v);
    if k < w {
        push_spaces(s, w - k);
    }
    assert(s@ =~= start + pad_end(dec(v as nat), w as nat));
}

/// `10` to the power `k`.
pub open spec fn pow10(k: nat) -> nat
    decreases k,
{
    if k == 0 {
        1
    } else {
        10 * pow10((k - 1) as nat)
    }
}

/// A number below `10^k` (with `k >= 1`) has at most `k` decimal digits.
pub proof fn lemma_dec_len_le(v: nat, k: nat)
    requires
        k >= 1,
        v < pow10(k),
    ensures
        1 <= dec(v).len() <= k,
    decreases k,
{
    if v >= 10 {
        let q = pow10((k - 1) as nat);
        assert(v / 10 < q) by (nonlinear_arith)
            requires
                v < 10 * q,
        ;
        if k == 1 {
            assert(false);
        } else {
            lemma_dec_len_le(v / 10, (k - 1) as nat);
        }
    }
}

/// Any 64-bit value renders in at most twenty decimal digits.
pub proof fn lemma_dec_len_u64(v: nat)
    requires
        v <= u64::MAX,
    ensures
        1 <= dec(v).len() <= 20,
{
    reveal_with_fuel(pow10, 21);
    assert(pow10(20) == 100000000000000000000nat);
    lemma_dec_len_le(v, 20);
}

/// `needle` occurs as a contiguous run somewhere in `hay`.
pub open spec fn contains_text(hay: Seq<char>, needle: Seq<char>) -> bool {
    exists|i: int|
        0 <= i && i + needle.len() <= hay.len() && #[trigger] hay.subrange(i, i + needle.len())
            == needle
}

/// Text occurs in itself followed by anything.
pub proof fn lemma_contains_prefix(x: Seq<char>, y: Seq<char>)
    ensures
        contains_text(x + y, x),
{
    let i: int = 0;
    assert((x + y).subrange(i, i + x.len()) =~= x);
}

/// Text found in a part is found in a concatenation holding that part.
pub proof fn lemma_contains_concat(x: Seq<char>, y: Seq<char>, n: Seq<char>)
    ensures
        contains_text(x, n) ==> contains_text(x + y, n),
        contains_text(y, n) ==> contains_text(x + y, n),
{
    if contains_text(x, n) {
        let i = choose|i: int|
            0 <= i && i + n.len() <= x.len() && #[trigger] x.subrange(i, i + n.len()) == n;
        assert((x + y).subrange(i, i + n.len()) =~= x.subrange(i, i + n.len()));
    }
    if contains_text(y, n) {
        let i = choose|i: int|
            0 <= i && i + n.len() <= y.len() && #[trigger] y.subrange(i, i + n.len()) == n;
        let j = i + x.len();
        assert((x + y).subrange(j, j + n.len()) =~= y.subrange(i, i + n.len()));
    }
}

/// Padding keeps the padded text at the front.
pub proof fn lemma_pad_end_contains(s: Seq<char>, w: nat)
    ensures
        contains_text(pad_end(s, w), s),
{
    if s.len() < w {
        lemma_contains_prefix(s, spaces((w - s.len()) as nat));
    } else {
        lemma_contains_prefix(s, seq![]);
        assert(s + seq![] =~= s);
    }
}

/// `n` zero digits.
pub open spec fn zeros(n: nat) -> Seq<char> {
    Seq::new(n, |i: int| '0')
}

/// `16` to the power `k`.
pub open spec fn pow16(k: nat) -> nat
    decreases k,
{
    if k == 0 {
        1
    } else {
        16 * pow16((k - 1) as nat)
    }
}

/// The fixed-width digits of zero are all zeros.
pub proof fn lemma_hex_fixed_zero(n: nat)
    ensures
        hex_fixed(0, n) == zeros(n),
    decreases n,
{
    if n > 0 {
        lemma_hex_fixed_zero((n - 1) as nat);
        assert(hex_fixed(0, n) =~= zeros(n));
    }
}

/// Zero-filled fixed-width hexadecimal is the plain rendering padded on the
/// left with `0` up to the width (what `{:0n$x}` prints), for every value
/// that fits in the width.
pub proof fn lemma_hex_fixed_is_zero_padded(v: nat, n: nat)
    requires
        n >= 1,
        v < pow16(n),
    ensures
        hex(v).len() <= n,
        hex_fixed(v, n) == zeros((n - hex(v).len()) as nat) + hex(v),
    decreases n,
{
    if n == 0 {
        assert(false);
    } else {
        let q = pow16((n - 1) as nat);
        assert(v / 16 < q) by (nonlinear_arith)
            requires
                v < 16 * q,
        ;
        if v < 16 {
            lemma_hex_fixed_zero((n - 1) as nat);
            assert(v / 16 == 0);
            assert(hex_fixed(v, n) =~= zeros((n - 1) as nat) + hex(v));
        } else {
            if n == 1 {
                assert(q == 1);
                assert(false);
            }
            lemma_hex_fixed_is_zero_padded(v / 16, (n - 1) as nat);
            assert(hex_fixed(v, n) =~= zeros((n - hex(v).len()) as nat) + hex(v));
        }
    }
}

/// The disk signature column: for every 32-bit value, eight zero-filled
/// digits, exactly what `{:#010x}` prints after its `0x`.
pub proof fn lemma_signature_digits(v: u32)
    ensures
        hex_fixed(v as nat, 8).len() == 8,
        hex_fixed(v as nat, 8) == zeros((8 - hex(v as nat).len()) as nat) + hex(v as nat),
{
    reveal_with_fuel(pow16, 9);
    assert(pow16(8) == 0x1_0000_0000nat);
    lemma_hex_fixed_is_zero_padded(v as nat, 8);
}

/// The value of a digit character (its position among the hexadecimal digits).
pub open spec fn digit_value(c: char) -> nat {
    if c == '0' { 0 }
    else if c == '1' { 1 }
    else if c == '2' { 2 }
    else if c == '3' { 3 }
    else if c == '4' { 4 }
    else if c == '5' { 5 }
    else if c == '6' { 6 }
    else if c == '7' { 7 }
    else if c == '8' { 8 }
    else if c == '9' { 9 }
    else if c == 'a' { 10 }
    else if c == 'b' { 11 }
    else if c == 'c' { 12 }
    else if c == 'd' { 13 }
    else if c == 'e' { 14 }
    else { 15 }
}

/// The number that a digit string denotes in base `b`.
pub open spec fn numeral_value(s: Seq<char>, b: nat) -> nat
    decreases s.len(),
{
    if s.len() == 0 {
        0
    } else {
        numeral_value(s.drop_last(), b) * b + digit_value(s.last())
    }
}

/// Reading a digit character back gives the digit.
pub proof fn lemma_digit_value(d: nat)
    requires
        d < 16,
    ensures
        digit_value(digit_char(d)) == d,
{
    assert(hex_alphabet()[0] == '0');
    assert(hex_alphabet()[1] == '1');
    assert(hex_alphabet()[2] == '2');
    assert(hex_alphabet()[3] == '3');
    assert(hex_alphabet()[4] == '4');
    assert(hex_alphabet()[5] == '5');
    assert(hex_alphabet()[6] == '6');
    assert(hex_alphabet()[7] == '7');
    assert(hex_alphabet()[8] == '8');
    assert(hex_alphabet()[9] == '9');
    assert(hex_alphabet()[10] == 'a');
    assert(hex_alphabet()[11] == 'b');
    assert(hex_alphabet()[12] == 'c');
    assert(hex_alphabet()[13] == 'd');
    assert(hex_alphabet()[14] == 'e');
    assert(hex_alphabet()[15] == 'f');
}

/// Reading a decimal rendering back gives the number rendered.
pub proof fn lemma_dec_reads_back(v: nat)
    ensures
        numeral_value(dec(v), 10) == v,
    decreases v,
{
    if v < 10 {
        lemma_digit_value(v);
        assert(dec(v).drop_last() =~= Seq::<char>::empty());
        assert(numeral_value(dec(v).drop_last(), 10) == 0);
        assert(dec(v).last() == digit_char(v));
    } else {
        lemma_dec_reads_back(v / 10);
        lemma_digit_value(v % 10);
        assert(dec(v).drop_last() =~= dec(v / 10));
        assert(dec(v).last() == digit_char(v % 10));
        assert((v / 10) * 10 + v % 10 == v) by (nonlinear_arith);
    }
}

/// Reading a fixed-width hexadecimal rendering back gives the number, for
/// every value that fits in the width.
pub proof fn lemma_hex_fixed_reads_back(v: nat, n: nat)
    requires
        v < pow16(n),
    ensures
        numeral_value(hex_fixed(v, n), 16) == v,
    decreases n,
{
    if n > 0 {
        let q = pow16((n - 1) as nat);
        assert(v / 16 < q) by (nonlinear_arith)
            requires
                v < 16 * q,
        ;
        lemma_hex_fixed_reads_back(v / 16, (n - 1) as nat);
        lemma_digit_value(v % 16);
        assert(hex_fixed(v, n).drop_last() =~= hex_fixed(v / 16, (n - 1) as nat));
        assert(hex_fixed(v, n).last() == digit_char(v % 16));
        assert((v / 16) * 16 + v % 16 == v) by (nonlinear_arith);
    }
}

/// Right alignment keeps the whole text at the end, preceded only by spaces,
/// and the result is as wide as the text or the width, whichever is larger.
pub proof fn law_pad_start_keeps_text(s: Seq<char>, w: nat)
    ensures
        pad_start(s, w).len() == if s.len() < w { w } else { s.len() },
        pad_start(s, w).subrange(pad_start(s, w).len() - s.len(), pad_start(s, w).len() as int)
            == s,
        forall|i: int|
            0 <= i < pad_start(s, w).len() - s.len() ==> #[trigger] pad_start(s, w)[i] == ' ',
{
    let r = pad_start(s, w);
    assert(r.subrange(r.len() - s.len(), r.len() as int) =~= s);
}

/// Left alignment keeps the whole text at the front, followed only by spaces,
/// and the result is as wide as the text or the width, whichever is larger.
pub proof fn law_pad_end_keeps_text(s: Seq<char>, w: nat)
    ensures
        pad_end(s, w).len() == if s.len() < w { w } else { s.len() },
        pad_end(s, w).subrange(0, s.len() as int) == s,
        forall|i: int| s.len() <= i < pad_end(s, w).len() ==> #[trigger] pad_end(s, w)[i] == ' ',
{
    let r = pad_end(s, w);
    assert(r.subrange(0, s.len() as int) =~= s);
}

} // verus!
