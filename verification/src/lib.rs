use vstd::prelude::*;

pub mod graph;
pub mod node;
pub mod queue;

verus! {

pub const KB: u64 = 1024;

pub const MB: u64 = 1024 * 1024;

pub const GB: u64 = 1024 * 1024 * 1024;

/// The decimal digit characters of `n`, most significant first.
pub open spec fn dec_digits(n: nat) -> Seq<char>
    decreases n,
{
    if n < 10 {
        seq![digit_char(n)]
    } else {
        dec_digits(n / 10).push(digit_char(n % 10))
    }
}

pub open spec fn digit_char(d: nat) -> char {
    if d == 0 {
        '0'
    } else if d == 1 {
        '1'
    } else if d == 2 {
        '2'
    } else if d == 3 {
        '3'
    } else if d == 4 {
        '4'
    } else if d == 5 {
        '5'
    } else if d == 6 {
        '6'
    } else if d == 7 {
        '7'
    } else if d == 8 {
        '8'
    } else {
        '9'
    }
}

/// `s` padded on the left with spaces up to `width` characters.
pub open spec fn left_pad(s: Seq<char>, width: nat) -> Seq<char>
    decreases (if s.len() < width { width - s.len() } else { 0 }) when true
{
    if s.len() >= width {
        s
    } else {
        left_pad(seq![' '].add(s), width)
    }
}

/// What `format_size_fixed_int` returns: the byte count scaled to the
/// largest binary unit it reaches, as a right-aligned four-character
/// integer field followed by the unit.
pub open spec fn spec_format_size_fixed_int(bytes: u64) -> Seq<char> {
    if bytes >= GB {
        left_pad(dec_digits((bytes / GB) as nat), 4).add(" GiB"@)
    } else if bytes >= MB {
        left_pad(dec_digits((bytes / MB) as nat), 4).add(" MiB"@)
    } else if bytes >= KB {
        left_pad(dec_digits((bytes / KB) as nat), 4).add(" KiB"@)
    } else {
        left_pad(dec_digits(bytes as nat), 4).add(" B"@)
    }
}

/// One decimal digit as a string.
fn digit_str(d: u64) -> (s: String)
    requires
        d < 10,
    ensures
        s@ =~= seq![digit_char(d as nat)],
{
    let s: &str = if d == 0 {
        "0"
    } else if d == 1 {
        "1"
    } else if d == 2 {
        "2"
    } else if d == 3 {
        "3"
    } else if d == 4 {
        "4"
    } else if d == 5 {
        "5"
    } else if d == 6 {
        "6"
    } else if d == 7 {
        "7"
    } else if d == 8 {
        "8"
    } else {
        "9"
    };
    proof {
        reveal_strlit("0");
        reveal_strlit("1");
        reveal_strlit("2");
        reveal_strlit("3");
        reveal_strlit("4");
        reveal_strlit("5");
        reveal_strlit("6");
        reveal_strlit("7");
        reveal_strlit("8");
        reveal_strlit("9");
    }
    String::from_str(s)
}

/// `n` in decimal.
fn u64_to_dec(n: u64) -> (s: String)
    ensures
        s@ == dec_digits(n as nat),
    decreases n,
{
    if n < 10 {
        let s = digit_str(n);
        assert(s@ =~= dec_digits(n as nat));
        s
    } else {
        let mut s = u64_to_dec(n / 10);
        let d = digit_str(n % 10);
        s.append(d.as_str());
        assert(s@ =~= dec_digits(n as nat));
        s
    }
}

pub open spec fn pow10(k: nat) -> nat
    decreases k,
{
    if k == 0 {
        1
    } else {
        10 * pow10((k - 1) as nat)
    }
}

proof fn lemma_pow10_19()
    ensures
        pow10(19) == 10_000_000_000_000_000_000,
{
    assert(pow10(0) == 1);
    assert(pow10(1) == 10);
    assert(pow10(2) == 100);
    assert(pow10(3) == 1000);
    assert(pow10(4) == 10000);
    assert(pow10(5) == 100000);
    assert(pow10(6) == 1000000);
    assert(pow10(7) == 10000000);
    assert(pow10(8) == 100000000);
    assert(pow10(9) == 1000000000);
    assert(pow10(10) == 10000000000);
    assert(pow10(11) == 100000000000);
    assert(pow10(12) == 1000000000000);
    assert(pow10(13) == 10000000000000);
    assert(pow10(14) == 100000000000000);
    assert(pow10(15) == 1000000000000000);
    assert(pow10(16) == 10000000000000000);
    assert(pow10(17) == 100000000000000000);
    assert(pow10(18) == 1000000000000000000);
    assert(pow10(19) == 10000000000000000000);
}

/// A number below `pow10(k)` has at most `k` decimal digits.
proof fn lemma_dec_digits_len(n: nat, k: nat)
    requires
        n < pow10(k),
        k >= 1,
    ensures
        dec_digits(n).len() <= k,
    decreases k,
{
    if n < 10 {
    } else {
        assert(pow10(0) == 1);
        assert(pow10(1) == 10);
        if k == 1 {
            assert(false);
        }
        assert(pow10(k) == 10 * pow10((k - 1) as nat));
        assert(n / 10 < pow10((k - 1) as nat)) by (nonlinear_arith)
            requires
                n < pow10(k),
                pow10(k) == 10 * pow10((k - 1) as nat),
                n >= 10,
        {
        }
        lemma_dec_digits_len(n / 10, (k - 1) as nat);
    }
}

/// How many decimal digits `n` has.
fn dec_width(n: u64) -> (w: u64)
    ensures
        w as nat == dec_digits(n as nat).len(),
        1 <= w <= 20,
    decreases n,
{
    if n < 10 {
        1
    } else {
        let w = dec_width(n / 10);
        proof {
            lemma_pow10_19();
            assert(((n / 10) as nat) < pow10(19));
            lemma_dec_digits_len((n / 10) as nat, 19);
        }
        w + 1
    }
}

/// The spaces that right-align a `width`-character field to four columns.
fn pad4(width: u64) -> (s: String)
    requires
        width >= 1,
    ensures
        forall|t: Seq<char>| t.len() == width ==> #[trigger] left_pad(t, 4) == s@.add(t),
{
    let s: &str = if width == 1 {
        "   "
    } else if width == 2 {
        "  "
    } else if width == 3 {
        " "
    } else {
        ""
    };
    proof {
        reveal_strlit("   ");
        reveal_strlit("  ");
        reveal_strlit(" ");
        reveal_strlit("");
        assert forall|t: Seq<char>| t.len() == width implies #[trigger] left_pad(t, 4) == s@.add(t) by {
            if width == 1 {
                assert(left_pad(t, 4) == left_pad(seq![' '].add(t), 4));
                assert(left_pad(seq![' '].add(t), 4) == left_pad(seq![' '].add(seq![' '].add(t)), 4));
                assert(left_pad(seq![' '].add(seq![' '].add(t)), 4)
                    == left_pad(seq![' '].add(seq![' '].add(seq![' '].add(t))), 4));
                assert(seq![' '].add(seq![' '].add(seq![' '].add(t))).len() >= 4);
                assert(s@.add(t) =~= seq![' '].add(seq![' '].add(seq![' '].add(t))));
            } else if width == 2 {
                assert(left_pad(t, 4) == left_pad(seq![' '].add(t), 4));
                assert(left_pad(seq![' '].add(t), 4) == left_pad(seq![' '].add(seq![' '].add(t)), 4));
                assert(seq![' '].add(seq![' '].add(t)).len() >= 4);
                assert(s@.add(t) =~= seq![' '].add(seq![' '].add(t)));
            } else if width == 3 {
                assert(left_pad(t, 4) == left_pad(seq![' '].add(t), 4));
                assert(seq![' '].add(t).len() >= 4);
                assert(s@.add(t) =~= seq![' '].add(t));
            } else {
                assert(left_pad(t, 4) == t);
                assert(s@.add(t) =~= t);
            }
        }
    }
    String::from_str(s)
}

/// A right-aligned four-column decimal rendering of `n`.
fn fixed4(n: u64) -> (s: String)
    ensures
        s@ == left_pad(dec_digits(n as nat), 4),
{
    let w = dec_width(n);
    let pad = pad4(w);
    let digits = u64_to_dec(n);
    let s = pad.concat(digits.as_str());
    assert(s@ == left_pad(dec_digits(n as nat), 4));
    s
}

/// Convert a byte count to a fixed-width human-readable string, scaled to
/// the largest binary unit it reaches.
pub fn format_size_fixed_int(bytes: u64) -> (s: String)
    ensures
        s@ == spec_format_size_fixed_int(bytes),
{
    if bytes >= GB {
        fixed4(bytes / GB).concat(" GiB")
    } else if bytes >= MB {
        fixed4(bytes / MB).concat(" MiB")
    } else if bytes >= KB {
        fixed4(bytes / KB).concat(" KiB")
    } else {
        fixed4(bytes).concat(" B")
    }
}

} // verus!
