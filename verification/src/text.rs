//! Numbers and names as the interface prints them: byte counts in the
//! statistics, shortcut hints on the tool rail, and key names.

use vstd::prelude::*;
use vstd::arithmetic::div_mod::lemma_div_denominator;

verus! {

/// The character for a decimal digit.
pub open spec fn digit_char(d: nat) -> char {
    if d == 0 {
        '0'
    } else if d == 1 {
        '1'
    } else if d == 2 {
        '2'
    } else if d == 3 {
        '3'
    } else if d == 4 {
        '4'
    } else if d == 5 {
        '5'
    } else if d == 6 {
        '6'
    } else if d == 7 {
        '7'
    } else if d == 8 {
        '8'
    } else {
        '9'
    }
}

/// A number written out in decimal, without leading zeros.
pub open spec fn decimal(n: nat) -> Seq<char>
    decreases n,
{
    if n < 10 {
        seq![digit_char(n)]
    } else {
        decimal(n / 10) + seq![digit_char(n % 10)]
    }
}

/// Numbers of one digit are written with one character, longer ones with more.
pub proof fn decimal_length(n: nat)
    ensures
        decimal(n).len() >= 1,
        decimal(n).len() == 1 <==> n < 10,
    decreases n,
{
    if n >= 10 {
        decimal_length(n / 10);
    }
}

proof fn digit_char_injective(x: nat, y: nat)
    requires
        x < 10,
        y < 10,
        digit_char(x) == digit_char(y),
    ensures
        x == y,
{
}

/// Different numbers are written differently.
pub proof fn decimal_injective(a: nat, b: nat)
    requires
        decimal(a) == decimal(b),
    ensures
        a == b,
    decreases a,
{
    decimal_length(a);
    decimal_length(b);
    if a < 10 {
        assert(b < 10);
        assert(decimal(a)[0] == digit_char(a));
        assert(decimal(b)[0] == digit_char(b));
        digit_char_injective(a, b);
    } else {
        let (da, db) = (decimal(a), decimal(b));
        assert(da.last() == digit_char(a % 10));
        assert(db.last() == digit_char(b % 10));
        assert(da.drop_last() =~= decimal(a / 10));
        assert(db.drop_last() =~= decimal(b / 10));
        decimal_injective(a / 10, b / 10);
        digit_char_injective(a % 10, b % 10);
        assert(a == 10 * (a / 10) + a % 10);
        assert(b == 10 * (b / 10) + b % 10);
    }
}

/// One decimal digit as text.
fn digit(d: u128) -> (r: &'static str)
    requires
        d < 10,
    ensures
        r@ == seq![digit_char(d as nat)],
{
    match d {
        0 => {
            proof {
                reveal_strlit("0");
            }
            "0"
        },
        1 => {
            proof {
                reveal_strlit("1");
            }
            "1"
        },
        2 => {
            proof {
                reveal_strlit("2");
            }
            "2"
        },
        3 => {
            proof {
                reveal_strlit("3");
            }
            "3"
        },
        4 => {
            proof {
                reveal_strlit("4");
            }
            "4"
        },
        5 => {
            proof {
                reveal_strlit("5");
            }
            "5"
        },
        6 => {
            proof {
                reveal_strlit("6");
            }
            "6"
        },
        7 => {
            proof {
                reveal_strlit("7");
            }
            "7"
        },
        8 => {
            proof {
                reveal_strlit("8");
            }
            "8"
        },
        _ => {
            proof {
                reveal_strlit("9");
            }
            "9"
        },
    }
}

/// A number written out in decimal.
pub(crate) fn decimal_string(n: u128) -> (r: String)
    ensures
        r@ == decimal(n as nat),
{
    let mut acc = String::from_str(digit(n % 10));
    let mut m = n / 10;
    while m > 0
        invariant
            decimal(n as nat) == (if m > 0 {
                decimal(m as nat)
            } else {
                Seq::<char>::empty()
            }) + acc@,
        decreases m,
    {
        let d = String::from_str(digit(m % 10));
        proof {
            assert(decimal(m as nat) == (if m / 10 > 0 {
                decimal((m / 10) as nat)
            } else {
                Seq::<char>::empty()
            }) + seq![digit_char((m % 10) as nat)]);
        }
        acc = d.concat(acc.as_str());
        m = m / 10;
    }
    acc
}


/// The nearest whole number to `a / b`, a tie going to the even one.
pub open spec fn round_half_even(a: nat, b: nat) -> nat {
    let q = a / b;
    let r = a % b;
    if 2 * r > b || (2 * r == b && q % 2 == 1) {
        q + 1
    } else {
        q
    }
}

/// The gap between neighbouring doubles around `n`: one below 2^53, and
/// twice as wide for every bit beyond.
pub open spec fn double_spacing(n: nat) -> nat
    decreases n,
{
    if n < 0x20_0000_0000_0000 {
        1
    } else {
        2 * double_spacing(n / 2)
    }
}

/// The whole number a double holds when `n` is converted to one: the nearest
/// multiple of the spacing, a tie going to the even multiple.
pub open spec fn as_double(n: nat) -> nat {
    round_half_even(n, double_spacing(n)) * double_spacing(n)
}

/// A byte count as the statistics print it: exact below a kilobyte, whole
/// kilobytes below a megabyte, and megabytes to one decimal beyond.
pub open spec fn bytes_text(n: nat) -> Seq<char> {
    if n == 0 {
        "none"@
    } else if n < 1024 {
        decimal(n) + " B"@
    } else if n < 1024 * 1024 {
        decimal(round_half_even(n, 1024)) + " kB"@
    } else {
        let tenths = round_half_even(as_double(n) * 10, 1024 * 1024);
        decimal(tenths / 10) + "."@ + decimal(tenths % 10) + " MB"@
    }
}

fn round_half_even_exec(a: u128, b: u128) -> (r: u128)
    requires
        b > 0,
    ensures
        r == round_half_even(a as nat, b as nat),
{
    let q = a / b;
    let rest = a % b;
    if rest > b - rest || (rest == b - rest && q % 2 == 1) {
        proof {
            assert(a == b * q + rest) by (nonlinear_arith)
                requires
                    q == a / b,
                    rest == a % b,
                    b > 0,
            ;
            if q == u128::MAX {
                assert(b * q >= q) by (nonlinear_arith)
                    requires
                        b > 0,
                        q >= 0,
                ;
            }
        }
        q + 1
    } else {
        q
    }
}

/// Human-readable byte count for the statistics readout.
pub fn format_bytes(n: u64) -> (r: String)
    ensures
        r@ == bytes_text(n as nat),
{
    if n == 0 {
        return String::from_str("none");
    }
    if n < 1024 {
        return decimal_string(n as u128).concat(" B");
    }
    if n < 1024 * 1024 {
        let k = round_half_even_exec(n as u128, 1024);
        proof {
            assert(k <= 1024) by (nonlinear_arith)
                requires
                    k == round_half_even(n as nat, 1024),
                    n < 1024 * 1024,
            ;
        }
        return decimal_string(k).concat(" kB");
    }
    // Megabytes go through a double, so a count past 2^53 is first rounded
    // to the nearest value a double holds.
    let mut spacing: u64 = 1;
    let mut m: u64 = n;
    while m >= 0x20_0000_0000_0000
        invariant
            spacing > 0,
            spacing < 4096,
            m == n / spacing,
            double_spacing(n as nat) == spacing * double_spacing(m as nat),
        decreases m,
    {
        proof {
            assert(n >= spacing * 0x20_0000_0000_0000) by (nonlinear_arith)
                requires
                    m == n / spacing,
                    spacing > 0,
                    m >= 0x20_0000_0000_0000,
            ;
            assert(spacing < 2048) by (nonlinear_arith)
                requires
                    n >= spacing * 0x20_0000_0000_0000,
                    n < 0x1_0000_0000_0000_0000u128,
            ;
            lemma_div_denominator(n as int, spacing as int, 2);
            assert(double_spacing(m as nat) == 2 * double_spacing((m / 2) as nat));
            assert(spacing * (2 * double_spacing((m / 2) as nat)) == (spacing * 2)
                * double_spacing((m / 2) as nat)) by (nonlinear_arith);
        }
        m = m / 2;
        spacing = spacing * 2;
    }
    let k = round_half_even_exec(n as u128, spacing as u128);
    proof {
        assert(k <= n as u128 + 1) by (nonlinear_arith)
            requires
                k == round_half_even(n as nat, spacing as nat),
                spacing > 0,
        ;
    }
    proof {
        assert(k * (spacing as u128) <= (0x1_0000_0000_0000_0000u128) * 4096) by (nonlinear_arith)
            requires
                k <= n + 1,
                n < 0x1_0000_0000_0000_0000u128,
                spacing < 4096,
        ;
        assert(double_spacing(m as nat) == 1);
        assert(double_spacing(n as nat) == spacing) by (nonlinear_arith)
            requires
                double_spacing(n as nat) == spacing * double_spacing(m as nat),
                double_spacing(m as nat) == 1,
        ;
    }
    let held = k * (spacing as u128);
    let tenths = round_half_even_exec(held * 10, 1024 * 1024);
    let t = tenths;
    let whole = decimal_string(t / 10);
    let frac = decimal_string(t % 10);
    let r = whole.concat(".").concat(frac.as_str()).concat(" MB");
    proof {
        assert(as_double(n as nat) == held);
        assert(r@ =~= decimal((t / 10) as nat) + "."@ + decimal((t % 10) as nat) + " MB"@);
    }
    r
}


/// The shortcut shown for the nth tool: the digits one to nine and nought,
/// then shift with the first six digits, and nothing past those.
pub open spec fn shortcut_text(index: nat) -> Seq<char> {
    if index <= 8 {
        decimal(index + 1)
    } else if index == 9 {
        "0"@
    } else if index <= 15 {
        "Shift+"@ + decimal((index - 9) as nat)
    } else {
        "-"@
    }
}

/// Keyboard shortcut shown for the nth tool.
pub fn shortcut_for(index: usize) -> (r: String)
    ensures
        r@ == shortcut_text(index as nat),
{
    if index <= 8 {
        decimal_string(index as u128 + 1)
    } else if index == 9 {
        String::from_str("0")
    } else if index <= 15 {
        String::from_str("Shift+").concat(decimal_string(index as u128 - 9).as_str())
    } else {
        String::from_str("-")
    }
}

/// Whether `s` begins with `p`.
pub open spec fn has_prefix(s: Seq<char>, p: Seq<char>) -> bool {
    p.len() <= s.len() && s.take(p.len() as int) == p
}

/// A key's name as the shortcut list shows it, from the name the windowing
/// layer gives it: `KeyA` is `A`, `Digit1` is `1`, `Numpad5` is `Numpad 5`,
/// and anything else is left as it is.
pub open spec fn key_text(raw: Seq<char>) -> Seq<char> {
    if has_prefix(raw, "Key"@) {
        raw.skip(("Key"@).len() as int)
    } else if has_prefix(raw, "Digit"@) {
        raw.skip(("Digit"@).len() as int)
    } else if has_prefix(raw, "Numpad"@) {
        "Numpad "@ + raw.skip(("Numpad"@).len() as int)
    } else {
        raw
    }
}

fn starts_with(s: &str, p: &str) -> (r: bool)
    ensures
        r == has_prefix(s@, p@),
{
    let n = s.unicode_len();
    let k = p.unicode_len();
    if k > n {
        return false;
    }
    let mut i: usize = 0;
    while i < k
        invariant
            k == p@.len(),
            n == s@.len(),
            k <= n,
            i <= k,
            forall|j: int| 0 <= j < i ==> s@[j] == p@[j],
        decreases k - i,
    {
        if s.get_char(i) != p.get_char(i) {
            proof {
                assert(s@.take(k as int)[i as int] != p@[i as int]);
            }
            return false;
        }
        i = i + 1;
    }
    proof {
        assert(s@.take(k as int) =~= p@);
    }
    true
}

/// What follows a prefix the string is known to start with.
fn after_prefix(s: &str, p: &str) -> (r: String)
    requires
        has_prefix(s@, p@),
    ensures
        r@ == s@.skip(p@.len() as int),
{
    let n = s.unicode_len();
    let k = p.unicode_len();
    let rest = s.substring_char(k, n);
    proof {
        assert(rest@ =~= s@.skip(p@.len() as int));
    }
    String::from_str(rest)
}

/// A readable name for a key, for the shortcut display.
pub fn key_name(raw: &str) -> (r: String)
    ensures
        r@ == key_text(raw@),
{
    if starts_with(raw, "Key") {
        after_prefix(raw, "Key")
    } else if starts_with(raw, "Digit") {
        after_prefix(raw, "Digit")
    } else if starts_with(raw, "Numpad") {
        String::from_str("Numpad ").concat(after_prefix(raw, "Numpad").as_str())
    } else {
        String::from_str(raw)
    }
}


/// The status line after closing holes: none, one, or how many.
pub open spec fn holes_text(n: nat) -> Seq<char> {
    if n == 0 {
        "no holes to close"@
    } else if n == 1 {
        "closed one hole"@
    } else {
        "closed "@ + decimal(n) + " holes"@
    }
}

/// The status line after closing holes.
pub fn holes_message(n: usize) -> (r: String)
    ensures
        r@ == holes_text(n as nat),
{
    if n == 0 {
        String::from_str("no holes to close")
    } else if n == 1 {
        String::from_str("closed one hole")
    } else {
        String::from_str("closed ").concat(decimal_string(n as u128).as_str()).concat(" holes")
    }
}

/// The status line after a change of resolution: the triangle count before
/// and after.
pub open spec fn triangles_text(before: nat, after: nat) -> Seq<char> {
    decimal(before) + " to "@ + decimal(after) + " triangles"@
}

/// The status line after subdividing or decimating.
pub fn triangles_message(before: usize, after: usize) -> (r: String)
    ensures
        r@ == triangles_text(before as nat, after as nat),
{
    decimal_string(before as u128).concat(" to ").concat(decimal_string(after as u128).as_str()).concat(
        " triangles",
    )
}

/// The status line after a voxel remesh.
pub open spec fn remeshed_text(n: nat) -> Seq<char> {
    "remeshed to "@ + decimal(n) + " triangles"@
}

/// The status line after a voxel remesh.
pub fn remeshed_message(n: usize) -> (r: String)
    ensures
        r@ == remeshed_text(n as nat),
{
    String::from_str("remeshed to ").concat(decimal_string(n as u128).as_str()).concat(" triangles")
}

/// The status line on turning voxel sculpting on: the triangles before, and
/// after the trip through the field.
pub open spec fn voxel_on_text(before: nat, after: nat) -> Seq<char> {
    "voxel on: "@ + decimal(before) + " triangles -> field -> "@ + decimal(after) + " triangles"@
}

/// The status line on turning voxel sculpting on.
pub fn voxel_on_message(before: usize, after: usize) -> (r: String)
    ensures
        r@ == voxel_on_text(before as nat, after as nat),
{
    String::from_str("voxel on: ").concat(decimal_string(before as u128).as_str()).concat(
        " triangles -> field -> ",
    ).concat(decimal_string(after as u128).as_str()).concat(" triangles")
}

} // verus!
