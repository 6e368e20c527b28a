//! Sizes of images and of files, and how they are shown.

use vstd::prelude::*;
use vstd::arithmetic::div_mod::{lemma_div_denominator, lemma_fundamental_div_mod,
    lemma_mod_multiples_basic};
use crate::text::{decimal, push_decimal};

verus! {

/// `d` divides `n`.
pub open spec fn divides(d: int, n: int) -> bool {
    d != 0 && n % d == 0
}

/// `g` is the greatest common divisor of `a` and `b`: zero where both are
/// zero, and otherwise the greatest number that divides both.
pub open spec fn is_gcd(a: nat, b: nat, g: nat) -> bool {
    if a == 0 && b == 0 {
        g == 0
    } else {
        &&& g > 0
        &&& divides(g as int, a as int)
        &&& divides(g as int, b as int)
        &&& forall|d: int| d > 0 && divides(d, a as int) && divides(d, b as int) ==> d <= g
    }
}

/// What divides two numbers divides their sum with any multiple of the
/// first.
proof fn lemma_divides_combination(d: int, x: int, k: int, y: int)
    requires
        d > 0,
        divides(d, x),
        divides(d, y),
    ensures
        divides(d, x * k + y),
{
    lemma_fundamental_div_mod(x, d);
    lemma_fundamental_div_mod(y, d);
    let m = (x / d) * k + y / d;
    assert(x * k + y == m * d) by (nonlinear_arith)
        requires
            x == d * (x / d),
            y == d * (y / d),
            m == (x / d) * k + y / d,
    ;
    lemma_mod_multiples_basic(m, d);
}

/// A divisor of a positive number is no greater than the number.
proof fn lemma_divisor_is_smaller(d: int, g: int)
    requires
        d > 0,
        g > 0,
        divides(d, g),
    ensures
        d <= g,
{
    lemma_fundamental_div_mod(g, d);
    assert(d <= g) by (nonlinear_arith)
        requires
            g == d * (g / d),
            g > 0,
            d > 0,
    ;
}

/// Every common divisor of `a` and `b` divides `g`.
pub open spec fn absorbs_common_divisors(a: nat, b: nat, g: nat) -> bool {
    forall|d: int| d > 0 && divides(d, a as int) && divides(d, b as int) ==> divides(d, g as int)
}

/// Greatest common divisor.
pub fn gcd(a: u32, b: u32) -> (g: u32)
    ensures
        is_gcd(a as nat, b as nat, g as nat),
        absorbs_common_divisors(a as nat, b as nat, g as nat),
    decreases b,
{
    if b == 0 {
        proof {
            if a > 0 {
                lemma_mod_multiples_basic(1, a as int);
                assert forall|d: int|
                    d > 0 && divides(d, a as int) && divides(d, b as int) implies d <= a by {
                    lemma_divisor_is_smaller(d, a as int);
                }
            }
        }
        a
    } else {
        let g = gcd(b, a % b);
        proof {
            let r = (a % b) as int;
            lemma_fundamental_div_mod(a as int, b as int);
            assert(a as int == (b as int) * (a as int / b as int) + r);
            lemma_divides_combination(g as int, b as int, a as int / b as int, r);
            assert forall|d: int|
                d > 0 && divides(d, a as int) && divides(d, b as int) implies divides(
                d,
                g as int,
            ) by {
                lemma_divides_combination(d, b as int, -(a as int / b as int), a as int);
                assert((b as int) * (-(a as int / b as int)) + a as int == r) by (nonlinear_arith)
                    requires
                        a as int == (b as int) * (a as int / b as int) + r,
                ;
            }
            assert forall|d: int|
                d > 0 && divides(d, a as int) && divides(d, b as int) implies d <= g by {
                lemma_divisor_is_smaller(d, g as int);
            }
        }
        g
    }
}

/// The name of a reduced aspect ratio: the usual name where it has one, and
/// otherwise the two numbers with a colon between them.
pub open spec fn ratio_name(w: nat, h: nat) -> Seq<char> {
    if (w == 16 && h == 9) || (w == 32 && h == 18) || (w == 64 && h == 36) {
        "16:9"@
    } else if (w == 21 && h == 9) || (w == 64 && h == 27) {
        "21:9"@
    } else if (w == 16 && h == 10) || (w == 8 && h == 5) {
        "16:10"@
    } else if w == 4 && h == 3 {
        "4:3"@
    } else if w == 1 && h == 1 {
        "1:1"@
    } else {
        decimal(w) + ":"@ + decimal(h)
    }
}

/// The aspect ratio of an image as text, such as "16:9": the name of the
/// two sides divided by their greatest common divisor.
pub fn aspect_ratio_str(width: u32, height: u32) -> (r: String)
    requires
        width != 0 || height != 0,
    ensures
        exists|g: nat|
            is_gcd(width as nat, height as nat, g) && r@ == ratio_name(
                width as nat / g,
                height as nat / g,
            ),
{
    let g = gcd(width, height);
    let w = width / g;
    let h = height / g;
    let r = if (w == 16 && h == 9) || (w == 32 && h == 18) || (w == 64 && h == 36) {
        String::from_str("16:9")
    } else if (w == 21 && h == 9) || (w == 64 && h == 27) {
        String::from_str("21:9")
    } else if (w == 16 && h == 10) || (w == 8 && h == 5) {
        String::from_str("16:10")
    } else if w == 4 && h == 3 {
        String::from_str("4:3")
    } else if w == 1 && h == 1 {
        String::from_str("1:1")
    } else {
        let mut r = String::new();
        push_decimal(&mut r, w as u64);
        r.append(":");
        push_decimal(&mut r, h as u64);
        r
    };
    assert(r@ =~= ratio_name(width as nat / (g as nat), height as nat / (g as nat)));
    r
}

/// Size presets for image generation.
#[derive(Debug, Clone, Copy, PartialEq, Eq, Structural)]
pub enum SizePreset {
    /// 1920 by 1080.
    Hd,
    /// 2560 by 1440.
    Qhd,
    /// 2560 by 1600.
    Laptop,
    /// 3840 by 2160.
    Uhd4k,
    /// 5120 by 2160.
    Ultrawide,
    Custom(u32, u32),
}

impl SizePreset {
    /// The width and height of the preset.
    pub open spec fn size(self) -> (u32, u32) {
        match self {
            SizePreset::Hd => (1920u32, 1080u32),
            SizePreset::Qhd => (2560u32, 1440u32),
            SizePreset::Laptop => (2560u32, 1600u32),
            SizePreset::Uhd4k => (3840u32, 2160u32),
            SizePreset::Ultrawide => (5120u32, 2160u32),
            SizePreset::Custom(w, h) => (w, h),
        }
    }

    /// The name of the preset.
    pub open spec fn label(self) -> Seq<char> {
        match self {
            SizePreset::Hd => "HD (1920x1080)"@,
            SizePreset::Qhd => "QHD (2560x1440)"@,
            SizePreset::Laptop => "Laptop (2560x1600)"@,
            SizePreset::Uhd4k => "4K UHD (3840x2160)"@,
            SizePreset::Ultrawide => "Ultrawide (5120x2160)"@,
            SizePreset::Custom(_, _) => "Custom"@,
        }
    }

    /// The presets that have a name of their own, smallest first.
    pub open spec fn named() -> Seq<SizePreset> {
        seq![
            SizePreset::Hd,
            SizePreset::Qhd,
            SizePreset::Laptop,
            SizePreset::Uhd4k,
            SizePreset::Ultrawide,
        ]
    }

    /// The width and height of the preset.
    pub fn dimensions(&self) -> (r: (u32, u32))
        ensures
            r == self.size(),
    {
        match self {
            SizePreset::Hd => (1920, 1080),
            SizePreset::Qhd => (2560, 1440),
            SizePreset::Laptop => (2560, 1600),
            SizePreset::Uhd4k => (3840, 2160),
            SizePreset::Ultrawide => (5120, 2160),
            SizePreset::Custom(w, h) => (*w, *h),
        }
    }

    /// The name of the preset.
    pub fn name(&self) -> (r: &'static str)
        ensures
            r@ == self.label(),
    {
        match self {
            SizePreset::Hd => "HD (1920x1080)",
            SizePreset::Qhd => "QHD (2560x1440)",
            SizePreset::Laptop => "Laptop (2560x1600)",
            SizePreset::Uhd4k => "4K UHD (3840x2160)",
            SizePreset::Ultrawide => "Ultrawide (5120x2160)",
            SizePreset::Custom(_, _) => "Custom",
        }
    }

    /// The presets that have a name of their own, smallest first.
    pub fn all() -> (r: Vec<SizePreset>)
        ensures
            r@ == SizePreset::named(),
    {
        let mut r: Vec<SizePreset> = Vec::new();
        r.push(SizePreset::Hd);
        r.push(SizePreset::Qhd);
        r.push(SizePreset::Laptop);
        r.push(SizePreset::Uhd4k);
        r.push(SizePreset::Ultrawide);
        assert(r@ =~= SizePreset::named());
        r
    }

    /// The preset written as `<width>x<height>`.
    pub fn to_text(&self) -> (r: String)
        ensures
            r@ == decimal(self.size().0 as nat) + "x"@ + decimal(self.size().1 as nat),
    {
        let (w, h) = self.dimensions();
        let mut r = String::new();
        push_decimal(&mut r, w as u64);
        r.append("x");
        push_decimal(&mut r, h as u64);
        r
    }
}

/// The number of bytes in a kilobyte.
pub const KB: u64 = 1024;

/// The number of bytes in a megabyte.
pub const MB: u64 = 1_048_576;

/// The number of bytes in a gigabyte.
pub const GB: u64 = 1_073_741_824;

/// The least number that takes more than 53 binary digits.
pub const FLOAT_EXACT_LIMIT: u64 = 0x20_0000_0000_0000;

/// `n / d` as the nearest whole number; a quotient half-way between two
/// whole numbers goes to the even one.
pub open spec fn rounded_quotient(n: nat, d: nat) -> nat {
    let q = n / d;
    let r = n % d;
    if 2 * r > d || (2 * r == d && q % 2 == 1) {
        q + 1
    } else {
        q
    }
}

/// The step between the double-precision numbers around `n`: one up to 53
/// binary digits, and twice as much for every digit more.
pub open spec fn float_unit(n: nat) -> nat
    decreases n,
{
    if n < FLOAT_EXACT_LIMIT {
        1
    } else {
        2 * float_unit(n / 2)
    }
}

/// The double-precision number nearest to `n`, which is what a size is
/// shown from: `n` itself up to 53 binary digits, and otherwise `n` rounded
/// to the nearest multiple of the step around it.
pub open spec fn float_value(n: nat) -> nat {
    rounded_quotient(n, float_unit(n)) * float_unit(n)
}

/// `n / unit` written with one decimal place.
pub open spec fn one_decimal(n: nat, unit: nat) -> Seq<char> {
    let tenths = rounded_quotient(10 * float_value(n), unit);
    decimal(tenths / 10) + "."@ + decimal(tenths % 10)
}

/// `n / unit` written as a whole number.
pub open spec fn no_decimal(n: nat, unit: nat) -> Seq<char> {
    decimal(rounded_quotient(float_value(n), unit))
}

/// A number of bytes in the largest unit that it fills, with one decimal
/// place; below a kilobyte, in bytes.
pub open spec fn human_size_text(bytes: nat) -> Seq<char> {
    if bytes >= GB {
        one_decimal(bytes, GB as nat) + " GB"@
    } else if bytes >= MB {
        one_decimal(bytes, MB as nat) + " MB"@
    } else if bytes >= KB {
        one_decimal(bytes, KB as nat) + " KB"@
    } else {
        decimal(bytes) + " B"@
    }
}

/// `n / d` as the nearest whole number, halves to the even one.
pub fn round_div(n: u128, d: u128) -> (r: u128)
    requires
        0 < d <= u64::MAX,
    ensures
        r == rounded_quotient(n as nat, d as nat),
        r <= n / d + 1,
{
    let q = n / d;
    let r = n % d;
    if 2 * r > d || (2 * r == d && q % 2 == 1) {
        proof {
            let ni = n as int;
            let di = d as int;
            lemma_fundamental_div_mod(ni, di);
            assert(ni / di < ni) by (nonlinear_arith)
                requires
                    ni == di * (ni / di) + ni % di,
                    ni % di > 0,
                    ni / di >= 0,
                    di > 0,
            ;
        }
        q + 1
    } else {
        q
    }
}

/// The step between the double-precision numbers around `n`.
pub fn float_step(n: u64) -> (unit: u64)
    ensures
        unit == float_unit(n as nat),
        1 <= unit <= 2048,
        n / unit < FLOAT_EXACT_LIMIT,
{
    let mut m: u64 = n;
    let mut unit: u64 = 1;
    while m >= FLOAT_EXACT_LIMIT
        invariant
            unit == 1 || unit == 2 || unit == 4 || unit == 8 || unit == 16 || unit == 32 || unit
                == 64 || unit == 128 || unit == 256 || unit == 512 || unit == 1024 || unit
                == 2048,
            unit * float_unit(m as nat) == float_unit(n as nat),
            m == n / unit,
        decreases m,
    {
        proof {
            let ni = n as int;
            let ui = unit as int;
            lemma_fundamental_div_mod(ni, ui);
            assert(ui < 2048) by (nonlinear_arith)
                requires
                    ni / ui >= 0x20_0000_0000_0000,
                    ni == ui * (ni / ui) + ni % ui,
                    0 <= ni % ui,
                    ni <= 0xFFFF_FFFF_FFFF_FFFF,
                    ui >= 1,
            ;
            lemma_div_denominator(ni, ui, 2);
            assert(ui * (2 * float_unit((m / 2) as nat)) == (ui * 2) * float_unit((m / 2) as nat))
                by (nonlinear_arith);
        }
        m = m / 2;
        unit = unit * 2;
    }
    assert(unit * 1 == unit);
    unit
}

/// The double-precision number nearest to `n`.
pub fn nearest_float(n: u64) -> (r: u128)
    ensures
        r == float_value(n as nat),
        r <= 0x1_0000_0000_0000_0000,
{
    let unit = float_step(n);
    let q = round_div(n as u128, unit as u128);
    proof {
        let qi = q as int;
        let ui = unit as int;
        assert(qi * ui <= 0x1_0000_0000_0000_0000) by (nonlinear_arith)
            requires
                0 <= qi <= 0x20_0000_0000_0000,
                1 <= ui <= 2048,
        ;
    }
    q * (unit as u128)
}

/// A quotient by two or more is at most half the number.
proof fn lemma_half_bound(n: int, d: int)
    requires
        0 <= n,
        2 <= d,
    ensures
        2 * (n / d) <= n,
{
    lemma_fundamental_div_mod(n, d);
    assert(2 * (n / d) <= n) by (nonlinear_arith)
        requires
            n == d * (n / d) + n % d,
            0 <= n % d,
            0 <= n / d,
            2 <= d,
    ;
}

/// Appends `n / unit` with one decimal place.
pub fn push_one_decimal(out: &mut String, n: u64, unit: u64)
    requires
        unit >= 2,
    ensures
        final(out)@ == old(out)@ + one_decimal(n as nat, unit as nat),
{
    let value = nearest_float(n);
    let tenths = round_div(10 * value, unit as u128);
    proof {
        lemma_half_bound((10 * value) as int, unit as int);
    }
    let whole: u64 = (tenths / 10) as u64;
    let tenth: u64 = (tenths % 10) as u64;
    push_decimal(out, whole);
    out.append(".");
    push_decimal(out, tenth);
    assert(out@ =~= old(out)@ + one_decimal(n as nat, unit as nat));
}

/// Appends `n / unit` as a whole number.
pub fn push_no_decimal(out: &mut String, n: u64, unit: u64)
    requires
        unit >= 2,
    ensures
        final(out)@ == old(out)@ + no_decimal(n as nat, unit as nat),
{
    let value = nearest_float(n);
    let whole = round_div(value, unit as u128);
    proof {
        lemma_half_bound(value as int, unit as int);
    }
    push_decimal(out, whole as u64);
}

/// A number of bytes as people read it.
pub fn human_size(bytes: u64) -> (r: String)
    ensures
        r@ == human_size_text(bytes as nat),
{
    let mut r = String::new();
    if bytes >= GB {
        push_one_decimal(&mut r, bytes, GB);
        r.append(" GB");
    } else if bytes >= MB {
        push_one_decimal(&mut r, bytes, MB);
        r.append(" MB");
    } else if bytes >= KB {
        push_one_decimal(&mut r, bytes, KB);
        r.append(" KB");
    } else {
        push_decimal(&mut r, bytes);
        r.append(" B");
    }
    assert(r@ =~= human_size_text(bytes as nat));
    r
}

} // verus!
