//! How the integer fractions that the calculator builds relate to the real
//! formulas of the model.

use vstd::prelude::*;
use crate::exact::ratio;
use crate::materials::MaterialProperties;
use crate::model::area_m2;
use crate::model::delta_t_c;
use crate::model::heat_loss;
use crate::model::hours_to_seconds;
use crate::model::joules_to_kwh;
use crate::model::micro;
use crate::model::milli;

verus! {

/// The series resistance of a material with insulation of `r` millionths of
/// a m²·K/W, cleared of fractions: with thickness `t` and conductivity `k`
/// in thousandths, `t / k + r / 10^6` is this number over `10^6 * k`.
pub open spec fn resistance_units(material: MaterialProperties, r: int) -> int {
    1_000_000 * material.thickness + r * material.thermal_conductivity
}

/// The numerator of the heat loss through a surface of `area` thousandths of
/// a square foot, over `surface_denom`. The area contributes 92 903 / 10^9
/// square metres per unit and the temperatures 5 / 9 000 Celsius degrees per
/// unit; 464 515 is 5 times 92 903, and the powers of ten are cancelled
/// against those of the resistance.
pub open spec fn surface_numer(
    area: int,
    t_inside_f: int,
    ambient_temp_f: int,
    material: MaterialProperties,
) -> int {
    464_515 * (t_inside_f - ambient_temp_f) * area * material.thermal_conductivity
}

/// The denominator that goes with `surface_numer`.
pub open spec fn surface_denom(material: MaterialProperties, r: int) -> int {
    9_000_000 * resistance_units(material, r)
}

/// The largest `resistance_units` of any material and insulation.
pub open spec fn resistance_units_max() -> int {
    281_536_216_677_825
}

/// The largest magnitude of `surface_numer` on 32-bit areas and
/// temperatures.
pub open spec fn surface_numer_max() -> int {
    561_555_608_047_471_364_466_678_688_125
}

/// A product of two bounded, non-negative numbers is bounded by the product
/// of the bounds.
pub proof fn lemma_product_bound(x: int, x_max: int, y: int, y_max: int)
    requires
        0 <= x <= x_max,
        0 <= y <= y_max,
    ensures
        0 <= x * y <= x_max * y_max,
{
    assert(0 <= x * y <= x_max * y_max) by (nonlinear_arith)
        requires
            0 <= x <= x_max,
            0 <= y <= y_max,
    ;
}

/// Casting to a real commutes with multiplication.
pub proof fn lemma_real_of_product(a: int, b: int)
    ensures
        (a * b) as real == (a as real) * (b as real),
{
    assert((a * b) as real == (a as real) * (b as real)) by (nonlinear_arith);
}

/// The surface formula on quantities given in thousandths and millionths is
/// the fraction `surface_numer / surface_denom`.
pub proof fn lemma_surface(
    area: int,
    t_inside_f: int,
    ambient_temp_f: int,
    material: MaterialProperties,
    r: int,
)
    requires
        material.wf(),
        r >= 0,
    ensures
        surface_denom(material, r) > 0,
        heat_loss(
            area_m2(milli(area)),
            delta_t_c(milli(t_inside_f), milli(ambient_temp_f)),
            material@,
            micro(r),
        ) == ratio(
            surface_numer(area, t_inside_f, ambient_temp_f, material),
            surface_denom(material, r),
        ),
{
    let k: int = material.thermal_conductivity as int;
    let t: int = material.thickness as int;
    let ar = area as real;
    let ir = t_inside_f as real;
    let or = ambient_temp_f as real;
    let tr = t as real;
    let kr = k as real;
    let rr = r as real;
    assert(r * k >= 0) by (nonlinear_arith)
        requires
            r >= 0,
            k > 0,
    ;
    lemma_real_of_product(464_515, t_inside_f - ambient_temp_f);
    lemma_real_of_product(464_515 * (t_inside_f - ambient_temp_f), area);
    lemma_real_of_product(464_515 * (t_inside_f - ambient_temp_f) * area, k);
    lemma_real_of_product(r, k);
    lemma_real_of_product(9_000_000, resistance_units(material, r));
    assert((ar / 1000 as real) * (92_903 as real / 1_000_000 as real) * ((ir / 1000 as real - or
        / 1000 as real) / (1_800 as real / 1000 as real)) / ((tr / 1000 as real) / (kr
        / 1000 as real) + rr / 1_000_000 as real) == (464_515 as real * (ir - or) * ar * kr) / (
    9_000_000 as real * (1_000_000 as real * tr + rr * kr))) by (nonlinear_arith)
        requires
            kr > 0 as real,
            tr > 0 as real,
            rr >= 0 as real,
    ;
}

/// Two fractions over multiples of one constant add up over the product of
/// what remains.
pub proof fn lemma_sum(n1: int, e1: int, n2: int, e2: int, c: int)
    requires
        e1 > 0,
        e2 > 0,
        c > 0,
    ensures
        c * e1 * e2 > 0,
        ratio(n1, c * e1) + ratio(n2, c * e2) == ratio(n1 * e2 + n2 * e1, c * e1 * e2),
{
    let n1r = n1 as real;
    let n2r = n2 as real;
    let e1r = e1 as real;
    let e2r = e2 as real;
    let cr = c as real;
    assert(c * e1 * e2 > 0) by (nonlinear_arith)
        requires
            e1 > 0,
            e2 > 0,
            c > 0,
    ;
    lemma_real_of_product(c, e1);
    lemma_real_of_product(c, e2);
    lemma_real_of_product(c * e1, e2);
    lemma_real_of_product(n1, e2);
    lemma_real_of_product(n2, e1);
    assert(n1r / (cr * e1r) + n2r / (cr * e2r) == (n1r * e2r + n2r * e1r) / (cr * e1r * e2r))
        by (nonlinear_arith)
        requires
            e1r > 0 as real,
            e2r > 0 as real,
            cr > 0 as real,
    ;
}

/// A rate in watts held for `hours` hours, in kilowatt-hours.
pub proof fn lemma_energy(n: int, d: int, hours: int)
    requires
        d > 0,
    ensures
        ratio(n, d) * (hours as real) * hours_to_seconds() / joules_to_kwh() == ratio(
            n * hours,
            1000 * d,
        ),
{
    let nr = n as real;
    let dr = d as real;
    let hr = hours as real;
    lemma_real_of_product(n, hours);
    lemma_real_of_product(1000, d);
    assert(nr / dr * hr * 3_600 as real / 3_600_000 as real == (nr * hr) / (1000 as real * dr))
        by (nonlinear_arith)
        requires
            dr > 0 as real,
    ;
}

/// An energy at a price given in thousandths.
pub proof fn lemma_cost(n: int, d: int, price: int)
    requires
        d > 0,
    ensures
        ratio(n, d) * milli(price) == ratio(n * price, 1000 * d),
{
    let nr = n as real;
    let dr = d as real;
    let pr = price as real;
    lemma_real_of_product(n, price);
    lemma_real_of_product(1000, d);
    assert(nr / dr * (pr / 1000 as real) == (nr * pr) / (1000 as real * dr)) by (nonlinear_arith)
        requires
            dr > 0 as real,
    ;
}

} // verus!
