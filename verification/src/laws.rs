//! What holds of the calculation whatever the building: laws of the model,
//! which the calculator's results obey because its contract equates them
//! with the model.

use vstd::prelude::*;
use crate::calc::CalculationInput;
use crate::calc::CalculationResult;
use crate::calc::Envelope;
use crate::exact::lemma_exact_determined;
use crate::model::milli;
use crate::model::Scenario;

verus! {

/// The answer for an input is determined to the last bit: two results that
/// both answer one input in one envelope are the same value.
pub proof fn lemma_answer_is_unique(
    input: &CalculationInput,
    envelope: Envelope,
    first: CalculationResult,
    second: CalculationResult,
)
    requires
        first.answers(input, envelope),
        second.answers(input, envelope),
    ensures
        first == second,
{
    lemma_exact_determined(
        first.q_total_kwh,
        second.q_total_kwh,
        input.energy_numer(envelope),
        input.energy_denom(envelope),
    );
    lemma_exact_determined(
        first.total_cost,
        second.total_cost,
        input.cost_numer(envelope),
        input.cost_denom(envelope),
    );
}

/// What the calculation reads of an input: two inputs that agree in it have
/// the same envelope, and an answer for one is an answer for the other. Air
/// changes, window area and window type are not among it.
pub proof fn lemma_unread_fields(
    a: &CalculationInput,
    b: &CalculationInput,
    envelope: Envelope,
    result: CalculationResult,
)
    requires
        a.sqft_roof == b.sqft_roof,
        a.sqft_walls == b.sqft_walls,
        a.roof_material_type@ == b.roof_material_type@,
        a.wall_material_type@ == b.wall_material_type@,
        a.ambient_temp_f == b.ambient_temp_f,
        a.t_inside_f == b.t_inside_f,
        a.duration_hours == b.duration_hours,
        a.insulation_r_value@ == b.insulation_r_value@,
        a.electricity_cost_per_kwh == b.electricity_cost_per_kwh,
        result.answers(a, envelope),
    ensures
        a.envelope() == b.envelope(),
        a.scenario(envelope) == b.scenario(envelope),
        result.answers(b, envelope),
{
}

/// The scenario of an input in a well-formed envelope is well-formed, so
/// the laws below hold of it.
pub proof fn lemma_scenario_is_wf(input: &CalculationInput, envelope: Envelope)
    requires
        envelope.wf(),
    ensures
        input.scenario(envelope).wf(),
{
    lemma_milli_sign(input.sqft_roof as int);
    lemma_milli_sign(input.sqft_walls as int);
    lemma_milli_sign(input.electricity_cost_per_kwh as int);
    lemma_milli_sign(envelope.roof.thermal_conductivity as int);
    lemma_milli_sign(envelope.roof.thickness as int);
    lemma_milli_sign(envelope.wall.thermal_conductivity as int);
    lemma_milli_sign(envelope.wall.thickness as int);
    let r = envelope.insulation_r_value_si as real;
    assert(r / 1_000_000 as real >= 0 as real) by (nonlinear_arith)
        requires
            r >= 0 as real,
    ;
}

/// A quantity in thousandths has the sign of its count.
proof fn lemma_milli_sign(x: int)
    ensures
        x >= 0 ==> milli(x) >= 0 as real,
        x > 0 ==> milli(x) > 0 as real,
{
    let r = x as real;
    assert(r >= 0 as real ==> r / 1000 as real >= 0 as real) by (nonlinear_arith);
    assert(r > 0 as real ==> r / 1000 as real > 0 as real) by (nonlinear_arith);
}

/// The heat loss rate has the sign of the temperature difference, and is
/// zero where the difference is zero or there is no surface.
pub proof fn lemma_rate_sign(s: Scenario)
    requires
        s.wf(),
    ensures
        s.roof_area_sqft + s.wall_area_sqft > 0 as real && s.t_inside_f > s.ambient_temp_f
            ==> s.q_rate_total() > 0 as real,
        s.roof_area_sqft + s.wall_area_sqft > 0 as real && s.t_inside_f < s.ambient_temp_f
            ==> s.q_rate_total() < 0 as real,
        s.roof_area_sqft + s.wall_area_sqft == 0 as real || s.t_inside_f == s.ambient_temp_f
            ==> s.q_rate_total() == 0 as real,
{
    lemma_resistance_positive(s);
    lemma_surface_sign(s.roof_area_sqft, s.t_inside_f - s.ambient_temp_f, s.roof.resistance()
        + s.insulation_r_value_si);
    lemma_surface_sign(s.wall_area_sqft, s.t_inside_f - s.ambient_temp_f, s.wall.resistance()
        + s.insulation_r_value_si);
}

/// Both surfaces have a positive series resistance.
proof fn lemma_resistance_positive(s: Scenario)
    requires
        s.wf(),
    ensures
        s.roof.resistance() + s.insulation_r_value_si > 0 as real,
        s.wall.resistance() + s.insulation_r_value_si > 0 as real,
{
    assert(s.roof.thickness / s.roof.thermal_conductivity > 0 as real) by (nonlinear_arith)
        requires
            s.roof.thickness > 0 as real,
            s.roof.thermal_conductivity > 0 as real,
    ;
    assert(s.wall.thickness / s.wall.thermal_conductivity > 0 as real) by (nonlinear_arith)
        requires
            s.wall.thickness > 0 as real,
            s.wall.thermal_conductivity > 0 as real,
    ;
}

/// The sign of one surface's heat loss, given its area in square feet, the
/// temperature difference in Fahrenheit degrees and its series resistance.
proof fn lemma_surface_sign(area: real, gap: real, resistance: real)
    requires
        area >= 0 as real,
        resistance > 0 as real,
    ensures
        ({
            let q = area * (92_903 as real / 1_000_000 as real) * (gap / (1_800 as real
                / 1000 as real)) / resistance;
            &&& area > 0 as real && gap > 0 as real ==> q > 0 as real
            &&& area > 0 as real && gap < 0 as real ==> q < 0 as real
            &&& area == 0 as real || gap == 0 as real ==> q == 0 as real
        }),
{
    let q = area * (92_903 as real / 1_000_000 as real) * (gap / (1_800 as real / 1000 as real))
        / resistance;
    assert(area > 0 as real && gap > 0 as real ==> q > 0 as real) by (nonlinear_arith)
        requires
            resistance > 0 as real,
            q == area * (92_903 as real / 1_000_000 as real) * (gap / (1_800 as real
                / 1000 as real)) / resistance,
    ;
    assert(area > 0 as real && gap < 0 as real ==> q < 0 as real) by (nonlinear_arith)
        requires
            resistance > 0 as real,
            q == area * (92_903 as real / 1_000_000 as real) * (gap / (1_800 as real
                / 1000 as real)) / resistance,
    ;
    assert(area == 0 as real || gap == 0 as real ==> q == 0 as real) by (nonlinear_arith)
        requires
            resistance > 0 as real,
            q == area * (92_903 as real / 1_000_000 as real) * (gap / (1_800 as real
                / 1000 as real)) / resistance,
    ;
}

/// Over no time no energy is lost and nothing is owed, whatever the
/// building.
pub proof fn lemma_zero_duration(s: Scenario)
    requires
        s.duration_hours == 0,
    ensures
        s.q_total_kwh() == 0 as real,
        s.total_cost() == 0 as real,
{
    let rate = s.q_rate_total();
    let price = s.electricity_cost_per_kwh;
    assert(rate * (0 as real) * (3_600 as real) / (3_600_000 as real) == 0 as real)
        by (nonlinear_arith);
    assert((0 as real) * price == 0 as real) by (nonlinear_arith);
}

/// Heat flows by sign: with inside and outside temperature exchanged, the
/// temperature difference, the energy and the cost keep their magnitude and
/// change their sign.
pub proof fn lemma_swapped_temperatures(s: Scenario)
    requires
        s.wf(),
    ensures
        ({
            let t = Scenario { t_inside_f: s.ambient_temp_f, ambient_temp_f: s.t_inside_f, ..s };
            &&& t.delta_t_c() == -s.delta_t_c()
            &&& t.q_total_kwh() == -s.q_total_kwh()
            &&& t.total_cost() == -s.total_cost()
        }),
{
    let t = Scenario { t_inside_f: s.ambient_temp_f, ambient_temp_f: s.t_inside_f, ..s };
    lemma_resistance_positive(s);
    let i = s.t_inside_f;
    let o = s.ambient_temp_f;
    assert((o - i) / (1_800 as real / 1000 as real) == -((i - o) / (1_800 as real
        / 1000 as real))) by (nonlinear_arith);
    lemma_surface_negated(
        s.roof_area_sqft,
        s.delta_t_c(),
        s.roof.resistance() + s.insulation_r_value_si,
    );
    lemma_surface_negated(
        s.wall_area_sqft,
        s.delta_t_c(),
        s.wall.resistance() + s.insulation_r_value_si,
    );
    assert(t.q_rate_total() == -s.q_rate_total());
    let rate = s.q_rate_total();
    let hours = s.duration_hours as real;
    let price = s.electricity_cost_per_kwh;
    assert((-rate) * hours * (3_600 as real) / (3_600_000 as real) == -(rate * hours * (
    3_600 as real) / (3_600_000 as real))) by (nonlinear_arith);
    let energy = s.q_total_kwh();
    assert((-energy) * price == -(energy * price)) by (nonlinear_arith);
}

/// One surface's heat loss changes sign with the temperature difference.
proof fn lemma_surface_negated(area: real, delta: real, resistance: real)
    requires
        resistance > 0 as real,
    ensures
        area * (92_903 as real / 1_000_000 as real) * (-delta) / resistance == -(area * (
        92_903 as real / 1_000_000 as real) * delta / resistance),
{
    assert(area * (92_903 as real / 1_000_000 as real) * (-delta) / resistance == -(area * (
    92_903 as real / 1_000_000 as real) * delta / resistance)) by (nonlinear_arith)
        requires
            resistance > 0 as real,
    ;
}

/// Where it is colder outside than inside and there is a surface to lose
/// heat through, a longer duration loses strictly more energy, and costs
/// strictly more at a positive price. Where it is warmer outside, the energy
/// is negative and a longer duration makes it strictly smaller.
pub proof fn lemma_longer_duration(s: Scenario, hours: nat)
    requires
        s.wf(),
        s.duration_hours < hours,
        s.roof_area_sqft + s.wall_area_sqft > 0 as real,
    ensures
        ({
            let longer = Scenario { duration_hours: hours, ..s };
            &&& s.t_inside_f > s.ambient_temp_f ==> s.q_total_kwh() < longer.q_total_kwh()
            &&& s.t_inside_f > s.ambient_temp_f && s.electricity_cost_per_kwh > 0 as real
                ==> s.total_cost() < longer.total_cost()
            &&& s.t_inside_f < s.ambient_temp_f ==> s.q_total_kwh() > longer.q_total_kwh()
            &&& s.t_inside_f < s.ambient_temp_f && s.electricity_cost_per_kwh > 0 as real
                ==> s.total_cost() > longer.total_cost()
        }),
{
    let longer = Scenario { duration_hours: hours, ..s };
    lemma_rate_sign(s);
    let rate = s.q_rate_total();
    assert(longer.q_rate_total() == rate);
    let h1 = s.duration_hours as real;
    let h2 = hours as real;
    let price = s.electricity_cost_per_kwh;
    let e1 = s.q_total_kwh();
    let e2 = longer.q_total_kwh();
    assert(rate > 0 as real ==> rate * h1 * (3_600 as real) / (3_600_000 as real) < rate * h2 * (
    3_600 as real) / (3_600_000 as real)) by (nonlinear_arith)
        requires
            h1 < h2,
    ;
    assert(rate < 0 as real ==> rate * h1 * (3_600 as real) / (3_600_000 as real) > rate * h2 * (
    3_600 as real) / (3_600_000 as real)) by (nonlinear_arith)
        requires
            h1 < h2,
    ;
    assert(e1 < e2 && price > 0 as real ==> e1 * price < e2 * price) by (nonlinear_arith);
    assert(e1 > e2 && price > 0 as real ==> e1 * price > e2 * price) by (nonlinear_arith);
}

/// A higher price leaves the energy as it is, and makes a positive energy
/// cost strictly more.
pub proof fn lemma_higher_price(s: Scenario, price: real)
    requires
        s.electricity_cost_per_kwh < price,
    ensures
        ({
            let dearer = Scenario { electricity_cost_per_kwh: price, ..s };
            &&& dearer.q_total_kwh() == s.q_total_kwh()
            &&& s.q_total_kwh() > 0 as real ==> s.total_cost() < dearer.total_cost()
            &&& s.q_total_kwh() == 0 as real ==> s.total_cost() == dearer.total_cost()
            &&& s.q_total_kwh() < 0 as real ==> s.total_cost() > dearer.total_cost()
        }),
{
    let energy = s.q_total_kwh();
    let cheaper = s.electricity_cost_per_kwh;
    assert(energy > 0 as real ==> energy * cheaper < energy * price) by (nonlinear_arith)
        requires
            cheaper < price,
    ;
    assert(energy == 0 as real ==> energy * cheaper == energy * price) by (nonlinear_arith);
    assert(energy < 0 as real ==> energy * cheaper > energy * price) by (nonlinear_arith)
        requires
            cheaper < price,
    ;
}

} // verus!
