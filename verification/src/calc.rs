//! The calculator: from an input record to energy and cost, or to the reason
//! why the record is not valid.

use vstd::prelude::*;
use crate::algebra::lemma_cost;
use crate::algebra::lemma_energy;
use crate::algebra::lemma_product_bound;
use crate::algebra::lemma_sum;
use crate::algebra::lemma_surface;
use crate::algebra::resistance_units;
use crate::algebra::resistance_units_max;
use crate::algebra::surface_numer_max;
use crate::algebra::surface_denom;
use crate::algebra::surface_numer;
use crate::exact::Exact;
use crate::exact::ratio;
use crate::materials::insulation_r_value_si;
use crate::materials::insulation_table;
use crate::materials::roof_material;
use crate::materials::roof_table;
use crate::materials::wall_material;
use crate::materials::wall_table;
use crate::materials::MaterialProperties;
use crate::model;
use crate::model::micro;
use crate::model::milli;
use crate::model::Scenario;
use crate::wide::U256;

verus! {

/// What the caller knows of the building. Decimal quantities are integers in
/// thousandths of their unit.
#[derive(Clone, Debug)]
pub struct CalculationInput {
    /// Roof area, in thousandths of a square foot.
    pub sqft_roof: u32,
    /// Wall area, in thousandths of a square foot.
    pub sqft_walls: u32,
    /// Name of the roof material.
    pub roof_material_type: String,
    /// Name of the wall material.
    pub wall_material_type: String,
    /// Outside temperature, in thousandths of a °F.
    pub ambient_temp_f: i32,
    /// Inside temperature, in thousandths of a °F.
    pub t_inside_f: i32,
    /// How long the conditions last, in whole hours.
    pub duration_hours: u64,
    /// Label of the insulation rating.
    pub insulation_r_value: String,
    /// Air changes per hour, in thousandths. The calculation does not read it.
    pub air_changes_per_hour: u32,
    /// Window area, in thousandths of a square foot. The calculation does not
    /// read it.
    pub window_area_sqft: u32,
    /// Kind of window. The calculation does not read it.
    pub window_type: String,
    /// Price of a kilowatt-hour, in thousandths of the currency unit.
    pub electricity_cost_per_kwh: u32,
}

/// Energy lost and what it costs.
#[derive(Clone, Copy, Debug, PartialEq, Eq, Structural)]
pub struct CalculationResult {
    /// Cost of the energy, in the currency unit.
    pub total_cost: Exact,
    /// Energy lost over the duration, in kilowatt-hours.
    pub q_total_kwh: Exact,
}

impl CalculationResult {
    /// `self` is the answer for `input` in `envelope`: its two numbers are the
    /// model's energy and cost, each held as the one well-formed fraction
    /// with the numerator and denominator given.
    pub open spec fn answers(&self, input: &CalculationInput, envelope: Envelope) -> bool {
        &&& self.q_total_kwh@ == input.scenario(envelope).q_total_kwh()
        &&& self.total_cost@ == input.scenario(envelope).total_cost()
        &&& self.q_total_kwh.is_fraction(
            input.energy_numer(envelope),
            input.energy_denom(envelope),
        )
        &&& self.total_cost.is_fraction(input.cost_numer(envelope), input.cost_denom(envelope))
    }
}

/// Why an input record is not valid.
#[derive(Clone, Copy, Debug, PartialEq, Eq, Structural)]
pub enum ValidationError {
    /// The roof material's name is in no table.
    InvalidRoofMaterial,
    /// The wall material's name is in no table.
    InvalidWallMaterial,
    /// The insulation label is not a known rating.
    InvalidInsulationRating,
}

/// What the three names of an input record stand for.
#[derive(Clone, Copy, Debug, PartialEq, Eq, Structural)]
pub struct Envelope {
    /// The roof's material.
    pub roof: MaterialProperties,
    /// The walls' material.
    pub wall: MaterialProperties,
    /// Thermal resistance of the insulation, in millionths of a m²·K/W.
    pub insulation_r_value_si: u32,
}

impl Envelope {
    /// Both materials are well-formed.
    pub open spec fn wf(&self) -> bool {
        self.roof.wf() && self.wall.wf()
    }

    /// The denominator of the heat loss rate through roof and walls.
    pub open spec fn rate_denom(&self) -> int {
        9_000_000 * resistance_units(self.roof, self.insulation_r_value_si as int)
            * resistance_units(self.wall, self.insulation_r_value_si as int)
    }
}

impl CalculationInput {
    /// What the three names stand for, or the first of them that stands for
    /// nothing: roof before walls, walls before insulation.
    pub open spec fn envelope(&self) -> Result<Envelope, ValidationError> {
        match roof_table(self.roof_material_type@) {
            None => Err(ValidationError::InvalidRoofMaterial),
            Some(roof) => match wall_table(self.wall_material_type@) {
                None => Err(ValidationError::InvalidWallMaterial),
                Some(wall) => match insulation_table(self.insulation_r_value@) {
                    None => Err(ValidationError::InvalidInsulationRating),
                    Some(insulation_r_value_si) => Ok(
                        Envelope { roof, wall, insulation_r_value_si },
                    ),
                },
            },
        }
    }

    /// The building and its conditions as real quantities, given what the
    /// names stand for.
    pub open spec fn scenario(&self, envelope: Envelope) -> Scenario {
        Scenario {
            roof_area_sqft: milli(self.sqft_roof as int),
            wall_area_sqft: milli(self.sqft_walls as int),
            roof: envelope.roof@,
            wall: envelope.wall@,
            insulation_r_value_si: micro(envelope.insulation_r_value_si as int),
            ambient_temp_f: milli(self.ambient_temp_f as int),
            t_inside_f: milli(self.t_inside_f as int),
            duration_hours: self.duration_hours as nat,
            electricity_cost_per_kwh: milli(self.electricity_cost_per_kwh as int),
        }
    }

    /// The numerator of the energy in kilowatt-hours.
    pub open spec fn energy_numer(&self, envelope: Envelope) -> int {
        self.rate_numer(envelope) * self.duration_hours
    }

    /// The denominator of the energy in kilowatt-hours.
    pub open spec fn energy_denom(&self, envelope: Envelope) -> int {
        1_000 * envelope.rate_denom()
    }

    /// The numerator of the cost.
    pub open spec fn cost_numer(&self, envelope: Envelope) -> int {
        self.energy_numer(envelope) * self.electricity_cost_per_kwh
    }

    /// The denominator of the cost.
    pub open spec fn cost_denom(&self, envelope: Envelope) -> int {
        1_000_000 * envelope.rate_denom()
    }

    /// The numerator of the heat loss rate through roof and walls, over
    /// `envelope.rate_denom()`.
    pub open spec fn rate_numer(&self, envelope: Envelope) -> int {
        surface_numer(
            self.sqft_roof as int,
            self.t_inside_f as int,
            self.ambient_temp_f as int,
            envelope.roof,
        ) * resistance_units(envelope.wall, envelope.insulation_r_value_si as int) + surface_numer(
            self.sqft_walls as int,
            self.t_inside_f as int,
            self.ambient_temp_f as int,
            envelope.wall,
        ) * resistance_units(envelope.roof, envelope.insulation_r_value_si as int)
    }
}

impl ValidationError {
    /// The error in words.
    pub fn message(&self) -> (text: &'static str)
        ensures
            text@ == match *self {
                ValidationError::InvalidRoofMaterial => "Invalid roof material type"@,
                ValidationError::InvalidWallMaterial => "Invalid wall material type"@,
                ValidationError::InvalidInsulationRating => "Invalid insulation R-value"@,
            },
    {
        match self {
            ValidationError::InvalidRoofMaterial => "Invalid roof material type",
            ValidationError::InvalidWallMaterial => "Invalid wall material type",
            ValidationError::InvalidInsulationRating => "Invalid insulation R-value",
        }
    }
}

/// Looks the three names of `input` up, in the order roof, walls, insulation,
/// and stops at the first that is unknown.
pub fn resolve_envelope(input: &CalculationInput) -> (res: Result<Envelope, ValidationError>)
    ensures
        res == input.envelope(),
        res matches Ok(envelope) ==> envelope.wf(),
{
    let roof = match roof_material(input.roof_material_type.as_str()) {
        Some(m) => m,
        None => {
            return Err(ValidationError::InvalidRoofMaterial);
        },
    };
    let wall = match wall_material(input.wall_material_type.as_str()) {
        Some(m) => m,
        None => {
            return Err(ValidationError::InvalidWallMaterial);
        },
    };
    let insulation = match insulation_r_value_si(input.insulation_r_value.as_str()) {
        Some(r) => r,
        None => {
            return Err(ValidationError::InvalidInsulationRating);
        },
    };
    Ok(Envelope { roof, wall, insulation_r_value_si: insulation })
}

/// The sign and the magnitude of `t_inside_f - ambient_temp_f`.
fn temperature_gap(t_inside_f: i32, ambient_temp_f: i32) -> (gap: (bool, u64))
    ensures
        gap.0 == (t_inside_f < ambient_temp_f),
        gap.1 == if t_inside_f < ambient_temp_f {
            ambient_temp_f - t_inside_f
        } else {
            t_inside_f - ambient_temp_f
        },
        gap.1 <= u32::MAX,
{
    let difference: i64 = t_inside_f as i64 - ambient_temp_f as i64;
    if difference < 0 {
        (true, (-difference) as u64)
    } else {
        (false, difference as u64)
    }
}

/// What `resistance_units` says, computed.
fn series_resistance(material: &MaterialProperties, insulation_r_value_si: u32) -> (units: u64)
    ensures
        units == resistance_units(*material, insulation_r_value_si as int),
        units <= resistance_units_max(),
        material.wf() ==> units > 0,
{
    let k: u64 = material.thermal_conductivity as u64;
    let r: u64 = insulation_r_value_si as u64;
    proof {
        lemma_product_bound(r as int, 4_294_967_295, k as int, 65_535);
    }
    1_000_000 * (material.thickness as u64) + r * k
}

/// The difference between two Fahrenheit temperatures given in thousandths
/// of a degree, in Celsius degrees.
pub fn delta_t_c(t_inside_f: i32, ambient_temp_f: i32) -> (delta: Exact)
    ensures
        delta.is_fraction(t_inside_f - ambient_temp_f, 1_800),
        delta@ == model::delta_t_c(milli(t_inside_f as int), milli(ambient_temp_f as int)),
{
    let gap = temperature_gap(t_inside_f, ambient_temp_f);
    let delta = Exact::new(gap.0, U256::from_u128(gap.1 as u128), U256::from_u128(1_800));
    proof {
        let i = t_inside_f as real;
        let o = ambient_temp_f as real;
        assert((t_inside_f - ambient_temp_f) as real == i - o);
        assert((i - o) / 1_800 as real == (i / 1000 as real - o / 1000 as real) / (1_800 as real
            / 1000 as real)) by (nonlinear_arith);
    }
    delta
}

/// The rate in watts at which heat passes through one surface: `area_sqft`
/// in thousandths of a square foot, the temperatures in thousandths of a °F,
/// the insulation in millionths of a m²·K/W.
pub fn calculate_heat_loss(
    area_sqft: u32,
    t_inside_f: i32,
    ambient_temp_f: i32,
    material: &MaterialProperties,
    insulation_r_value_si: u32,
) -> (q: Exact)
    requires
        material.wf(),
    ensures
        q.is_fraction(
            surface_numer(area_sqft as int, t_inside_f as int, ambient_temp_f as int, *material),
            surface_denom(*material, insulation_r_value_si as int),
        ),
        q@ == model::heat_loss(
            model::area_m2(milli(area_sqft as int)),
            model::delta_t_c(milli(t_inside_f as int), milli(ambient_temp_f as int)),
            material@,
            micro(insulation_r_value_si as int),
        ),
{
    let gap = temperature_gap(t_inside_f, ambient_temp_f);
    let degrees: u128 = gap.1 as u128;
    let area: u128 = area_sqft as u128;
    let k: u128 = material.thermal_conductivity as u128;
    proof {
        lemma_product_bound(degrees as int, 4_294_967_295, area as int, 4_294_967_295);
        lemma_product_bound(
            degrees * area,
            18_446_744_065_119_617_025,
            k as int,
            65_535,
        );
        assert(464_515 * (t_inside_f - ambient_temp_f) * area * k == 464_515 * ((t_inside_f
            - ambient_temp_f) * area * k)) by (nonlinear_arith);
        assert((ambient_temp_f - t_inside_f) * area * k == -((t_inside_f - ambient_temp_f) * area
            * k)) by (nonlinear_arith);
    }
    let numerator: u128 = 464_515 * (degrees * area * k);
    let units: u64 = series_resistance(material, insulation_r_value_si);
    let denominator: u128 = 9_000_000 * (units as u128);
    proof {
        lemma_surface(
            area_sqft as int,
            t_inside_f as int,
            ambient_temp_f as int,
            *material,
            insulation_r_value_si as int,
        );
    }
    Exact::new(gap.0, U256::from_u128(numerator), U256::from_u128(denominator))
}

/// The fractions that `evaluate` builds denote the model's energy and cost.
pub proof fn lemma_fractions_denote(input: &CalculationInput, envelope: Envelope)
    requires
        envelope.wf(),
    ensures
        envelope.rate_denom() > 0,
        ratio(input.energy_numer(envelope), input.energy_denom(envelope)) == input.scenario(
            envelope,
        ).q_total_kwh(),
        ratio(input.cost_numer(envelope), input.cost_denom(envelope)) == input.scenario(
            envelope,
        ).total_cost(),
{
    let r = envelope.insulation_r_value_si as int;
    let roof_units = resistance_units(envelope.roof, r);
    let wall_units = resistance_units(envelope.wall, r);
    let roof_numer = surface_numer(
        input.sqft_roof as int,
        input.t_inside_f as int,
        input.ambient_temp_f as int,
        envelope.roof,
    );
    let wall_numer = surface_numer(
        input.sqft_walls as int,
        input.t_inside_f as int,
        input.ambient_temp_f as int,
        envelope.wall,
    );
    lemma_surface(
        input.sqft_roof as int,
        input.t_inside_f as int,
        input.ambient_temp_f as int,
        envelope.roof,
        r,
    );
    lemma_surface(
        input.sqft_walls as int,
        input.t_inside_f as int,
        input.ambient_temp_f as int,
        envelope.wall,
        r,
    );
    lemma_sum(roof_numer, roof_units, wall_numer, wall_units, 9_000_000);
    let rate_numer = input.rate_numer(envelope);
    let rate_denom = envelope.rate_denom();
    assert(input.scenario(envelope).q_rate_total() == ratio(rate_numer, rate_denom));
    lemma_energy(rate_numer, rate_denom, input.duration_hours as int);
    lemma_cost(
        input.energy_numer(envelope),
        input.energy_denom(envelope),
        input.electricity_cost_per_kwh as int,
    );
}

/// The numerator of a surface's heat loss has the sign of the temperature
/// difference, and a magnitude below 2^99.
proof fn lemma_surface_numer_range(
    area: u32,
    t_inside_f: i32,
    ambient_temp_f: i32,
    material: MaterialProperties,
)
    ensures
        t_inside_f >= ambient_temp_f ==> 0 <= surface_numer(
            area as int,
            t_inside_f as int,
            ambient_temp_f as int,
            material,
        ) <= surface_numer_max(),
        t_inside_f < ambient_temp_f ==> -surface_numer_max() <= surface_numer(
            area as int,
            t_inside_f as int,
            ambient_temp_f as int,
            material,
        ) <= 0,
{
    let k = material.thermal_conductivity as int;
    let d = t_inside_f - ambient_temp_f;
    let gap: int = if d < 0 {
        -d
    } else {
        d
    };
    lemma_product_bound(gap, 4_294_967_295, area as int, 4_294_967_295);
    lemma_product_bound(gap * area, 18_446_744_065_119_617_025, k, 65_535);
    assert(464_515 * d * area * k == 464_515 * (d * area * k)) by (nonlinear_arith);
    assert((-d) * area * k == -(d * area * k)) by (nonlinear_arith);
}

/// Energy and cost for `input`, given what its three names stand for.
pub fn evaluate(input: &CalculationInput, envelope: &Envelope) -> (result: CalculationResult)
    requires
        envelope.wf(),
    ensures
        result.answers(input, *envelope),
{
    let r: u32 = envelope.insulation_r_value_si;
    let q_roof = calculate_heat_loss(
        input.sqft_roof,
        input.t_inside_f,
        input.ambient_temp_f,
        &envelope.roof,
        r,
    );
    let q_walls = calculate_heat_loss(
        input.sqft_walls,
        input.t_inside_f,
        input.ambient_temp_f,
        &envelope.wall,
        r,
    );
    let roof_units: u64 = series_resistance(&envelope.roof, r);
    let wall_units: u64 = series_resistance(&envelope.wall, r);
    let below_zero = input.t_inside_f < input.ambient_temp_f;
    let price: u64 = input.electricity_cost_per_kwh as u64;
    let ghost roof_part: int = q_roof.numerator@ * wall_units;
    let ghost wall_part: int = q_walls.numerator@ * roof_units;
    proof {
        lemma_surface_numer_range(
            input.sqft_roof,
            input.t_inside_f,
            input.ambient_temp_f,
            envelope.roof,
        );
        lemma_surface_numer_range(
            input.sqft_walls,
            input.t_inside_f,
            input.ambient_temp_f,
            envelope.wall,
        );
        lemma_product_bound(
            q_roof.numerator@ as int,
            surface_numer_max(),
            wall_units as int,
            resistance_units_max(),
        );
        lemma_product_bound(
            q_walls.numerator@ as int,
            surface_numer_max(),
            roof_units as int,
            resistance_units_max(),
        );
        lemma_product_bound(
            roof_part + wall_part,
            2 * (surface_numer_max() * resistance_units_max()),
            input.duration_hours as int,
            18_446_744_073_709_551_615,
        );
        lemma_product_bound(
            (roof_part + wall_part) * input.duration_hours,
            2 * (surface_numer_max() * resistance_units_max())
                * 18_446_744_073_709_551_615,
            price as int,
            4_294_967_295,
        );
        lemma_product_bound(
            roof_units as int,
            resistance_units_max(),
            wall_units as int,
            resistance_units_max(),
        );
    }
    let rate = q_roof.numerator.mul_u64(wall_units).add(&q_walls.numerator.mul_u64(roof_units));
    let energy = rate.mul_u64(input.duration_hours);
    let cost = energy.mul_u64(price);
    let scale = U256::from_u128((roof_units as u128) * (wall_units as u128));
    let energy_scale = scale.mul_u64(9_000_000_000);
    let cost_scale = scale.mul_u64(9_000_000_000_000);
    proof {
        lemma_fractions_denote(input, *envelope);
        let roof_numer = q_roof.numer();
        let wall_numer = q_walls.numer();
        let hours = input.duration_hours as int;
        assert(envelope.rate_denom() == 9_000_000 * (roof_units * wall_units))
            by (nonlinear_arith)
            requires
                envelope.rate_denom() == 9_000_000 * roof_units * wall_units,
        ;
        assert(input.rate_numer(*envelope) == roof_numer * wall_units + wall_numer * roof_units);
        assert((-roof_part - wall_part) * hours == -((roof_part + wall_part) * hours))
            by (nonlinear_arith);
        assert((-(q_roof.numerator@ as int)) * wall_units == -roof_part) by (nonlinear_arith)
            requires
                roof_part == q_roof.numerator@ * wall_units,
        ;
        assert((-(q_walls.numerator@ as int)) * roof_units == -wall_part) by (nonlinear_arith)
            requires
                wall_part == q_walls.numerator@ * roof_units,
        ;
        assert((-((roof_part + wall_part) * hours)) * price == -((roof_part + wall_part) * hours
            * price)) by (nonlinear_arith);
    }
    CalculationResult {
        total_cost: Exact::new(below_zero, cost, cost_scale),
        q_total_kwh: Exact::new(below_zero, energy, energy_scale),
    }
}

/// Energy lost through roof and walls over the duration, and what it costs,
/// or the first name of `input` that is in no table: the roof material is
/// looked up first, then the wall material, then the insulation label.
pub fn compute_specific_heat_loss(input: &CalculationInput) -> (res: Result<
    CalculationResult,
    ValidationError,
>)
    ensures
        roof_table(input.roof_material_type@) is None ==> res == Err::<CalculationResult, _>(
            ValidationError::InvalidRoofMaterial,
        ),
        roof_table(input.roof_material_type@) is Some && wall_table(input.wall_material_type@)
            is None ==> res == Err::<CalculationResult, _>(ValidationError::InvalidWallMaterial),
        roof_table(input.roof_material_type@) is Some && wall_table(input.wall_material_type@)
            is Some && insulation_table(input.insulation_r_value@) is None ==> res == Err::<
            CalculationResult,
            _,
        >(ValidationError::InvalidInsulationRating),
        match input.envelope() {
            Ok(envelope) => res matches Ok(result) && result.answers(input, envelope),
            Err(e) => res == Err::<CalculationResult, _>(e),
        },
{
    match resolve_envelope(input) {
        Ok(envelope) => Ok(evaluate(input, &envelope)),
        Err(e) => Err(e),
    }
}

} // verus!
