//! The calculation as mathematics: real quantities and the formulas over
//! them. Nothing here is executable; the contracts of the executable
//! functions are stated against it.

use vstd::prelude::*;

verus! {

/// The real number that `x` thousandths denote.
pub open spec fn milli(x: int) -> real {
    x as real / 1000 as real
}

/// The real number that `x` millionths denote.
pub open spec fn micro(x: int) -> real {
    x as real / 1_000_000 as real
}

/// Square metres per square foot: 0.092903.
pub open spec fn sqft_to_sqm() -> real {
    micro(92_903)
}

/// Fahrenheit degrees per Celsius degree: 1.8.
pub open spec fn f_to_c() -> real {
    milli(1_800)
}

/// SI thermal resistance, m²·K/W, per imperial R-value unit: 0.176110.
pub open spec fn r_value_to_si() -> real {
    micro(176_110)
}

/// Seconds per hour.
pub open spec fn hours_to_seconds() -> real {
    3_600 as real
}

/// Joules per kilowatt-hour.
pub open spec fn joules_to_kwh() -> real {
    3_600_000 as real
}

/// One layer of material.
pub struct Layer {
    /// Thermal conductivity in W/(m·K).
    pub thermal_conductivity: real,
    /// Thickness in metres.
    pub thickness: real,
}

impl Layer {
    /// Both quantities are positive.
    pub open spec fn wf(self) -> bool {
        self.thermal_conductivity > 0 as real && self.thickness > 0 as real
    }

    /// The layer's own thermal resistance, in m²·K/W.
    pub open spec fn resistance(self) -> real {
        self.thickness / self.thermal_conductivity
    }
}

/// The difference between two Fahrenheit temperatures, in Celsius degrees.
/// Only a difference converts by division alone.
pub open spec fn delta_t_c(t_inside_f: real, ambient_temp_f: real) -> real {
    (t_inside_f - ambient_temp_f) / f_to_c()
}

/// An area given in square feet, in square metres.
pub open spec fn area_m2(area_sqft: real) -> real {
    area_sqft * sqft_to_sqm()
}

/// The rate in watts at which heat passes through a surface: steady
/// conduction through the material with the insulation in series.
pub open spec fn heat_loss(
    area_m2: real,
    delta_t_c: real,
    material: Layer,
    insulation_r_value_si: real,
) -> real {
    area_m2 * delta_t_c / (material.resistance() + insulation_r_value_si)
}

/// A building and the conditions it is held in, as real quantities.
pub struct Scenario {
    /// Roof area in square feet.
    pub roof_area_sqft: real,
    /// Wall area in square feet.
    pub wall_area_sqft: real,
    /// The roof's material.
    pub roof: Layer,
    /// The walls' material.
    pub wall: Layer,
    /// Thermal resistance of the insulation, in m²·K/W.
    pub insulation_r_value_si: real,
    /// Outside temperature in °F.
    pub ambient_temp_f: real,
    /// Inside temperature in °F.
    pub t_inside_f: real,
    /// How long the conditions last, in hours.
    pub duration_hours: nat,
    /// Price of a kilowatt-hour.
    pub electricity_cost_per_kwh: real,
}

impl Scenario {
    /// Areas, insulation and price are not negative, and the materials are
    /// well-formed.
    pub open spec fn wf(self) -> bool {
        &&& self.roof_area_sqft >= 0 as real
        &&& self.wall_area_sqft >= 0 as real
        &&& self.roof.wf()
        &&& self.wall.wf()
        &&& self.insulation_r_value_si >= 0 as real
        &&& self.electricity_cost_per_kwh >= 0 as real
    }

    /// Inside minus outside temperature, in Celsius degrees.
    pub open spec fn delta_t_c(self) -> real {
        delta_t_c(self.t_inside_f, self.ambient_temp_f)
    }

    /// Heat lost through the roof, in watts.
    pub open spec fn q_roof(self) -> real {
        heat_loss(
            area_m2(self.roof_area_sqft),
            self.delta_t_c(),
            self.roof,
            self.insulation_r_value_si,
        )
    }

    /// Heat lost through the walls, in watts.
    pub open spec fn q_walls(self) -> real {
        heat_loss(
            area_m2(self.wall_area_sqft),
            self.delta_t_c(),
            self.wall,
            self.insulation_r_value_si,
        )
    }

    /// Heat lost through roof and walls together, in watts.
    pub open spec fn q_rate_total(self) -> real {
        self.q_roof() + self.q_walls()
    }

    /// Energy lost over the duration, in joules.
    pub open spec fn q_total_joules(self) -> real {
        self.q_rate_total() * (self.duration_hours as real) * hours_to_seconds()
    }

    /// Energy lost over the duration, in kilowatt-hours.
    pub open spec fn q_total_kwh(self) -> real {
        self.q_total_joules() / joules_to_kwh()
    }

    /// What that energy costs.
    pub open spec fn total_cost(self) -> real {
        self.q_total_kwh() * self.electricity_cost_per_kwh
    }
}

} // verus!
