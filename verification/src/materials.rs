//! The materials and insulation ratings that the calculator knows.

use vstd::prelude::*;
use crate::model::Layer;
use crate::model::micro;
use crate::model::milli;
use crate::model::r_value_to_si;

verus! {

/// What the calculator needs to know of a material. Both quantities are
/// positive in every table entry.
#[derive(Clone, Copy, Debug, PartialEq, Eq, Structural)]
pub struct MaterialProperties {
    /// Thermal conductivity, in thousandths of a W/(m·K).
    pub thermal_conductivity: u16,
    /// Thickness of the layer, in thousandths of a metre.
    pub thickness: u16,
}

impl MaterialProperties {
    /// Both quantities are positive.
    pub open spec fn wf(&self) -> bool {
        self.thermal_conductivity > 0 && self.thickness > 0
    }
}

impl View for MaterialProperties {
    type V = Layer;

    open spec fn view(&self) -> Layer {
        Layer {
            thermal_conductivity: milli(self.thermal_conductivity as int),
            thickness: milli(self.thickness as int),
        }
    }
}

/// The roof materials by name.
pub open spec fn roof_table(name: Seq<char>) -> Option<MaterialProperties> {
    if name == "asphalt"@ {
        Some(MaterialProperties { thermal_conductivity: 200, thickness: 5 })
    } else if name == "wood"@ {
        Some(MaterialProperties { thermal_conductivity: 80, thickness: 10 })
    } else {
        None
    }
}

/// The wall materials by name.
pub open spec fn wall_table(name: Seq<char>) -> Option<MaterialProperties> {
    if name == "wood"@ {
        Some(MaterialProperties { thermal_conductivity: 120, thickness: 100 })
    } else {
        None
    }
}

/// The imperial R-value that the label "R13-R15" stands for.
pub const R13_R15_RATING: u32 = 14;

/// SI thermal resistance per imperial R-value unit, in millionths of a
/// m²·K/W: 0.176110.
pub const R_VALUE_TO_SI: u32 = 176_110;

/// The insulation ratings by label: the thermal resistance that a label
/// stands for, in millionths of a m²·K/W.
pub open spec fn insulation_table(label: Seq<char>) -> Option<u32> {
    if label == "R13-R15"@ {
        Some(2_465_540)
    } else {
        None
    }
}

/// Whether two strings hold the same text.
fn same_text(a: &str, b: &str) -> (same: bool)
    ensures
        same == (a@ == b@),
{
    let left: String = a.to_owned();
    let right: String = b.to_owned();
    left == right
}

/// The properties of the roof material called `name`, if there is one.
pub fn roof_material(name: &str) -> (found: Option<MaterialProperties>)
    ensures
        found == roof_table(name@),
        found matches Some(m) ==> m.wf(),
{
    if same_text(name, "asphalt") {
        Some(MaterialProperties { thermal_conductivity: 200, thickness: 5 })
    } else if same_text(name, "wood") {
        Some(MaterialProperties { thermal_conductivity: 80, thickness: 10 })
    } else {
        None
    }
}

/// The properties of the wall material called `name`, if there is one.
pub fn wall_material(name: &str) -> (found: Option<MaterialProperties>)
    ensures
        found == wall_table(name@),
        found matches Some(m) ==> m.wf(),
{
    if same_text(name, "wood") {
        Some(MaterialProperties { thermal_conductivity: 120, thickness: 100 })
    } else {
        None
    }
}

/// The thermal resistance in SI units of the insulation rated `label`, in
/// millionths of a m²·K/W, if the label is known: the rating's imperial
/// R-value times 0.176110.
pub fn insulation_r_value_si(label: &str) -> (found: Option<u32>)
    ensures
        found == insulation_table(label@),
        found matches Some(r) ==> micro(r as int) == (R13_R15_RATING as real) * r_value_to_si(),
{
    if same_text(label, "R13-R15") {
        proof {
            assert(2_465_540 as real / 1_000_000 as real == 14 as real * (176_110 as real
                / 1_000_000 as real)) by (nonlinear_arith);
        }
        Some(R13_R15_RATING * R_VALUE_TO_SI)
    } else {
        None
    }
}

} // verus!
