//! Conductive heat loss of a building envelope, and what it costs to make up
//! for it, computed in exact rational arithmetic.
//!
//! Decimal quantities enter as integers in thousandths of their unit and
//! results leave as exact fractions, so every contract can speak of the real
//! number that a value denotes: no step rounds.

pub mod algebra;
pub mod calc;
pub mod exact;
pub mod laws;
pub mod materials;
pub mod model;
pub mod wide;

pub use calc::calculate_heat_loss;
pub use calc::compute_specific_heat_loss;
pub use calc::delta_t_c;
pub use calc::evaluate;
pub use calc::resolve_envelope;
pub use calc::CalculationInput;
pub use calc::CalculationResult;
pub use calc::Envelope;
pub use calc::ValidationError;
pub use exact::Exact;
pub use materials::insulation_r_value_si;
pub use materials::roof_material;
pub use materials::wall_material;
pub use materials::MaterialProperties;
pub use wide::U256;
