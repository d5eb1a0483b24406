pub mod adjust;
pub mod hex;
pub mod model;
pub mod numeral;
pub mod pipeline;
pub mod transform;
