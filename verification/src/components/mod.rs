//! The components. Each names roles rather than colors and pairs every
//! state with a mark and a word.

pub mod status;
pub mod spinner;
pub mod icons;
pub mod hints;
pub mod picker;
pub mod toast;
pub mod surface;
