//! Codewhale's terminal component library, verified.
//!
//! Components name a [`theme::Role`], never a color; a [`theme::Theme`]
//! resolves the role for the terminal it paints on. Everything here computes
//! plain values: colors, styles, spans, lines and the drawing each component
//! asks for. Rendering those values into a terminal buffer is the host's
//! last step.

pub mod style;
pub mod color;
pub mod seqs;
pub mod glyphs;
pub mod text;
pub mod roles;
pub mod detect;
pub mod theme;
pub mod keys;
pub mod time;
pub mod components;
pub mod whale;
pub mod testing;
pub mod gallery;

pub use components::hints::{KeyHint, KeyHints};
pub use components::icons::Icon;
pub use components::picker::{Picker, PickerItem, PickerState};
pub use components::spinner::{duration, MotionMode, Spinner};
pub use components::status::{State, StatusMark};
pub use components::surface::{centered, Depth, HorizonRule, Panel};
pub use components::toast::{Toast, Toasts};
pub use theme::{Caps, Ground, Role, Theme};
pub use whale::{Whale, WhaleState};
