//! A Vietnamese input method engine. It takes Latin keys one by one, in
//! the Telex or the VNI convention, and after each key tells the host how
//! to rewrite its display: how many characters to delete, and what to
//! append. Every function is verified against its contract, and the laws
//! of the engine are proved in `laws`.

pub mod classify;
pub mod common;
pub mod compound;
pub mod diacritics;
pub mod engine;
pub mod escape_law;
pub mod history;
pub mod laws;
pub mod letters;
pub mod process;
pub mod search;
pub mod shape_escape;
pub mod soundness;
pub mod stroke;
pub mod syllable;
pub mod telex;
pub mod tone;
pub mod tone_mark;
pub mod vni;

pub use classify::{classify, is_escape_candidate, KeyClass, KeyShape};
pub use common::{HistorySegment, InputMethod, KeyTransformAction, WTransformKind, WordSnapshot};
pub use diacritics::VowelShape;
pub use engine::VitypeEngine;
