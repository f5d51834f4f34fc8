//! A typed configuration registry for a code-formatting tool.
//!
//! The registry owns one slot per option of a fixed catalog. Each slot tracks
//! the resolved value together with provenance (set from a configuration
//! file or the programmatic API, set from a CLI flag) and usage bookkeeping.
//! Values flow from compiled-in defaults, through a sparse overlay parsed
//! from a configuration file, and through CLI or ad-hoc `key=value`
//! overrides, into one authoritative snapshot; dependent width options are
//! re-derived and deprecated aliases reconciled after every mutation.

pub mod options;
pub mod laws;
pub mod parse;
pub mod overlay;
pub mod registry;

pub use options::Density;
pub use options::Heuristics;
pub use options::ImportGranularity;
pub use options::OptionId;
pub use options::OptionValue;
pub use options::StyleEdition;
pub use options::Version;
