//! Coordination core of a status-bar panel.
//!
//! The panel itself is toolkit glue; what this crate holds is the part with
//! actual state-machine shape, independent of any toolkit:
//!
//! - [`volume`]: exact integer arithmetic for volume fractions and the
//!   step-delta computation behind a volume write, plus the resolution of
//!   backend volume queries into fractions.
//! - [`hub`]: the broadcast hub that fans one audio-change feed out to any
//!   number of listener channels, skipping channels whose receivers are gone.
//! - [`echo`]: the counting guard that keeps a programmatic slider update from
//!   echoing back into a device write.
//! - [`overlay`]: the lifecycle of transient popup and modal surfaces.
//! - [`panel`]: panel label markup and the volume icon classification.

pub mod echo;
pub mod hub;
pub mod overlay;
pub mod panel;
pub mod volume;
