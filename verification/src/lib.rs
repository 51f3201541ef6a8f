//! A status-line daemon core: a byte-size formatter that scales raw byte
//! counts to human-readable magnitudes, a declarative configuration model
//! with a store supporting atomic whole-value reloads, and the render
//! pipeline that turns a configuration snapshot plus a metrics snapshot
//! into the final status string.

pub mod config;
pub mod render;
pub mod store;
pub mod units;
