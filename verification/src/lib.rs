//! Runtime scene orchestrator: decodes a packaged scene bundle, materializes
//! scenes into a live entity-component world, tracks script bindings, camera
//! state and aggregated input, and sequences the per-frame lifecycle.

pub mod camera;
pub mod catalogue;
pub mod codec;
pub mod data;
pub mod frame;
pub mod input;
pub mod laws;
pub mod materialize;
pub mod sequencer;
pub mod world;
