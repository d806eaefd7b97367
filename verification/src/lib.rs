//! Guest-side runtime for the `wired` and `unavi` WebAssembly component
//! interfaces: ownership of resource handles, and the lifting of values that
//! a host call leaves in guest memory.

pub mod abi;
pub mod beacon;
pub mod dwn;
pub mod event;
pub mod gltf_nodes;
pub mod gltf_property;
pub mod home;
pub mod input;
pub mod kv;
pub mod layout;
pub mod log;
pub mod math;
pub mod physics;
pub mod player;
pub mod property;
pub mod rt;
pub mod scene;
pub mod scene_property;
pub mod shapes;
pub mod vui;
