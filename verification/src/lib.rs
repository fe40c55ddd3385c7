//! Running scripts of MATLAB-like interpreters (locally or inside a podman
//! container) and reading back the values they compute.
pub mod from_sys;
pub mod json;
pub mod podman;
pub mod str_map;
pub mod text;
pub mod values;
