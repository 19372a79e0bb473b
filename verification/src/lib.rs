//! Verified core of `cargo test-fuzz`: the rules that pick fuzz targets out of test
//! executables, the commands that build, display, replay and fuzz them, and the
//! decisions of the `test_fuzz` attribute macro.
pub mod text;
pub mod opts;
pub mod targets;
pub mod cargo_build;
pub mod run;
pub mod transition;
pub mod fuzz_macro;
