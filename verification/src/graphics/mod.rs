pub mod display;
pub mod vdp;
