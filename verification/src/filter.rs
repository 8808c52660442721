//! The low-pass filter variants.
pub mod multi_pole_exp_filter;
pub mod simple_filter;
