pub mod compute_output;
pub mod confirmed_set;
