pub mod ir_pulse_reader;
pub mod pulse;
pub mod signal;
