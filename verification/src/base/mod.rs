pub mod arith;
pub mod control_value;
pub mod discrete;
pub mod interval;
pub mod ticks;
pub mod unit_increment;
pub mod unit_value;
