pub mod common;
pub mod feedback_util;
pub mod lemmas;
pub mod mode_struct;
pub mod press_duration_processor;
pub mod target;
pub mod throttle;
pub mod transformation;
