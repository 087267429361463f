//! Device state of a USB steering wheel with pedals: decoding of its input
//! reports into axis values, the command frames of its force-feedback
//! effects, the normalized control derived from the axes, and the decisions
//! of the task that polls the wheel.

pub mod command;
pub mod control;
pub mod lifecycle;
pub mod session;
pub mod steering;
