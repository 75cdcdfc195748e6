//! A verified core for a one-button, one-LED controller: a hardware edge on a
//! push-button wakes a control loop, which draws three random bytes, scales
//! each down to a configured brightness, and hands the resulting color to an
//! LED driver. The interrupt-to-task wakeup counter, the control-loop state
//! machine, and the color scaling are the verified logic; pin configuration,
//! blocking, and the LED's transmission protocol are the surrounding
//! program's concern.

pub mod bridge;
pub mod color;
pub mod control;
pub mod update;
