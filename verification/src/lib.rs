//! Control core for a small differential-drive ("tank") robot.
//!
//! The crate holds the hardware-independent heart of the controller: the
//! fixed-point arithmetic it computes with, the sensor-fusion state and its
//! autopilot events, the PID-based differential drive controller, the
//! command/response protocol between the real-time loop and the rest of the
//! program, the line-oriented network command protocol, and the supervisor
//! decisions of the main loop.  All quantities are carried as scaled integers
//! (millionths of the underlying unit), so every computation here is exact
//! and verified.  Device I/O, threads and sockets live outside this crate and
//! exchange plain values with it.

pub mod fixed;
pub mod messages;
pub mod protocol;
pub mod control;
pub mod drive_pid;
pub mod motors;
pub mod real_time;
pub mod sensor_processing;
pub mod supervisor;
