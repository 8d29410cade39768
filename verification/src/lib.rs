//! A grid robot that turns and advances on command, implemented four times
//! with different design patterns (direct mutation, command objects with
//! undo, runtime state polymorphism, and compile-time type-state).
//!
//! All four variants are proved against one mathematical model of the robot
//! (`model`), and `equivalence` proves that the four transition systems
//! compute identical results for every instruction sequence.

pub mod controller;
pub mod equivalence;
pub mod model;
pub mod solutions;
