//! Tactical packets, their validation, and the physical facts of their execution.

pub mod gateway;
pub mod invalidation;
pub mod movement;
pub mod outcome;
pub mod packet;
pub mod validator;
