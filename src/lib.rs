//! State and event handling of a small slingshot toy: a ball is launched by a
//! pointer drag and pulled by point masses that the user places.
//!
//! The library is generic over the point type `P` and the scalar type `S` of
//! the host's vector math: it owns the simulation state and every transition
//! of it, while the host supplies the numbers that each transition needs.
pub mod attractor;
pub mod input;
pub mod simulation;
