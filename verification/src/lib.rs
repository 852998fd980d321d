//! Light-client verification core for a BFT consensus chain.

pub mod bisection;
pub mod block;
pub mod commit;
pub mod event;
pub mod laws;
pub mod linker;
pub mod power;
pub mod primitives;
pub mod single_step;
pub mod threshold;
pub mod trust;
pub mod validator;
pub mod verdict;
