pub mod game;
mod rng;
