pub mod geometry;
pub mod input;
pub mod aim;
pub mod fire;
pub mod actors;
pub mod movement;
pub mod sim;
