pub mod nixpacks;
pub mod providers;
