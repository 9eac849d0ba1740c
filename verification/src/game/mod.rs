pub mod bullet;
pub mod contact;
pub mod enemy;
pub mod handle;
pub mod identifier;
pub mod identity;
pub mod input;
pub mod insertable;
pub mod player;
pub mod projectile;
pub mod resolution;
pub mod sync;
pub mod world;
