pub mod bullet;
