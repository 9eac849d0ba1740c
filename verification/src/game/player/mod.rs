pub mod character;
