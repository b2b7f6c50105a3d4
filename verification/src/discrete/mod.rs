pub mod custom;
