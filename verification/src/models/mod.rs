pub mod health;
pub mod item_models;
pub mod object_models;
