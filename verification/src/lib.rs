pub mod db;
pub mod menu;
pub mod model;
pub mod task;
pub mod text;
