pub mod actions;
pub mod app;
pub mod browse;
pub mod changes;
pub mod channels;
pub mod connections;
pub mod find;
pub mod icons;
pub mod laws;
pub mod manage;
pub mod model;
pub mod nav;
pub mod order;
pub mod requests;
pub mod resume;
pub mod text;
pub mod types;
