pub mod example_data;
pub mod navigator;
pub mod state;
pub mod text;
pub mod view;
