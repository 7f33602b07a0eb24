pub mod byte_reader;
pub mod commandline_options;
pub mod display_list;
pub mod dlcommands;
pub mod errors;
pub mod geo_type;
pub mod model;
pub mod render;
pub mod texture;
pub mod texture_type;
pub mod vertex_store;
