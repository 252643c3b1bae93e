pub mod add;
pub mod config;
pub mod errors;
pub mod export;
pub mod mod_info;
pub mod mod_url;
pub mod project;
pub mod schema;
pub mod search;
pub mod select;
pub mod side;
pub mod store;
pub mod text;
pub mod utils;
pub mod walk;
