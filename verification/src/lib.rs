pub mod batch;
pub mod export;
pub mod laws;
pub mod lookup;
pub mod page;
pub mod paths;
pub mod record;
pub mod resolver;
pub mod store;
pub mod text;
