pub mod attrs;
pub mod nodes;
