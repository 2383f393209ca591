pub mod claim;
pub mod create;
