pub mod bash;
pub mod edit;
pub mod read;
pub mod spec;
pub mod write;
