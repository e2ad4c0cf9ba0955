pub mod chain;
pub mod output_folder;
pub mod relocator;
pub mod strategies;
