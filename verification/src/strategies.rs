pub mod exif_strategy;
pub mod filename_strategy;
pub mod mp4_strategy;
pub mod strategy;
