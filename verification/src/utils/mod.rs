//! Small building blocks shared by the map, save and playback formats.
pub mod binary;
pub mod num;
pub mod text;
pub mod yaml;
pub mod keyed;
