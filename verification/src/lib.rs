//! Reading and writing of the data formats found in the game Celeste and its
//! modding scene: the binary map format, save files, playback recordings and
//! mod metadata.
use vstd::prelude::*;

pub mod maps;
pub mod mods;
pub mod playbacks;
pub mod saves;
pub mod utils;

verus! {

} // verus!
