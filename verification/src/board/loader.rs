//! Reading ROM images into a ready board.

pub mod ines;

use vstd::prelude::*;
use crate::board::mapper::Mapper;
use crate::board::emufile::EnvInfo;

pub use ines::InesLoader;

verus! {

/// A loaded ROM image: the board it makes and the machine it expects.
#[derive(Debug, Clone)]
pub struct EmuFile {
    pub nesrom: Mapper,
    pub env_info: EnvInfo,
}

} // verus!
