use vstd::prelude::*;

verus! {

/// The size of a system ROM image: 16K.
pub const ROM_SIZE: usize = 0x4000;

/// The CPC models whose memory this crate emulates.
#[derive(Clone, Copy, Debug, PartialEq, Eq)]
pub enum CpcModel {
    Cpc464,
    Cpc664,
    Cpc6128,
}

/// The system ROM images that the machines are built with.
pub struct RomImages {
    pub os_464: Vec<u8>,
    pub basic_464: Vec<u8>,
    pub os_664: Vec<u8>,
    pub basic_664: Vec<u8>,
    pub os_6128: Vec<u8>,
    pub basic_6128: Vec<u8>,
    pub amsdos: Vec<u8>,
}

impl RomImages {
    /// The operating system ROM of `model`.
    pub open spec fn os_rom(&self, model: CpcModel) -> Seq<u8> {
        match model {
            CpcModel::Cpc464 => self.os_464@,
            CpcModel::Cpc664 => self.os_664@,
            CpcModel::Cpc6128 => self.os_6128@,
        }
    }

    /// The BASIC ROM of `model`.
    pub open spec fn basic_rom(&self, model: CpcModel) -> Seq<u8> {
        match model {
            CpcModel::Cpc464 => self.basic_464@,
            CpcModel::Cpc664 => self.basic_664@,
            CpcModel::Cpc6128 => self.basic_6128@,
        }
    }
}

} // verus!
