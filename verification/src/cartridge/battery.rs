use vstd::prelude::*;

verus! {

/// Whether the cartridge RAM of a cartridge is battery-backed.
pub trait CartridgeBattery {

}

pub struct Battery;

impl CartridgeBattery for Battery {

}

pub struct NoBattery;

impl CartridgeBattery for NoBattery {

}

} // verus!
