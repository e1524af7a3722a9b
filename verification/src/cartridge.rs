use vstd::prelude::*;

verus! {

/// A program image as it was read from its medium.
pub struct Cartridge {
    /// The bytes of the program, in order.
    pub rom: Vec<u8>,
    /// How many bytes were read.
    pub bytes_read: usize,
}

impl Cartridge {
    /// The byte count agrees with the image.
    pub open spec fn wf(&self) -> bool {
        self.bytes_read == self.rom@.len()
    }

    /// A cartridge that holds exactly `bytes`.
    pub fn from_bytes(bytes: Vec<u8>) -> (cartridge: Cartridge)
        ensures
            cartridge.rom@ == bytes@,
            cartridge.bytes_read == bytes@.len(),
            cartridge.wf(),
    {
        let bytes_read: usize = bytes.len();
        Cartridge { rom: bytes, bytes_read }
    }
}

} // verus!
