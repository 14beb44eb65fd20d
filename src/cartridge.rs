use vstd::prelude::*;

use crate::error::VmError;
use crate::semantics::MAX_PROGRAM_SIZE;

verus! {

/// A program image: the raw bytes that are loaded from address 512 on.
pub struct Cartridge {
    data: Vec<u8>,
}

impl View for Cartridge {
    type V = Seq<u8>;

    closed spec fn view(&self) -> Seq<u8> {
        self.data@
    }
}

impl Cartridge {
    /// Whether the image fits in memory above the reserved area.
    pub open spec fn wf(&self) -> bool {
        self@.len() <= 3584
    }

    /// An image holding `data`; one longer than 3584 bytes is refused.
    pub fn from_bytes(data: Vec<u8>) -> (r: Result<Cartridge, VmError>)
        ensures
            data@.len() <= 3584 ==> (r matches Ok(c) && c@ == data@ && c.wf()),
            data@.len() > 3584 ==> (r matches Err(e) && e == VmError::ProgramTooLarge),
    {
        if data.len() > MAX_PROGRAM_SIZE {
            Err(VmError::ProgramTooLarge)
        } else {
            Ok(Cartridge { data })
        }
    }

    /// How many bytes the image holds.
    pub fn size(&self) -> (r: u16)
        requires
            self.wf(),
        ensures
            r == self@.len(),
    {
        self.data.len() as u16
    }

    /// The bytes of the image.
    pub fn data(&self) -> (r: &[u8])
        ensures
            r@ == self@,
    {
        self.data.as_slice()
    }
}

} // verus!
