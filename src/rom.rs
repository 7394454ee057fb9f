use vstd::prelude::*;

verus! {

/// Size of one ROM chip image.
pub const ROM_SEGMENT_LEN: usize = 0x800;

/// First address of video memory.
pub const VIDEO_MEMORY_START: usize = 0x2400;

/// One past the last address of video memory.
pub const VIDEO_MEMORY_END: usize = 0x4000;

/// How the program ROM is supplied.
#[derive(Clone, Copy, Debug, PartialEq, Eq, Structural)]
pub enum RomLayout {
    /// One image loaded at address 0.
    Single,
    /// Four 2 KiB chip images, loaded one after the other from address 0.
    Split,
}

impl RomLayout {
    pub open spec fn load_addresses_spec(self) -> Seq<u16> {
        match self {
            RomLayout::Single => seq![0x0000u16],
            RomLayout::Split => seq![0x0000u16, 0x0800u16, 0x1000u16, 0x1800u16],
        }
    }

    /// The address at which each image of the layout is loaded, in order.
    pub fn load_addresses(&self) -> (r: Vec<u16>)
        ensures
            r@ == self.load_addresses_spec(),
    {
        match self {
            RomLayout::Single => vec![0x0000u16],
            RomLayout::Split => vec![0x0000u16, 0x0800u16, 0x1000u16, 0x1800u16],
        }
    }
}

} // verus!
