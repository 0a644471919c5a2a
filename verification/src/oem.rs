use vstd::prelude::*;

verus! {

/// A bitmap that the system supplies, named rather than loaded from data.
#[derive(Clone, Copy, Debug, PartialEq, Eq, Structural)]
pub enum OemBitmap {
    BtnCorner,
    BtnSize,
    Check,
    CheckBoxes,
    Close,
    Combo,
    DnArrow,
    DnArrowD,
    DnArrowI,
    LfArrow,
    LfArrowI,
    LfArrowD,
    MnArrow,
    OldClose,
    OldDnArrow,
    OldLfArrow,
    OldReduce,
    OldRestore,
    OldRgArrow,
    OldUpArrow,
    OldZoom,
    Reduce,
    Reduced,
    Restore,
    Restored,
    RgArrow,
    RgArrowD,
    RgArrowI,
    Size,
    UpArrow,
    UpArrowD,
    UpArrowI,
    Zoom,
    ZoomD,
}

impl OemBitmap {
    /// The number under which the system keeps the bitmap.
    pub open spec fn spec_resource_id(self) -> u16 {
        match self {
            OemBitmap::BtnCorner => 32758,
            OemBitmap::BtnSize => 32761,
            OemBitmap::Check => 32760,
            OemBitmap::CheckBoxes => 32759,
            OemBitmap::Close => 32754,
            OemBitmap::Combo => 32738,
            OemBitmap::DnArrow => 32752,
            OemBitmap::DnArrowD => 32742,
            OemBitmap::DnArrowI => 32736,
            OemBitmap::LfArrow => 32750,
            OemBitmap::LfArrowI => 32734,
            OemBitmap::LfArrowD => 32740,
            OemBitmap::MnArrow => 32739,
            OemBitmap::OldClose => 32767,
            OemBitmap::OldDnArrow => 32764,
            OemBitmap::OldLfArrow => 32762,
            OemBitmap::OldReduce => 32757,
            OemBitmap::OldRestore => 32755,
            OemBitmap::OldRgArrow => 32763,
            OemBitmap::OldUpArrow => 32765,
            OemBitmap::OldZoom => 32756,
            OemBitmap::Reduce => 32749,
            OemBitmap::Reduced => 32746,
            OemBitmap::Restore => 32747,
            OemBitmap::Restored => 32744,
            OemBitmap::RgArrow => 32751,
            OemBitmap::RgArrowD => 32741,
            OemBitmap::RgArrowI => 32735,
            OemBitmap::Size => 32766,
            OemBitmap::UpArrow => 32753,
            OemBitmap::UpArrowD => 32743,
            OemBitmap::UpArrowI => 32737,
            OemBitmap::Zoom => 32748,
            OemBitmap::ZoomD => 32745,
        }
    }

    /// The number under which the system keeps the bitmap.
    pub fn resource_id(self) -> (id: u16)
        ensures
            id == self.spec_resource_id(),
    {
        match self {
            OemBitmap::BtnCorner => 32758,
            OemBitmap::BtnSize => 32761,
            OemBitmap::Check => 32760,
            OemBitmap::CheckBoxes => 32759,
            OemBitmap::Close => 32754,
            OemBitmap::Combo => 32738,
            OemBitmap::DnArrow => 32752,
            OemBitmap::DnArrowD => 32742,
            OemBitmap::DnArrowI => 32736,
            OemBitmap::LfArrow => 32750,
            OemBitmap::LfArrowI => 32734,
            OemBitmap::LfArrowD => 32740,
            OemBitmap::MnArrow => 32739,
            OemBitmap::OldClose => 32767,
            OemBitmap::OldDnArrow => 32764,
            OemBitmap::OldLfArrow => 32762,
            OemBitmap::OldReduce => 32757,
            OemBitmap::OldRestore => 32755,
            OemBitmap::OldRgArrow => 32763,
            OemBitmap::OldUpArrow => 32765,
            OemBitmap::OldZoom => 32756,
            OemBitmap::Reduce => 32749,
            OemBitmap::Reduced => 32746,
            OemBitmap::Restore => 32747,
            OemBitmap::Restored => 32744,
            OemBitmap::RgArrow => 32751,
            OemBitmap::RgArrowD => 32741,
            OemBitmap::RgArrowI => 32735,
            OemBitmap::Size => 32766,
            OemBitmap::UpArrow => 32753,
            OemBitmap::UpArrowD => 32743,
            OemBitmap::UpArrowI => 32737,
            OemBitmap::Zoom => 32748,
            OemBitmap::ZoomD => 32745,
        }
    }

    /// The numbers fill the top of the 15-bit range, and no two bitmaps
    /// share one: a number names its bitmap.
    pub proof fn lemma_resource_ids_are_distinct(self, other: OemBitmap)
        ensures
            32734 <= self.spec_resource_id() <= 32767,
            self.spec_resource_id() == other.spec_resource_id() ==> self == other,
    {
    }
}

} // verus!
