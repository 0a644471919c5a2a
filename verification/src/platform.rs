use crate::oem::OemBitmap;
use vstd::prelude::*;

verus! {

/// A call that only the platform layer can make. Each is answered with an
/// `Option<usize>`: the handle that the call produced, or `None` where it
/// produced none. The answer to `Release` is not read.
#[derive(Clone, Copy, Debug, PartialEq, Eq)]
#[allow(inconsistent_fields)]
pub enum PlatformCall<'a> {
    /// Load the image file at `path`.
    LoadFile { path: &'a str, size: Option<(u32, u32)>, strict: bool },
    /// Fetch the system bitmap `image`.
    LoadSystem { image: OemBitmap, size: Option<(u32, u32)> },
    /// Decode the image held in `bytes`.
    LoadMemory { bytes: &'a [u8] },
    /// Make a bitmap that shows `handle` with the colour `key` transparent.
    /// Where the call produces a handle, `handle` itself is used up.
    MakeTransparent { handle: usize, size: (i32, i32), key: [u8; 3] },
    /// Release `handle`.
    Release { handle: usize },
}

/// A [`PlatformCall`] as plain values.
#[allow(inconsistent_fields)]
pub enum PlatformCallView {
    LoadFile { path: Seq<char>, size: Option<(u32, u32)>, strict: bool },
    LoadSystem { image: OemBitmap, size: Option<(u32, u32)> },
    LoadMemory { bytes: Seq<u8> },
    MakeTransparent { handle: usize, size: (i32, i32), key: [u8; 3] },
    Release { handle: usize },
}

impl<'a> View for PlatformCall<'a> {
    type V = PlatformCallView;

    open spec fn view(&self) -> PlatformCallView {
        match *self {
            PlatformCall::LoadFile { path, size, strict } => PlatformCallView::LoadFile {
                path: path@,
                size,
                strict,
            },
            PlatformCall::LoadSystem { image, size } => PlatformCallView::LoadSystem {
                image,
                size,
            },
            PlatformCall::LoadMemory { bytes } => PlatformCallView::LoadMemory { bytes: bytes@ },
            PlatformCall::MakeTransparent { handle, size, key } => {
                PlatformCallView::MakeTransparent { handle, size, key }
            },
            PlatformCall::Release { handle } => PlatformCallView::Release { handle },
        }
    }
}

/// Whether `reply` is an answer that `platform` can give to `request`.
pub open spec fn answered<'a, P: Fn(PlatformCall<'a>) -> Option<usize>>(
    platform: P,
    request: PlatformCallView,
    reply: Option<usize>,
) -> bool {
    exists|call: PlatformCall<'a>| call@ == request && #[trigger] call_ensures(platform, (call,), reply)
}

/// Whether `reply` is an answer that `platform` can give to `request`, if
/// there is a request at all.
pub open spec fn answered_if_asked<'a, P: Fn(PlatformCall<'a>) -> Option<usize>>(
    platform: P,
    request: Option<PlatformCallView>,
    reply: Option<usize>,
) -> bool {
    request matches Some(call) ==> answered(platform, call, reply)
}

/// The handle that an answer of the platform stands for: the null handle is
/// no handle.
pub open spec fn produced(reply: Option<usize>) -> Option<usize> {
    match reply {
        Some(handle) => if handle != 0 {
            Some(handle)
        } else {
            None
        },
        None => None,
    }
}

/// Reads an answer of the platform: `Some` of a handle that is not null, or
/// `None`.
pub(crate) fn accept(reply: Option<usize>) -> (handle: Option<usize>)
    ensures
        handle == produced(reply),
{
    match reply {
        Some(handle) => if handle != 0 {
            Some(handle)
        } else {
            None
        },
        None => None,
    }
}

/// A 32-bit length read as a signed number of the same bits: itself up to
/// `i32::MAX`, and `2^32` less beyond it.
pub open spec fn signed(length: u32) -> i32 {
    if length <= i32::MAX {
        length as i32
    } else {
        (length - 0x1_0000_0000) as i32
    }
}

/// The size handed to the transparency call: the configured lengths as signed
/// numbers, or `(0, 0)`, the image's own size, where none was set.
pub open spec fn signed_size(size: Option<(u32, u32)>) -> (i32, i32) {
    match size {
        Some((width, height)) => (signed(width), signed(height)),
        None => (0, 0),
    }
}

pub(crate) fn to_signed(length: u32) -> (number: i32)
    ensures
        number == signed(length),
{
    if length <= 0x7fff_ffff {
        length as i32
    } else {
        let above: u32 = length - 0x8000_0000;
        (above as i32) - 0x7fff_ffff - 1
    }
}

pub(crate) fn to_signed_size(size: Option<(u32, u32)>) -> (signed: (i32, i32))
    ensures
        signed == signed_size(size),
{
    match size {
        Some((width, height)) => (to_signed(width), to_signed(height)),
        None => (0, 0),
    }
}

} // verus!
