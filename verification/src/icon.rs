//! The image shown as a tray icon.
use vstd::prelude::*;

verus! {

/// An icon: its pixels as RGBA bytes, row by row, and its size in pixels.
#[derive(Debug, PartialEq, Eq, Hash)]
pub struct Icon {
    /// The pixels, four bytes (red, green, blue, alpha) each, row by row.
    pub rgba: Vec<u8>,
    /// The width in pixels.
    pub width: u32,
    /// The height in pixels.
    pub height: u32,
}

/// What an icon is: its bytes and its size.
pub struct IconView {
    pub rgba: Seq<u8>,
    pub width: u32,
    pub height: u32,
}

impl View for Icon {
    type V = IconView;

    open spec fn view(&self) -> IconView {
        IconView { rgba: self.rgba@, width: self.width, height: self.height }
    }
}

impl Clone for Icon {
    /// A copy of the icon: same bytes, same size.
    fn clone(&self) -> (copy: Self)
        ensures
            copy@ == self@,
    {
        let rgba = self.rgba.clone();
        assert(rgba@ =~= self.rgba@);
        Icon { rgba, width: self.width, height: self.height }
    }
}

} // verus!
