//! The fonts that the editor loads when it starts.

use vstd::prelude::*;

verus! {

/// The name of the font that holds the editor's icons.
pub const ICON: &'static str = "lucide";

/// The fonts to load, each as the bytes of its file: the icon font, whose
/// bytes are given, and no other.
pub fn load(icons: &'static [u8]) -> (fonts: Vec<&'static [u8]>)
    ensures
        fonts@ == seq![icons],
{
    let mut fonts: Vec<&'static [u8]> = Vec::new();
    fonts.push(icons);
    assert(fonts@ =~= seq![icons]);
    fonts
}

} // verus!
