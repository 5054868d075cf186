//! The icons that the interface draws.

use vstd::prelude::*;

verus! {

/// An icon of the interface.
#[derive(Debug, Clone, Copy, PartialEq, Eq, Structural)]
pub enum Icons {
    ArrowRightLeft,
    Clipboard,
    Languages,
    Save,
    Trash,
    Trash2,
}

impl Icons {
    /// Where the drawing of the icon lies among the assets.
    pub open spec fn location(self) -> Seq<char> {
        match self {
            Icons::ArrowRightLeft => "icons/arrow-right-left.svg"@,
            Icons::Clipboard => "icons/clipboard.svg"@,
            Icons::Languages => "icons/languages.svg"@,
            Icons::Save => "icons/save.svg"@,
            Icons::Trash => "icons/trash.svg"@,
            Icons::Trash2 => "icons/trash-2.svg"@,
        }
    }

    /// Where the drawing of the icon lies among the assets.
    pub fn path(self) -> (path: &'static str)
        ensures
            path@ == self.location(),
    {
        match self {
            Icons::ArrowRightLeft => "icons/arrow-right-left.svg",
            Icons::Clipboard => "icons/clipboard.svg",
            Icons::Languages => "icons/languages.svg",
            Icons::Save => "icons/save.svg",
            Icons::Trash => "icons/trash.svg",
            Icons::Trash2 => "icons/trash-2.svg",
        }
    }
}

} // verus!
