//! The key combination that stands for "copy" on each platform family.
use vstd::prelude::*;

verus! {

/// The modifier held down while `c` is pressed.
#[derive(Debug, Clone, Copy, PartialEq, Eq, Structural)]
pub enum CopyModifier {
    /// The command key of macOS.
    Meta,
    /// The control key of every other platform.
    Control,
}

/// The modifier of the copy shortcut: the command key on macOS, the control
/// key everywhere else.
pub fn copy_modifier(is_macos: bool) -> (r: CopyModifier)
    ensures
        r == (if is_macos { CopyModifier::Meta } else { CopyModifier::Control }),
{
    if is_macos {
        CopyModifier::Meta
    } else {
        CopyModifier::Control
    }
}

} // verus!
