//! What the debug panels decide before they draw.

use vstd::prelude::*;

verus! {

/// Helpers for laying out debug panels.
pub struct DebugGUIFormat;

impl DebugGUIFormat {
    /// Whether a row of sliders is labelled. Names are used only when there
    /// is one for every value; too few names count as none.
    pub fn multi_slider_uses_names(values: usize, names: Option<usize>) -> (labelled: bool)
        ensures
            labelled == match names {
                Some(n) => n >= values,
                None => false,
            },
    {
        match names {
            Some(n) => n >= values,
            None => false,
        }
    }
}

} // verus!
