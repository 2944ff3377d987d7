//! Settings of the editor.

use vstd::prelude::*;

verus! {

/// The configuration that the cursor model and the edit operations work with.
#[derive(Clone, Copy, Debug, PartialEq, Eq, Structural)]
pub struct EditorSettings {
    /// The distance between two tab stops, in columns.
    pub tab_width: usize,
}

impl EditorSettings {
    /// Tab stops every four columns.
    pub fn new() -> (s: EditorSettings)
        ensures
            s.tab_width == 4,
    {
        EditorSettings { tab_width: 4 }
    }
}

/// The settings that an editor starts with.
pub fn editor_settings() -> (s: EditorSettings)
    ensures
        s.tab_width == 4,
{
    EditorSettings::new()
}

} // verus!
