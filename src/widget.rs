use vstd::prelude::*;

verus! {

/// The identity tag that a widget record carries. The numbering given by
/// [`WidgetKind::code`] is part of the shared memory contract and never
/// changes; new kinds are appended with new numbers.
#[derive(Debug, Clone, Copy, PartialEq, Eq, Structural)]
pub enum WidgetKind {
    /// Empty or null widget.
    Empty,
    /// Text label.
    Label,
    /// Text input field.
    Input,
    /// Button.
    Button,
    /// Container panel.
    Panel,
    /// List view.
    List,
}

impl WidgetKind {
    /// The stable number of each kind.
    pub open spec fn spec_code(self) -> u32 {
        match self {
            WidgetKind::Empty => 0,
            WidgetKind::Label => 1,
            WidgetKind::Input => 2,
            WidgetKind::Button => 3,
            WidgetKind::Panel => 4,
            WidgetKind::List => 5,
        }
    }

    /// Returns the stable number of this kind: `Empty` 0, `Label` 1,
    /// `Input` 2, `Button` 3, `Panel` 4, `List` 5.
    pub fn code(&self) -> (r: u32)
        ensures
            r == self.spec_code(),
    {
        match self {
            WidgetKind::Empty => 0,
            WidgetKind::Label => 1,
            WidgetKind::Input => 2,
            WidgetKind::Button => 3,
            WidgetKind::Panel => 4,
            WidgetKind::List => 5,
        }
    }
}

} // verus!
