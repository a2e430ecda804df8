//! The pages of the wizard and their linear order.

use vstd::prelude::*;

verus! {

/// One step of the installation sequence.
#[derive(Clone, Copy, Debug, PartialEq, Eq, Structural)]
pub enum TabPage {
    SelectFormat,
    SelectPath,
    Confirm,
    Installing,
    Done,
}

impl TabPage {
    /// Place of the page in the sequence, counted from zero.
    pub open spec fn position(self) -> int {
        match self {
            TabPage::SelectFormat => 0,
            TabPage::SelectPath => 1,
            TabPage::Confirm => 2,
            TabPage::Installing => 3,
            TabPage::Done => 4,
        }
    }

    /// The page that follows, if any.
    pub open spec fn successor(self) -> Option<TabPage> {
        match self {
            TabPage::SelectFormat => Some(TabPage::SelectPath),
            TabPage::SelectPath => Some(TabPage::Confirm),
            TabPage::Confirm => Some(TabPage::Installing),
            TabPage::Installing => Some(TabPage::Done),
            TabPage::Done => None,
        }
    }

    /// Whether going back is a valid operation on this page.
    pub open spec fn allows_back(self) -> bool {
        self != TabPage::Installing && self != TabPage::Done
    }

    /// The page that going back leads to; the first page is its own floor.
    pub open spec fn predecessor(self) -> TabPage {
        match self {
            TabPage::SelectFormat => TabPage::SelectFormat,
            TabPage::SelectPath => TabPage::SelectFormat,
            TabPage::Confirm => TabPage::SelectPath,
            TabPage::Installing => TabPage::Confirm,
            TabPage::Done => TabPage::Installing,
        }
    }

    /// The page after this one, or `None` on the last page.
    pub fn next(self) -> (following: Option<TabPage>)
        ensures
            following == self.successor(),
            following matches Some(p) ==> p.position() == self.position() + 1,
            following is None <==> self == TabPage::Done,
    {
        match self {
            TabPage::SelectFormat => Some(TabPage::SelectPath),
            TabPage::SelectPath => Some(TabPage::Confirm),
            TabPage::Confirm => Some(TabPage::Installing),
            TabPage::Installing => Some(TabPage::Done),
            TabPage::Done => None,
        }
    }

    /// The page before this one; the first page stays where it is.
    pub fn prev(self) -> (preceding: TabPage)
        requires
            self.allows_back(),
        ensures
            preceding == self.predecessor(),
            preceding.position() == if self.position() == 0 {
                0
            } else {
                self.position() - 1
            },
    {
        match self {
            TabPage::SelectFormat => TabPage::SelectFormat,
            TabPage::SelectPath => TabPage::SelectFormat,
            _ => TabPage::SelectPath,
        }
    }
}

} // verus!
