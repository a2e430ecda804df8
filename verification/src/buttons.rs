//! Navigation buttons, derived from the page and the format selection.

use vstd::prelude::*;
use crate::page::TabPage;

verus! {

/// What the navigation bar shows. It is never stored on its own authority:
/// every value of it is computed from the page and the selection.
#[derive(Clone, Debug, PartialEq, Eq)]
pub struct ButtonState {
    pub show_prev: bool,
    pub show_next: bool,
    pub next_enabled: bool,
    pub next_label: String,
}

/// The button state as a mathematical value.
pub struct ButtonStateView {
    pub show_prev: bool,
    pub show_next: bool,
    pub next_enabled: bool,
    pub next_label: Seq<char>,
}

impl View for ButtonState {
    type V = ButtonStateView;

    open spec fn view(&self) -> ButtonStateView {
        ButtonStateView {
            show_prev: self.show_prev,
            show_next: self.show_next,
            next_enabled: self.next_enabled,
            next_label: self.next_label@,
        }
    }
}

/// The back button is hidden on the first page and once installation began.
pub open spec fn shows_prev(page: TabPage) -> bool {
    page == TabPage::SelectPath || page == TabPage::Confirm
}

/// The forward button is hidden only while installing.
pub open spec fn shows_next(page: TabPage) -> bool {
    page != TabPage::Installing
}

/// Text of the forward button on each page.
pub open spec fn next_label(page: TabPage) -> Seq<char> {
    if page == TabPage::Confirm {
        "Install"@
    } else if page == TabPage::Done {
        "Finish"@
    } else {
        "Next"@
    }
}

/// The button state that belongs to a page and a selection.
pub open spec fn button_state_of(page: TabPage, any_format_selected: bool) -> ButtonStateView {
    ButtonStateView {
        show_prev: shows_prev(page),
        show_next: shows_next(page),
        next_enabled: any_format_selected,
        next_label: next_label(page),
    }
}

/// Text of the forward button on `page`.
pub fn next_label_text(page: TabPage) -> (label: String)
    ensures
        label@ == next_label(page),
{
    match page {
        TabPage::Confirm => String::from_str("Install"),
        TabPage::Done => String::from_str("Finish"),
        _ => String::from_str("Next"),
    }
}

/// Computes the navigation buttons for a page, given whether any format is
/// selected.
pub fn derive_button_state(current_page: TabPage, any_format_selected: bool) -> (buttons:
    ButtonState)
    ensures
        buttons@ == button_state_of(current_page, any_format_selected),
        buttons.show_prev <==> !(current_page == TabPage::SelectFormat || current_page
            == TabPage::Installing || current_page == TabPage::Done),
        buttons.show_next <==> current_page != TabPage::Installing,
        buttons.next_enabled <==> any_format_selected,
{
    let show_prev = match current_page {
        TabPage::SelectPath => true,
        TabPage::Confirm => true,
        _ => false,
    };
    let show_next = match current_page {
        TabPage::Installing => false,
        _ => true,
    };
    ButtonState {
        show_prev,
        show_next,
        next_enabled: any_format_selected,
        next_label: next_label_text(current_page),
    }
}

} // verus!
