//! The state behind the installing page: its subtitle, and whether its
//! install button shows.

use vstd::prelude::*;

verus! {

/// What the installing page is told.
#[derive(Clone, Copy, Debug, PartialEq, Eq, Structural)]
pub enum InstallingPageEvent {
    /// Installation has begun.
    Install,
    /// Installation is complete.
    Finish,
}

/// The state of the installing page.
#[derive(Clone, Debug, PartialEq, Eq)]
pub struct InstallingPage {
    subtitle: String,
    show_install_btn: bool,
}

/// The state of the installing page as a mathematical value.
pub struct InstallingPageView {
    pub subtitle: Seq<char>,
    pub show_install_btn: bool,
}

impl View for InstallingPage {
    type V = InstallingPageView;

    closed spec fn view(&self) -> InstallingPageView {
        InstallingPageView { subtitle: self.subtitle@, show_install_btn: self.show_install_btn }
    }
}

impl InstallingPageView {
    /// The page before it is told anything: it asks for confirmation and
    /// shows its button.
    pub open spec fn initial() -> InstallingPageView {
        InstallingPageView { subtitle: "确认安装？"@, show_install_btn: true }
    }

    /// The page after an event: the button is gone, and the subtitle says
    /// what the event announced.
    pub open spec fn step(self, event: InstallingPageEvent) -> InstallingPageView {
        match event {
            InstallingPageEvent::Install => InstallingPageView {
                subtitle: "正在安装..."@,
                show_install_btn: false,
            },
            InstallingPageEvent::Finish => InstallingPageView {
                subtitle: "安装完成"@,
                show_install_btn: false,
            },
        }
    }
}

impl InstallingPage {
    /// The page as it is first shown.
    pub fn new() -> (page: InstallingPage)
        ensures
            page@ == InstallingPageView::initial(),
    {
        InstallingPage { subtitle: String::from_str("确认安装？"), show_install_btn: true }
    }

    /// Applies one event.
    pub fn event(&mut self, event: InstallingPageEvent)
        ensures
            final(self)@ == old(self)@.step(event),
    {
        match event {
            InstallingPageEvent::Install => {
                self.show_install_btn = false;
                self.subtitle = String::from_str("正在安装...");
            },
            InstallingPageEvent::Finish => {
                self.show_install_btn = false;
                self.subtitle = String::from_str("安装完成");
            },
        }
    }

    /// The line below the page's heading.
    pub fn subtitle(&self) -> (subtitle: &str)
        ensures
            subtitle@ == self@.subtitle,
    {
        self.subtitle.as_str()
    }

    /// Whether the install button shows.
    pub fn show_install_btn(&self) -> (shown: bool)
        ensures
            shown == self@.show_install_btn,
    {
        self.show_install_btn
    }
}

} // verus!
