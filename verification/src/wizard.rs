//! The wizard: its state, the events it takes and what each does.
//!
//! [`AppData::event`] is the whole state machine. It never touches the
//! outside world: where something has to happen there, it returns an
//! [`Action`] for the host, which reports a deployment back as
//! [`AppEvent::DeploymentFinished`].

use vstd::prelude::*;
use crate::buttons::{derive_button_state, next_label, shows_next, shows_prev};
use crate::format::Format;
use crate::notify::{error_notification, error_notification_of, Notification, NotificationView};
use crate::outcome::{InstallationOutcome, InstallationOutcomeView};
use crate::page::TabPage;

verus! {

/// The exit code of the process when the wizard ends.
pub const EXIT_CODE: i32 = 0;

/// The state of the wizard. The three button fields and the button text are
/// derived from the page and the selection: no value of this type holds
/// buttons that differ from what its page and selection give.
#[derive(Debug, PartialEq, Eq)]
pub struct AppData {
    install_vst3: bool,
    install_clap: bool,
    current_page: TabPage,
    show_prev_btn: bool,
    show_next_btn: bool,
    disable_next_btn: bool,
    vst3_path: String,
    clap_path: String,
    next_btn_text: String,
}

/// The state of the wizard as a mathematical value.
pub struct WizardState {
    pub install_vst3: bool,
    pub install_clap: bool,
    pub current_page: TabPage,
    pub show_prev_btn: bool,
    pub show_next_btn: bool,
    pub disable_next_btn: bool,
    pub vst3_path: Seq<char>,
    pub clap_path: Seq<char>,
    pub next_btn_text: Seq<char>,
}

impl View for AppData {
    type V = WizardState;

    closed spec fn view(&self) -> WizardState {
        WizardState {
            install_vst3: self.install_vst3,
            install_clap: self.install_clap,
            current_page: self.current_page,
            show_prev_btn: self.show_prev_btn,
            show_next_btn: self.show_next_btn,
            disable_next_btn: self.disable_next_btn,
            vst3_path: self.vst3_path@,
            clap_path: self.clap_path@,
            next_btn_text: self.next_btn_text@,
        }
    }
}

/// What the user or the host tells the wizard.
#[derive(Clone, Debug, PartialEq, Eq)]
pub enum AppEvent {
    ToggleInstallVst3,
    ToggleInstallClap,
    PrevPage,
    NextPage,
    UpdateVst3Path(String),
    UpdateClapPath(String),
    StartInstallation,
    UpdateButtons,
    /// The host has finished the deployment of a format.
    DeploymentFinished(Format, InstallationOutcome),
}

/// An event as a mathematical value.
pub enum AppEventView {
    ToggleInstallVst3,
    ToggleInstallClap,
    PrevPage,
    NextPage,
    UpdateVst3Path(Seq<char>),
    UpdateClapPath(Seq<char>),
    StartInstallation,
    UpdateButtons,
    DeploymentFinished(Format, InstallationOutcomeView),
}

impl View for AppEvent {
    type V = AppEventView;

    open spec fn view(&self) -> AppEventView {
        match *self {
            AppEvent::ToggleInstallVst3 => AppEventView::ToggleInstallVst3,
            AppEvent::ToggleInstallClap => AppEventView::ToggleInstallClap,
            AppEvent::PrevPage => AppEventView::PrevPage,
            AppEvent::NextPage => AppEventView::NextPage,
            AppEvent::UpdateVst3Path(path) => AppEventView::UpdateVst3Path(path@),
            AppEvent::UpdateClapPath(path) => AppEventView::UpdateClapPath(path@),
            AppEvent::StartInstallation => AppEventView::StartInstallation,
            AppEvent::UpdateButtons => AppEventView::UpdateButtons,
            AppEvent::DeploymentFinished(format, outcome) => AppEventView::DeploymentFinished(
                format,
                outcome@,
            ),
        }
    }
}

/// One deployment that the host is to carry out: the format whose payload
/// is to be placed, and the destination directory chosen for it.
#[derive(Clone, Debug, PartialEq, Eq)]
pub struct DeployJob {
    pub format: Format,
    pub destination_root: String,
}

/// A deployment job as a mathematical value.
pub struct DeployJobView {
    pub format: Format,
    pub destination_root: Seq<char>,
}

impl View for DeployJob {
    type V = DeployJobView;

    open spec fn view(&self) -> DeployJobView {
        DeployJobView { format: self.format, destination_root: self.destination_root@ }
    }
}

/// What the host is to do after an event.
#[derive(Clone, Debug, PartialEq, Eq)]
pub enum Action {
    /// Nothing.
    Idle,
    /// Deploy this job and send `DeploymentFinished` with its outcome.
    Deploy(DeployJob),
    /// Send this event to the wizard next.
    Emit(AppEvent),
    /// Show this notification and wait until it is dismissed.
    Notify(Notification),
    /// End the process with this exit code.
    Exit(i32),
}

/// An action as a mathematical value.
pub enum ActionView {
    Idle,
    Deploy(DeployJobView),
    Emit(AppEventView),
    Notify(NotificationView),
    Exit(i32),
}

impl View for Action {
    type V = ActionView;

    open spec fn view(&self) -> ActionView {
        match *self {
            Action::Idle => ActionView::Idle,
            Action::Deploy(job) => ActionView::Deploy(job@),
            Action::Emit(event) => ActionView::Emit(event@),
            Action::Notify(notification) => ActionView::Notify(notification@),
            Action::Exit(code) => ActionView::Exit(code),
        }
    }
}

impl WizardState {
    /// The state of a wizard that has just been started.
    pub open spec fn initial() -> WizardState {
        WizardState::at(
            TabPage::SelectFormat,
            false,
            false,
            Format::Vst3.default_destination(),
            Format::Clap.default_destination(),
        )
    }

    /// The state with the given page, selection and destinations, and the
    /// buttons that belong to them.
    pub open spec fn at(
        current_page: TabPage,
        install_vst3: bool,
        install_clap: bool,
        vst3_path: Seq<char>,
        clap_path: Seq<char>,
    ) -> WizardState {
        WizardState {
            install_vst3,
            install_clap,
            current_page,
            show_prev_btn: shows_prev(current_page),
            show_next_btn: shows_next(current_page),
            disable_next_btn: !(install_vst3 || install_clap),
            vst3_path,
            clap_path,
            next_btn_text: next_label(current_page),
        }
    }

    /// Whether the format is selected for installation.
    pub open spec fn selected(self, format: Format) -> bool {
        match format {
            Format::Vst3 => self.install_vst3,
            Format::Clap => self.install_clap,
        }
    }

    /// Whether at least one format is selected.
    pub open spec fn any_selected(self) -> bool {
        self.install_vst3 || self.install_clap
    }

    /// The destination directory chosen for the format.
    pub open spec fn destination(self, format: Format) -> Seq<char> {
        match format {
            Format::Vst3 => self.vst3_path,
            Format::Clap => self.clap_path,
        }
    }

    /// The same state with its buttons derived anew.
    pub open spec fn refresh(self) -> WizardState {
        WizardState::at(
            self.current_page,
            self.install_vst3,
            self.install_clap,
            self.vst3_path,
            self.clap_path,
        )
    }

    /// Whether the buttons are those that the page and the selection give.
    pub open spec fn wf(self) -> bool {
        self == self.refresh()
    }

    /// The job that deploys the format to its chosen destination.
    pub open spec fn job(self, format: Format) -> DeployJobView {
        DeployJobView { format, destination_root: self.destination(format) }
    }

    /// The first of the selected formats, in the order VST3, CLAP.
    pub open spec fn first_selected(self) -> Option<Format> {
        if self.install_vst3 {
            Some(Format::Vst3)
        } else if self.install_clap {
            Some(Format::Clap)
        } else {
            None
        }
    }

    /// The selected format that comes after `format`, if any.
    pub open spec fn next_selected(self, format: Format) -> Option<Format> {
        if format == Format::Vst3 && self.install_clap {
            Some(Format::Clap)
        } else {
            None
        }
    }

    /// What installing goes on with: the deployment of `upcoming`, or, when
    /// none is left, the installing page and from there the last page.
    pub open spec fn proceed(self, upcoming: Option<Format>) -> (WizardState, ActionView) {
        match upcoming {
            Some(format) => (self, ActionView::Deploy(self.job(format))),
            None => (
                WizardState { current_page: TabPage::Installing, ..self },
                ActionView::Emit(AppEventView::NextPage),
            ),
        }
    }

    /// What an event does to the page, the selection and the destinations,
    /// and the action it asks for. The buttons are left as they were.
    pub open spec fn advance(self, event: AppEventView) -> (WizardState, ActionView) {
        match event {
            AppEventView::ToggleInstallVst3 => (
                WizardState { install_vst3: !self.install_vst3, ..self },
                ActionView::Idle,
            ),
            AppEventView::ToggleInstallClap => (
                WizardState { install_clap: !self.install_clap, ..self },
                ActionView::Idle,
            ),
            AppEventView::PrevPage => (
                WizardState { current_page: self.current_page.predecessor(), ..self },
                ActionView::Idle,
            ),
            AppEventView::NextPage => match self.current_page {
                TabPage::Confirm => self.proceed(self.first_selected()),
                TabPage::Done => (self, ActionView::Exit(EXIT_CODE)),
                page => (
                    WizardState { current_page: page.successor().unwrap(), ..self },
                    ActionView::Idle,
                ),
            },
            AppEventView::UpdateVst3Path(path) => if self.current_page == TabPage::SelectPath {
                (WizardState { vst3_path: path, ..self }, ActionView::Idle)
            } else {
                (self, ActionView::Idle)
            },
            AppEventView::UpdateClapPath(path) => if self.current_page == TabPage::SelectPath {
                (WizardState { clap_path: path, ..self }, ActionView::Idle)
            } else {
                (self, ActionView::Idle)
            },
            AppEventView::StartInstallation => if self.current_page == TabPage::Confirm {
                self.proceed(self.first_selected())
            } else {
                (self, ActionView::Idle)
            },
            AppEventView::UpdateButtons => (self, ActionView::Idle),
            AppEventView::DeploymentFinished(format, outcome) => match outcome {
                InstallationOutcomeView::Success(_) => if self.current_page == TabPage::Confirm {
                    self.proceed(self.next_selected(format))
                } else {
                    (self, ActionView::Idle)
                },
                InstallationOutcomeView::Failure(reason, cause) => (
                    self,
                    ActionView::Notify(error_notification_of(reason, cause)),
                ),
            },
        }
    }

    /// The state after an event, with its buttons derived anew, and the
    /// action that the event asks for.
    pub open spec fn step(self, event: AppEventView) -> (WizardState, ActionView) {
        (self.advance(event).0.refresh(), self.advance(event).1)
    }

    /// Whether the event is valid in this state: going back is not, once
    /// installation has begun.
    pub open spec fn accepts(self, event: AppEventView) -> bool {
        event is PrevPage ==> self.current_page.allows_back()
    }
}

impl Clone for AppData {
    /// A wizard in the same state.
    fn clone(&self) -> (copy: AppData)
        ensures
            copy@ == self@,
    {
        proof {
            use_type_invariant(self);
        }
        AppData {
            install_vst3: self.install_vst3,
            install_clap: self.install_clap,
            current_page: self.current_page,
            show_prev_btn: self.show_prev_btn,
            show_next_btn: self.show_next_btn,
            disable_next_btn: self.disable_next_btn,
            vst3_path: self.vst3_path.clone(),
            clap_path: self.clap_path.clone(),
            next_btn_text: self.next_btn_text.clone(),
        }
    }
}

impl AppData {
    /// The buttons are those that the page and the selection give.
    #[verifier::type_invariant]
    spec fn buttons_derived(&self) -> bool {
        self@.wf()
    }

    /// A wizard on its first page, with no format selected and the default
    /// destinations.
    pub fn new() -> (data: AppData)
        ensures
            data@ == WizardState::initial(),
            data@.wf(),
    {
        AppData::from_parts(
            TabPage::SelectFormat,
            false,
            false,
            Format::Vst3.default_path(),
            Format::Clap.default_path(),
        )
    }

    /// A wizard on the given page, with the given selection and
    /// destinations. Its buttons are derived from them.
    pub fn from_parts(
        current_page: TabPage,
        install_vst3: bool,
        install_clap: bool,
        vst3_path: String,
        clap_path: String,
    ) -> (data: AppData)
        ensures
            data@ == WizardState::at(
                current_page,
                install_vst3,
                install_clap,
                vst3_path@,
                clap_path@,
            ),
            data@.wf(),
    {
        let buttons = derive_button_state(current_page, install_vst3 || install_clap);
        AppData {
            install_vst3,
            install_clap,
            current_page,
            show_prev_btn: buttons.show_prev,
            show_next_btn: buttons.show_next,
            disable_next_btn: !buttons.next_enabled,
            vst3_path,
            clap_path,
            next_btn_text: buttons.next_label,
        }
    }

    /// The page that is shown.
    pub fn current_page(&self) -> (page: TabPage)
        ensures
            page == self@.current_page,
    {
        self.current_page
    }

    /// Whether the VST3 format is selected.
    pub fn install_vst3(&self) -> (selected: bool)
        ensures
            selected == self@.install_vst3,
    {
        self.install_vst3
    }

    /// Whether the CLAP format is selected.
    pub fn install_clap(&self) -> (selected: bool)
        ensures
            selected == self@.install_clap,
    {
        self.install_clap
    }

    /// Whether the back button shows: on the path page and on the
    /// confirmation page, and on no other.
    pub fn show_prev_btn(&self) -> (shown: bool)
        ensures
            shown == self@.show_prev_btn,
            shown <==> !(self@.current_page == TabPage::SelectFormat || self@.current_page
                == TabPage::Installing || self@.current_page == TabPage::Done),
            self@.wf(),
    {
        proof {
            use_type_invariant(self);
        }
        self.show_prev_btn
    }

    /// Whether the forward button shows: on every page but the installing
    /// page.
    pub fn show_next_btn(&self) -> (shown: bool)
        ensures
            shown == self@.show_next_btn,
            shown <==> self@.current_page != TabPage::Installing,
            self@.wf(),
    {
        proof {
            use_type_invariant(self);
        }
        self.show_next_btn
    }

    /// Whether the forward button is disabled: if and only if no format is
    /// selected.
    pub fn disable_next_btn(&self) -> (disabled: bool)
        ensures
            disabled == self@.disable_next_btn,
            disabled <==> !self@.install_vst3 && !self@.install_clap,
            self@.wf(),
    {
        proof {
            use_type_invariant(self);
        }
        self.disable_next_btn
    }

    /// The destination directory chosen for VST3.
    pub fn vst3_path(&self) -> (path: &str)
        ensures
            path@ == self@.vst3_path,
    {
        self.vst3_path.as_str()
    }

    /// The destination directory chosen for CLAP.
    pub fn clap_path(&self) -> (path: &str)
        ensures
            path@ == self@.clap_path,
    {
        self.clap_path.as_str()
    }

    /// The text of the forward button: `Install` on the confirmation page,
    /// `Finish` on the last page and `Next` elsewhere.
    pub fn next_btn_text(&self) -> (text: &str)
        ensures
            text@ == self@.next_btn_text,
            text@ == next_label(self@.current_page),
            self@.wf(),
    {
        proof {
            use_type_invariant(self);
        }
        self.next_btn_text.as_str()
    }

    /// The job that deploys `format` to the destination chosen for it.
    fn job(&self, format: Format) -> (job: DeployJob)
        ensures
            job@ == self@.job(format),
    {
        let destination_root = match format {
            Format::Vst3 => self.vst3_path.clone(),
            Format::Clap => self.clap_path.clone(),
        };
        DeployJob { format, destination_root }
    }

    /// Goes on with installing: the page to show and the action to take
    /// when `upcoming` is the next format to deploy, if any.
    fn proceed(&self, upcoming: Option<Format>) -> (next: (TabPage, Action))
        ensures
            next.0 == self@.proceed(upcoming).0.current_page,
            next.1@ == self@.proceed(upcoming).1,
    {
        match upcoming {
            Some(format) => (self.current_page, Action::Deploy(self.job(format))),
            None => (TabPage::Installing, Action::Emit(AppEvent::NextPage)),
        }
    }

    /// The first of the selected formats, in the order VST3, CLAP.
    fn first_selected(&self) -> (format: Option<Format>)
        ensures
            format == self@.first_selected(),
    {
        if self.install_vst3 {
            Some(Format::Vst3)
        } else if self.install_clap {
            Some(Format::Clap)
        } else {
            None
        }
    }

    /// The selected format that comes after `format`, if any.
    fn next_selected(&self, format: Format) -> (following: Option<Format>)
        ensures
            following == self@.next_selected(format),
    {
        match format {
            Format::Vst3 => if self.install_clap {
                Some(Format::Clap)
            } else {
                None
            },
            Format::Clap => None,
        }
    }

    /// Applies one event and returns what the host is to do.
    ///
    /// - A toggle flips the selection of its format.
    /// - `PrevPage` goes one page back; the first page stays. It is not a
    ///   valid event once installation has begun.
    /// - `NextPage` goes one page forward. On the confirmation page it
    ///   starts the installation instead; on the last page it asks the host
    ///   to end the process with exit code 0.
    /// - A path update sets the destination of its format while the path
    ///   page is shown, and is ignored elsewhere.
    /// - `StartInstallation` on the confirmation page asks for the
    ///   deployment of the first selected format; with none selected the
    ///   wizard goes to the installing page at once. Elsewhere it does
    ///   nothing.
    /// - `DeploymentFinished` with a success, on the confirmation page, asks
    ///   for the deployment of the next selected format, or goes to the
    ///   installing page and asks for `NextPage`, which leads to the last
    ///   page. With a failure the page stays and the host is asked to show
    ///   the reason and the cause.
    /// - `UpdateButtons` changes nothing.
    ///
    /// After every event the buttons are derived anew.
    pub fn event(&mut self, event: AppEvent) -> (action: Action)
        requires
            old(self)@.accepts(event@),
        ensures
            final(self)@ == old(self)@.step(event@).0,
            action@ == old(self)@.step(event@).1,
            final(self)@.wf(),
    {
        let mut current_page = self.current_page;
        let mut install_vst3 = self.install_vst3;
        let mut install_clap = self.install_clap;
        let mut vst3_path = self.vst3_path.clone();
        let mut clap_path = self.clap_path.clone();
        let action = match event {
            AppEvent::ToggleInstallVst3 => {
                install_vst3 = !install_vst3;
                Action::Idle
            },
            AppEvent::ToggleInstallClap => {
                install_clap = !install_clap;
                Action::Idle
            },
            AppEvent::PrevPage => {
                current_page = current_page.prev();
                Action::Idle
            },
            AppEvent::NextPage => {
                match current_page.next() {
                    None => Action::Exit(EXIT_CODE),
                    Some(following) => {
                        if current_page == TabPage::Confirm {
                            let (page, action) = self.proceed(self.first_selected());
                            current_page = page;
                            action
                        } else {
                            current_page = following;
                            Action::Idle
                        }
                    },
                }
            },
            AppEvent::UpdateVst3Path(path) => {
                if current_page == TabPage::SelectPath {
                    vst3_path = path;
                }
                Action::Idle
            },
            AppEvent::UpdateClapPath(path) => {
                if current_page == TabPage::SelectPath {
                    clap_path = path;
                }
                Action::Idle
            },
            AppEvent::StartInstallation => {
                if current_page == TabPage::Confirm {
                    let (page, action) = self.proceed(self.first_selected());
                    current_page = page;
                    action
                } else {
                    Action::Idle
                }
            },
            AppEvent::UpdateButtons => Action::Idle,
            AppEvent::DeploymentFinished(format, outcome) => {
                match outcome {
                    InstallationOutcome::Success(_) => {
                        if current_page == TabPage::Confirm {
                            let (page, action) = self.proceed(self.next_selected(format));
                            current_page = page;
                            action
                        } else {
                            Action::Idle
                        }
                    },
                    InstallationOutcome::Failure(reason, cause) => Action::Notify(
                        error_notification(reason.as_str(), cause.as_str()),
                    ),
                }
            },
        };
        *self = AppData::from_parts(current_page, install_vst3, install_clap, vst3_path, clap_path);
        action
    }
}

} // verus!
