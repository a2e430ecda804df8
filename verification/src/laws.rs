//! What holds of the wizard and of a deployment over whole runs, proved from
//! the transition functions.

use vstd::prelude::*;
use crate::buttons::next_label;
use crate::deploy::{DeployErrorView, DeployRequestView, DeploymentView};
use crate::elevation::{
    decide_after_check, decide_after_relaunch, ElevationErrorView, StartupActionView,
};
use crate::format::{Format, RelativePathView};
use crate::notify::{error_notification_of, NotificationView};
use crate::outcome::{failure_text, outcome_of, InstallationOutcomeView};
use crate::page::TabPage;
use crate::path::{joined, path_join};
use crate::wizard::{ActionView, AppEventView, DeployJobView, WizardState};

verus! {

/// The state after a sequence of events, first to last.
pub open spec fn run(state: WizardState, events: Seq<AppEventView>) -> WizardState
    decreases events.len(),
{
    if events.len() == 0 {
        state
    } else {
        run(state, events.drop_last()).step(events.last()).0
    }
}

/// The event that toggles a format.
pub open spec fn toggle_of(format: Format) -> AppEventView {
    match format {
        Format::Vst3 => AppEventView::ToggleInstallVst3,
        Format::Clap => AppEventView::ToggleInstallClap,
    }
}

/// The events that toggle the given formats, in their order.
pub open spec fn toggles_of(formats: Seq<Format>) -> Seq<AppEventView> {
    formats.map_values(|format: Format| toggle_of(format))
}

/// How often a format occurs in a sequence.
pub open spec fn occurrences(formats: Seq<Format>, format: Format) -> nat
    decreases formats.len(),
{
    if formats.len() == 0 {
        0
    } else {
        occurrences(formats.drop_last(), format) + if formats.last() == format {
            1nat
        } else {
            0nat
        }
    }
}

/// Whatever events a wizard with derived buttons takes, its buttons stay
/// derived: the back button shows exactly on the path and confirmation
/// pages, the forward button everywhere but while installing, the forward
/// button is enabled exactly when a format is selected, and its text is that
/// of the page.
pub proof fn buttons_stay_derived(state: WizardState, events: Seq<AppEventView>)
    requires
        state.wf(),
    ensures
        run(state, events).wf(),
        run(state, events).show_prev_btn <==> !(run(state, events).current_page
            == TabPage::SelectFormat || run(state, events).current_page == TabPage::Installing
            || run(state, events).current_page == TabPage::Done),
        run(state, events).show_next_btn <==> run(state, events).current_page
            != TabPage::Installing,
        !run(state, events).disable_next_btn <==> run(state, events).install_vst3 || run(
            state,
            events,
        ).install_clap,
        run(state, events).next_btn_text == next_label(run(state, events).current_page),
    decreases events.len(),
{
    if events.len() > 0 {
        buttons_stay_derived(state, events.drop_last());
    }
}

/// After any sequence of toggles the forward button is enabled if and only
/// if at least one of the two formats is selected, and each format is
/// selected if and only if it was toggled an odd number of times more than
/// it was selected at the start. Nothing else changes.
pub proof fn toggles_decide_next_enabled(state: WizardState, formats: Seq<Format>)
    requires
        state.wf(),
    ensures
        ({
            let after = run(state, toggles_of(formats));
            &&& !after.disable_next_btn <==> after.install_vst3 || after.install_clap
            &&& after.disable_next_btn <==> !after.install_vst3 && !after.install_clap
            &&& after.install_vst3 == (state.install_vst3 != (occurrences(formats, Format::Vst3)
                % 2 == 1))
            &&& after.install_clap == (state.install_clap != (occurrences(formats, Format::Clap)
                % 2 == 1))
            &&& after.current_page == state.current_page
            &&& after.vst3_path == state.vst3_path
            &&& after.clap_path == state.clap_path
        }),
    decreases formats.len(),
{
    if formats.len() > 0 {
        toggles_decide_next_enabled(state, formats.drop_last());
        assert(toggles_of(formats).drop_last() == toggles_of(formats.drop_last()));
        assert(toggles_of(formats).last() == toggle_of(formats.last()));
    }
}

/// An event moves the wizard by one page at most: to the page before, to the
/// page after, or nowhere.
pub proof fn event_moves_one_page_at_most(state: WizardState, event: AppEventView)
    requires
        state.accepts(event),
    ensures
        ({
            let from = state.current_page.position();
            let to = state.step(event).0.current_page.position();
            to == from || to == from + 1 || to == from - 1
        }),
        state.step(event).0.current_page.position() == state.current_page.position() - 1
            ==> event is PrevPage,
        state.step(event).1 is Exit <==> event is NextPage && state.current_page == TabPage::Done,
{
}

/// A destination changes only through its own update event, and only while
/// the path page is shown. The selection changes only through a toggle, and
/// a toggle leaves the other format as it was.
pub proof fn edits_are_confined(state: WizardState, event: AppEventView)
    ensures
        state.step(event).0.vst3_path != state.vst3_path ==> state.current_page
            == TabPage::SelectPath && event is UpdateVst3Path,
        state.step(event).0.clap_path != state.clap_path ==> state.current_page
            == TabPage::SelectPath && event is UpdateClapPath,
        state.step(event).0.install_vst3 != state.install_vst3 <==> event is ToggleInstallVst3,
        state.step(event).0.install_clap != state.install_clap <==> event is ToggleInstallClap,
{
}

/// What a host has seen of an installation.
pub struct Installation {
    /// The state of the wizard.
    pub state: WizardState,
    /// The deployments that the host was asked for, first to last.
    pub deployed: Seq<DeployJobView>,
    /// The notifications that the host was asked to show, first to last.
    pub notified: Seq<NotificationView>,
}

/// What a host does with an action while it installs, up to `fuel` actions:
/// it deploys the job and reports the outcome that `outcomes` holds for the
/// job's format, sends on an event it is asked to send, and shows a
/// notification; any other action ends the run.
pub open spec fn drive(
    state: WizardState,
    action: ActionView,
    outcomes: spec_fn(Format) -> InstallationOutcomeView,
    fuel: nat,
) -> Installation
    decreases fuel,
{
    if fuel == 0 {
        Installation { state, deployed: seq![], notified: seq![] }
    } else {
        match action {
            ActionView::Deploy(job) => {
                let (next, then) = state.step(
                    AppEventView::DeploymentFinished(job.format, outcomes(job.format)),
                );
                let rest = drive(next, then, outcomes, (fuel - 1) as nat);
                Installation { deployed: seq![job] + rest.deployed, ..rest }
            },
            ActionView::Emit(event) => {
                let (next, then) = state.step(event);
                drive(next, then, outcomes, (fuel - 1) as nat)
            },
            ActionView::Notify(notification) => Installation {
                state,
                deployed: seq![],
                notified: seq![notification],
            },
            _ => Installation { state, deployed: seq![], notified: seq![] },
        }
    }
}

/// What pressing the forward button leads to when the host serves up to
/// `fuel` of the actions that follow, and the deployment of each format ends
/// as `outcomes` says.
pub open spec fn install_within(
    state: WizardState,
    outcomes: spec_fn(Format) -> InstallationOutcomeView,
    fuel: nat,
) -> Installation {
    let (next, then) = state.step(AppEventView::NextPage);
    drive(next, then, outcomes, fuel)
}

/// The installation that pressing the forward button on the confirmation
/// page leads to, when the deployment of each format ends as `outcomes`
/// says. At most four actions follow the press: two deployments, the step
/// from the installing page, and the action that ends the run.
pub open spec fn install(
    state: WizardState,
    outcomes: spec_fn(Format) -> InstallationOutcomeView,
) -> Installation {
    install_within(state, outcomes, 4)
}

/// The selected formats in the order in which they are deployed.
pub open spec fn selected_formats(state: WizardState) -> Seq<Format> {
    (if state.install_vst3 {
        seq![Format::Vst3]
    } else {
        seq![]
    }) + (if state.install_clap {
        seq![Format::Clap]
    } else {
        seq![]
    })
}

/// The number of selected formats that are deployed: all of them, or those
/// up to the first whose deployment fails.
pub open spec fn attempts(
    state: WizardState,
    outcomes: spec_fn(Format) -> InstallationOutcomeView,
) -> nat {
    let formats = selected_formats(state);
    if formats.len() == 2 && outcomes(formats[0]) is Failure {
        1
    } else {
        formats.len()
    }
}

/// The wizard on the last page, with the selection and the destinations of
/// `state`.
spec fn finished(state: WizardState) -> WizardState {
    WizardState { current_page: TabPage::Done, ..state }.refresh()
}

/// The end of an installation in which `deployed` were asked for and the
/// last of them ended with `outcome`.
spec fn ending(
    state: WizardState,
    deployed: Seq<DeployJobView>,
    outcome: InstallationOutcomeView,
) -> Installation {
    match outcome {
        InstallationOutcomeView::Success(_) => Installation {
            state: finished(state),
            deployed,
            notified: seq![],
        },
        InstallationOutcomeView::Failure(reason, cause) => Installation {
            state: state.refresh(),
            deployed,
            notified: seq![error_notification_of(reason, cause)],
        },
    }
}

/// The installation written out for each selection.
proof fn install_unfolds(
    state: WizardState,
    outcomes: spec_fn(Format) -> InstallationOutcomeView,
    fuel: nat,
)
    requires
        state.current_page == TabPage::Confirm,
        fuel >= 4,
    ensures
        !state.install_vst3 && !state.install_clap ==> install_within(state, outcomes, fuel) == (Installation {
            state: finished(state),
            deployed: seq![],
            notified: seq![],
        }),
        state.install_vst3 && !state.install_clap ==> install_within(state, outcomes, fuel) == ending(
            state,
            seq![state.job(Format::Vst3)],
            outcomes(Format::Vst3),
        ),
        !state.install_vst3 && state.install_clap ==> install_within(state, outcomes, fuel) == ending(
            state,
            seq![state.job(Format::Clap)],
            outcomes(Format::Clap),
        ),
        state.install_vst3 && state.install_clap && outcomes(Format::Vst3) is Failure ==> install_within(
            state,
            outcomes,
            fuel,
        ) == ending(state, seq![state.job(Format::Vst3)], outcomes(Format::Vst3)),
        state.install_vst3 && state.install_clap && outcomes(Format::Vst3) is Success ==> install_within(
            state,
            outcomes,
            fuel,
        ) == ending(
            state,
            seq![state.job(Format::Vst3), state.job(Format::Clap)],
            outcomes(Format::Clap),
        ),
{
    let confirm = state.refresh();
    let installing = WizardState { current_page: TabPage::Installing, ..state }.refresh();
    let done = finished(state);
    let idle = Installation { state: done, deployed: seq![], notified: seq![] };
    let next = ActionView::Emit(AppEventView::NextPage);
    let vst3 = AppEventView::DeploymentFinished(Format::Vst3, outcomes(Format::Vst3));
    let clap = AppEventView::DeploymentFinished(Format::Clap, outcomes(Format::Clap));

    // From the installing page the wizard goes on to the last page by itself.
    assert(installing.step(AppEventView::NextPage) == (done, ActionView::Idle));
    assert forall|fuel: nat| fuel >= 1 implies #[trigger] drive(done, ActionView::Idle, outcomes, fuel)
        == idle by {}
    assert forall|fuel: nat| fuel >= 2 implies #[trigger] drive(installing, next, outcomes, fuel)
        == idle by {
        assert(drive(done, ActionView::Idle, outcomes, (fuel - 1) as nat) == idle);
    }

    // A failure is shown and ends the run on the confirmation page.
    assert forall|fuel: nat, reason: Seq<char>, cause: Seq<char>| fuel >= 1 implies #[trigger] drive(
        confirm,
        ActionView::Notify(error_notification_of(reason, cause)),
        outcomes,
        fuel,
    ) == (Installation {
        state: confirm,
        deployed: seq![],
        notified: seq![error_notification_of(reason, cause)],
    }) by {}

    if !state.install_vst3 && !state.install_clap {
        assert(state.step(AppEventView::NextPage) == (installing, next));
        assert(drive(installing, next, outcomes, fuel) == idle);
    } else if state.install_vst3 && !state.install_clap {
        let job = state.job(Format::Vst3);
        assert(state.step(AppEventView::NextPage) == (confirm, ActionView::Deploy(job)));
        match outcomes(Format::Vst3) {
            InstallationOutcomeView::Success(_) => {
                assert(confirm.step(vst3) == (installing, next));
                assert(drive(installing, next, outcomes, (fuel - 1) as nat) == idle);
                assert(seq![job] + Seq::<DeployJobView>::empty() =~= seq![job]);
            },
            InstallationOutcomeView::Failure(reason, cause) => {
                let shown = ActionView::Notify(error_notification_of(reason, cause));
                assert(confirm.step(vst3) == (confirm, shown));
                assert(drive(confirm, shown, outcomes, (fuel - 1) as nat).deployed == Seq::<DeployJobView>::empty());
                assert(seq![job] + Seq::<DeployJobView>::empty() =~= seq![job]);
            },
        }
    } else if !state.install_vst3 && state.install_clap {
        let job = state.job(Format::Clap);
        assert(state.step(AppEventView::NextPage) == (confirm, ActionView::Deploy(job)));
        match outcomes(Format::Clap) {
            InstallationOutcomeView::Success(_) => {
                assert(confirm.step(clap) == (installing, next));
                assert(drive(installing, next, outcomes, (fuel - 1) as nat) == idle);
                assert(seq![job] + Seq::<DeployJobView>::empty() =~= seq![job]);
            },
            InstallationOutcomeView::Failure(reason, cause) => {
                let shown = ActionView::Notify(error_notification_of(reason, cause));
                assert(confirm.step(clap) == (confirm, shown));
                assert(drive(confirm, shown, outcomes, (fuel - 1) as nat).deployed == Seq::<DeployJobView>::empty());
                assert(seq![job] + Seq::<DeployJobView>::empty() =~= seq![job]);
            },
        }
    } else {
        let first = state.job(Format::Vst3);
        let second = state.job(Format::Clap);
        assert(confirm.job(Format::Clap) == second);
        assert(state.step(AppEventView::NextPage) == (confirm, ActionView::Deploy(first)));
        match outcomes(Format::Vst3) {
            InstallationOutcomeView::Success(_) => {
                assert(confirm.step(vst3) == (confirm, ActionView::Deploy(second)));
                match outcomes(Format::Clap) {
                    InstallationOutcomeView::Success(_) => {
                        assert(confirm.step(clap) == (installing, next));
                        assert(drive(installing, next, outcomes, (fuel - 2) as nat) == idle);
                        assert(drive(confirm, ActionView::Deploy(second), outcomes, (fuel - 1) as nat).deployed
                            =~= seq![second]);
                    },
                    InstallationOutcomeView::Failure(reason, cause) => {
                        let shown = ActionView::Notify(error_notification_of(reason, cause));
                        assert(confirm.step(clap) == (confirm, shown));
                        assert(drive(confirm, shown, outcomes, (fuel - 2) as nat).deployed == Seq::<
                            DeployJobView,
                        >::empty());
                        assert(drive(confirm, ActionView::Deploy(second), outcomes, (fuel - 1) as nat).deployed
                            =~= seq![second]);
                    },
                }
                assert(seq![first] + seq![second] =~= seq![first, second]);
            },
            InstallationOutcomeView::Failure(reason, cause) => {
                let shown = ActionView::Notify(error_notification_of(reason, cause));
                assert(confirm.step(vst3) == (confirm, shown));
                assert(drive(confirm, shown, outcomes, (fuel - 1) as nat).deployed == Seq::<DeployJobView>::empty());
                assert(seq![first] + Seq::<DeployJobView>::empty() =~= seq![first]);
            },
        }
    }
}

/// Pressing the forward button on the confirmation page reaches the last
/// page if and only if the deployment of every selected format succeeds;
/// if one fails the wizard stays on the confirmation page. The selected
/// formats are deployed one after the other, each to its chosen destination,
/// up to the first failure, and none after it. A failure is shown once, with
/// its reason and cause, and nothing is shown otherwise. The run is over by
/// then: a host that would serve more actions finds none.
pub proof fn installation_succeeds_iff_every_deployment_does(
    state: WizardState,
    outcomes: spec_fn(Format) -> InstallationOutcomeView,
)
    requires
        state.current_page == TabPage::Confirm,
    ensures
        ({
            let end = install(state, outcomes);
            let formats = selected_formats(state);
            let count = attempts(state, outcomes);
            let every = forall|format: Format|
                state.selected(format) ==> outcomes(format) is Success;
            &&& every <==> end.state.current_page == TabPage::Done
            &&& !every <==> end.state.current_page == TabPage::Confirm
            &&& end.state.wf()
            &&& end.state.install_vst3 == state.install_vst3
            &&& end.state.install_clap == state.install_clap
            &&& end.state.vst3_path == state.vst3_path
            &&& end.state.clap_path == state.clap_path
            &&& end.deployed.len() == count
            &&& forall|i: int|
                0 <= i < count ==> end.deployed[i] == state.job(#[trigger] formats[i])
            &&& forall|i: int|
                0 <= i < count - 1 ==> outcomes(#[trigger] formats[i]) is Success
            &&& every ==> end.notified.len() == 0
            &&& !every ==> end.notified.len() == 1 && outcomes(formats[count - 1]) is Failure
                && end.notified[0] == error_notification_of(
                outcomes(formats[count - 1])->Failure_0,
                outcomes(formats[count - 1])->Failure_1,
            )
            &&& forall|fuel: nat| fuel >= 4 ==> #[trigger] install_within(state, outcomes, fuel) == end
        }),
{
    install_unfolds(state, outcomes, 4);
    assert forall|fuel: nat| fuel >= 4 implies #[trigger] install_within(state, outcomes, fuel)
        == install(state, outcomes) by {
        install_unfolds(state, outcomes, fuel);
    }
    let every = forall|format: Format| state.selected(format) ==> outcomes(format) is Success;
    assert(every <==> (state.install_vst3 ==> outcomes(Format::Vst3) is Success) && (
    state.install_clap ==> outcomes(Format::Clap) is Success)) by {
        assert(state.selected(Format::Vst3) == state.install_vst3);
        assert(state.selected(Format::Clap) == state.install_clap);
        if (state.install_vst3 ==> outcomes(Format::Vst3) is Success) && (state.install_clap
            ==> outcomes(Format::Clap) is Success) {
            assert forall|format: Format| state.selected(format) implies outcomes(
                format,
            ) is Success by {
                match format {
                    Format::Vst3 => {},
                    Format::Clap => {},
                }
            }
        }
    }
    if state.install_vst3 && state.install_clap {
        assert(selected_formats(state) =~= seq![Format::Vst3, Format::Clap]);
    } else if state.install_vst3 {
        assert(selected_formats(state) =~= seq![Format::Vst3]);
    } else if state.install_clap {
        assert(selected_formats(state) =~= seq![Format::Clap]);
    } else {
        assert(selected_formats(state) =~= seq![]);
    }
}

/// No deployment error is swallowed: reported to the wizard on any page, it
/// is shown under the title `Error` with what went wrong, the path
/// concerned and, on a line of its own, the cause. The page, the selection
/// and the destinations stay as they were.
pub proof fn every_deployment_error_is_shown(
    state: WizardState,
    format: Format,
    error: DeployErrorView,
)
    ensures
        ({
            let report = AppEventView::DeploymentFinished(
                format,
                outcome_of(format, Err(error)),
            );
            &&& state.step(report).1 == ActionView::Notify(
                NotificationView {
                    title: "Error"@,
                    message: failure_text(format, error) + ": "@ + error.path() + "\n"@
                        + error.cause(),
                },
            )
            &&& state.step(report).0 == state.refresh()
        }),
{
}

/// A deployment asks for the directories first and for the file only once
/// they are in place. It succeeds with the path written if and only if both
/// steps succeed; a failure of the first ends it with the directory, a
/// failure of the second with the file, each with its cause. Once it has
/// ended it asks for nothing more, and further reports change nothing.
pub proof fn deployment_runs_in_order(
    payload: Seq<u8>,
    parent_path: Seq<char>,
    final_path: Seq<char>,
    directories: Result<(), Seq<char>>,
    write: Result<(), Seq<char>>,
    later: Result<(), Seq<char>>,
)
    ensures
        ({
            let start = DeploymentView::start(payload, parent_path, final_path);
            let middle = start.respond(directories);
            let end = middle.respond(write);
            &&& start.request() == DeployRequestView::CreateDirectories(parent_path)
            &&& !start.finished()
            &&& middle.payload == payload
            &&& match directories {
                Ok(_) => {
                    &&& middle.request() == DeployRequestView::WriteFile(final_path)
                    &&& end.finished()
                    &&& end.payload == payload
                    &&& end.request() == DeployRequestView::Finished
                    &&& end.respond(later) == end
                    &&& match write {
                        Ok(_) => end.result() == Some(
                            Ok::<Seq<char>, DeployErrorView>(final_path),
                        ),
                        Err(cause) => end.result() == Some(
                            Err::<Seq<char>, DeployErrorView>(
                                DeployErrorView::WriteFailed(final_path, cause),
                            ),
                        ),
                    }
                },
                Err(cause) => {
                    &&& middle.finished()
                    &&& middle.request() == DeployRequestView::Finished
                    &&& middle.result() == Some(
                        Err::<Seq<char>, DeployErrorView>(
                            DeployErrorView::DirectoryCreation(parent_path, cause),
                        ),
                    )
                    &&& end == middle
                },
            }
        }),
{
}

/// How the file system answers the two requests of one deployment.
pub struct Answers {
    /// The answer to the creation of the directories.
    pub directories: Result<(), Seq<char>>,
    /// The answer to the writing of the file; it counts only if the
    /// directories were created.
    pub write: Result<(), Seq<char>>,
}

/// The outcome of deploying `payload` as `format` to the destination chosen
/// in `state`, when the file system answers with `answers`.
pub open spec fn deployed(
    state: WizardState,
    format: Format,
    payload: Seq<u8>,
    answers: Answers,
) -> InstallationOutcomeView {
    let plan = DeploymentView::plan(payload, state.destination(format), format.layout());
    outcome_of(format, plan.respond(answers.directories).respond(answers.write).result().unwrap())
}

/// From the file system to the last page: when every deployment is carried
/// out as planned, pressing the forward button on the confirmation page
/// reaches the last page if and only if, for every selected format, the
/// directories could be created and the file could be written. Otherwise the
/// wizard stays on the confirmation page.
pub proof fn installation_follows_the_file_system(
    state: WizardState,
    payloads: spec_fn(Format) -> Seq<u8>,
    answers: spec_fn(Format) -> Answers,
)
    requires
        state.current_page == TabPage::Confirm,
    ensures
        ({
            let outcomes = |format: Format|
                deployed(state, format, payloads(format), answers(format));
            let every = forall|format: Format|
                state.selected(format) ==> answers(format).directories is Ok && answers(
                    format,
                ).write is Ok;
            &&& every <==> install(state, outcomes).state.current_page == TabPage::Done
            &&& !every <==> install(state, outcomes).state.current_page == TabPage::Confirm
        }),
{
    let outcomes = |format: Format| deployed(state, format, payloads(format), answers(format));
    installation_succeeds_iff_every_deployment_does(state, outcomes);
    assert forall|format: Format| #[trigger]
        outcomes(format) is Success <==> answers(format).directories is Ok && answers(
            format,
        ).write is Ok by {
        deployment_runs_in_order(
            payloads(format),
            DeploymentView::plan(
                payloads(format),
                state.destination(format),
                format.layout(),
            ).parent_path,
            DeploymentView::plan(
                payloads(format),
                state.destination(format),
                format.layout(),
            ).final_path,
            answers(format).directories,
            answers(format).write,
            Ok(()),
        );
    }
}

/// The file of a planned deployment lies in the directory that is created
/// for it, under the file name of the relative path, and that directory is
/// the destination joined with every directory of the relative path.
pub proof fn file_lies_in_created_directory(
    payload: Seq<u8>,
    destination_root: Seq<char>,
    relative: RelativePathView,
)
    ensures
        ({
            let plan = DeploymentView::plan(payload, destination_root, relative);
            &&& plan.payload == payload
            &&& plan.parent_path == joined(destination_root, relative.directories)
            &&& plan.final_path == path_join(plan.parent_path, relative.file_name)
            &&& plan.request() == DeployRequestView::CreateDirectories(plan.parent_path)
            &&& plan.respond(Ok(())).request() == DeployRequestView::WriteFile(plan.final_path)
        }),
{
}

/// The wizard is built only in a process that the check found elevated. A
/// process that is not elevated is launched again and, however that goes,
/// ends without building anything; a failed check is shown and ends the
/// process with no relaunch. A failure is shown exactly when there is one,
/// with its cause, and every exit code is 0.
pub proof fn only_an_elevated_process_proceeds(
    check: Result<bool, ElevationErrorView>,
    relaunch: Result<(), ElevationErrorView>,
)
    ensures
        decide_after_check(check) is Proceed <==> check == Ok::<bool, ElevationErrorView>(true),
        decide_after_check(check) is Relaunch <==> check == Ok::<bool, ElevationErrorView>(false),
        decide_after_check(check) is NotifyAndExit <==> check is Err,
        !(decide_after_check(check) is Exit),
        decide_after_check(check) matches StartupActionView::NotifyAndExit(shown, code) ==> code
            == 0 && shown.title == "Error"@ && shown.message
            == "Failed to call check_elevated"@ + "\n"@ + check->Err_0.cause(),
        decide_after_relaunch(relaunch) is Exit <==> relaunch is Ok,
        decide_after_relaunch(relaunch) is NotifyAndExit <==> relaunch is Err,
        decide_after_relaunch(relaunch) matches StartupActionView::Exit(code) ==> code == 0,
        decide_after_relaunch(relaunch) matches StartupActionView::NotifyAndExit(shown, code)
            ==> code == 0 && shown.title == "Error"@ && shown.message
            == "User rejected privilege request, installation cannot continue"@ + "\n"@
            + relaunch->Err_0.cause(),
{
}

} // verus!
