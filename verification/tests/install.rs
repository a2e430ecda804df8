use im_installer::deploy::{DeployError, DeployRequest, Deployment};
use im_installer::format::{Format, RelativePath};
use im_installer::notify::Notification;
use im_installer::outcome::InstallationOutcome;
use im_installer::page::TabPage;
use im_installer::path::join_all;
use im_installer::wizard::{Action, AppData, AppEvent};
use std::path::{Path, PathBuf};

/// A file system held in memory, for a host to deploy into.
struct MemoryFs {
    directories: Vec<PathBuf>,
    files: Vec<(PathBuf, Vec<u8>)>,
    /// Directories below which nothing may be written.
    protected: Vec<PathBuf>,
    /// Directories below which nothing may be created.
    sealed: Vec<PathBuf>,
    /// Every request served, in order.
    log: Vec<DeployRequest>,
}

impl MemoryFs {
    fn new() -> MemoryFs {
        MemoryFs { directories: Vec::new(), files: Vec::new(), protected: Vec::new(), sealed: Vec::new(), log: Vec::new() }
    }

    fn create_dir_all(&mut self, path: &str) -> Result<(), String> {
        let path = Path::new(path);
        if self.sealed.iter().any(|s| path.starts_with(s)) {
            return Err(String::from("Read-only file system (os error 30)"));
        }
        for ancestor in path.ancestors() {
            if !self.directories.iter().any(|d| d == ancestor) {
                self.directories.push(ancestor.to_path_buf());
            }
        }
        Ok(())
    }

    fn write(&mut self, path: &str, bytes: &[u8]) -> Result<(), String> {
        let path = Path::new(path);
        if self.protected.iter().any(|p| path.starts_with(p)) {
            return Err(String::from("Permission denied (os error 13)"));
        }
        let parent = path.parent().unwrap();
        if !self.directories.iter().any(|d| d == parent) {
            return Err(String::from("No such file or directory (os error 2)"));
        }
        self.files.retain(|(p, _)| p != path);
        self.files.push((path.to_path_buf(), bytes.to_vec()));
        Ok(())
    }

    fn read(&self, path: &str) -> Option<Vec<u8>> {
        self.files.iter().find(|(p, _)| p == Path::new(path)).map(|(_, bytes)| bytes.clone())
    }

    fn has_directory(&self, path: &str) -> bool {
        self.directories.iter().any(|d| d == Path::new(path))
    }

    /// Carries out one deployment as a host does.
    fn deploy(&mut self, payload: &[u8], root: &str, relative: &RelativePath) -> Result<String, DeployError> {
        let mut deployment = Deployment::new(payload.to_vec(), root, relative);
        loop {
            let request = deployment.request();
            self.log.push(request.clone());
            match request {
                DeployRequest::CreateDirectories(path) => {
                    let report = self.create_dir_all(&path);
                    deployment.respond(report);
                }
                DeployRequest::WriteFile(path) => {
                    let report = self.write(&path, deployment.payload());
                    deployment.respond(report);
                }
                DeployRequest::Finished => break,
            }
        }
        assert!(deployment.is_finished());
        deployment.result().unwrap()
    }
}

fn payload_of(format: Format) -> Vec<u8> {
    match format {
        Format::Vst3 => vec![0x56, 0x53, 0x54, 0x33, 0x00, 0xff],
        Format::Clap => vec![0x43, 0x4c, 0x41, 0x50],
    }
}

/// Sends `first` to the wizard and serves every action that follows, as a
/// host does. Returns the notifications shown.
fn serve(wizard: &mut AppData, fs: &mut MemoryFs, first: AppEvent) -> Vec<Notification> {
    let mut shown = Vec::new();
    let mut action = wizard.event(first);
    loop {
        action = match action {
            Action::Deploy(job) => {
                let result = fs.deploy(&payload_of(job.format), &job.destination_root, &job.format.relative_install_path());
                let outcome = InstallationOutcome::from_result(job.format, result);
                wizard.event(AppEvent::DeploymentFinished(job.format, outcome))
            }
            Action::Emit(event) => wizard.event(event),
            Action::Notify(notification) => {
                shown.push(notification);
                break;
            }
            Action::Idle | Action::Exit(_) => break,
        };
    }
    shown
}

fn text(path: PathBuf) -> String {
    path.to_string_lossy().into_owned()
}

#[test]
fn vst3_goes_into_a_bundle_with_a_contents_directory() {
    let relative = Format::Vst3.relative_install_path();
    assert_eq!(relative.directories, vec![String::from("im_disperser"), String::from("Contents")]);
    assert_eq!(relative.file_name, "im_disperser.vst3");
}

#[test]
fn clap_goes_into_the_product_directory() {
    let relative = Format::Clap.relative_install_path();
    assert_eq!(relative.directories, vec![String::from("im_disperser")]);
    assert_eq!(relative.file_name, "im_disperser.clap");
}

#[test]
fn formats_have_their_default_destinations_and_names() {
    assert_eq!(Format::Vst3.default_path(), "C:\\Program Files\\Common Files\\VST3");
    assert_eq!(Format::Clap.default_path(), "C:\\Program Files\\Common Files\\CLAP");
    assert_eq!(Format::Vst3.display_name(), "VST3");
    assert_eq!(Format::Clap.display_name(), "CLAP");
}

#[test]
fn join_all_joins_each_component_in_turn() {
    let components = vec![String::from("im_disperser"), String::from("Contents")];
    let joined = join_all("/opt/plugins", &components);
    assert_eq!(joined, text(Path::new("/opt/plugins").join("im_disperser").join("Contents")));
    assert_ne!(joined, "/opt/plugins");
    assert!(joined.starts_with("/opt/plugins"));
    assert!(joined.ends_with("Contents"));
    assert_eq!(join_all("/opt/plugins", &Vec::new()), "/opt/plugins");
}

#[test]
fn join_all_lets_an_absolute_component_replace_what_came_before() {
    let components = vec![String::from("a"), String::from("/elsewhere"), String::from("b")];
    let expected = Path::new("somewhere").join("a").join("/elsewhere").join("b");
    assert_eq!(join_all("somewhere", &components), text(expected));
    if Path::new("/elsewhere").is_absolute() {
        assert_eq!(join_all("somewhere", &components), text(Path::new("/elsewhere").join("b")));
    }
}

#[test]
fn deployment_plans_the_joined_paths() {
    let deployment = Deployment::new(vec![1, 2, 3], "/opt/vst3", &Format::Vst3.relative_install_path());
    let parent = Path::new("/opt/vst3").join("im_disperser").join("Contents");
    assert_eq!(deployment.request(), DeployRequest::CreateDirectories(text(parent.clone())));
    assert_eq!(deployment.payload(), &vec![1, 2, 3]);
    assert!(!deployment.is_finished());
    assert_eq!(deployment.result(), None);

    let mut deployment = deployment;
    deployment.respond(Ok(()));
    assert_eq!(deployment.request(), DeployRequest::WriteFile(text(parent.join("im_disperser.vst3"))));
}

#[test]
fn deployment_creates_directories_before_it_writes() {
    let mut deployment = Deployment::with_paths(vec![7, 8], String::from("dir"), String::from("dir/file"));
    assert_eq!(deployment.request(), DeployRequest::CreateDirectories(String::from("dir")));
    assert!(!deployment.is_finished());
    deployment.respond(Ok(()));
    assert_eq!(deployment.request(), DeployRequest::WriteFile(String::from("dir/file")));
    assert_eq!(deployment.payload(), &vec![7, 8]);
    assert!(!deployment.is_finished());
    assert_eq!(deployment.result(), None);
    deployment.respond(Ok(()));
    assert_eq!(deployment.request(), DeployRequest::Finished);
    assert!(deployment.is_finished());
    assert_eq!(deployment.result(), Some(Ok(String::from("dir/file"))));
}

#[test]
fn directory_failure_ends_the_deployment_without_a_write() {
    let mut deployment = Deployment::with_paths(vec![7], String::from("dir"), String::from("dir/file"));
    deployment.respond(Err(String::from("disk full")));
    assert!(deployment.is_finished());
    assert_eq!(deployment.request(), DeployRequest::Finished);
    assert_eq!(
        deployment.result(),
        Some(Err(DeployError::DirectoryCreation(String::from("dir"), String::from("disk full"))))
    );
}

#[test]
fn write_failure_names_the_file_and_the_cause() {
    let mut deployment = Deployment::with_paths(vec![7], String::from("dir"), String::from("dir/file"));
    deployment.respond(Ok(()));
    deployment.respond(Err(String::from("denied")));
    assert!(deployment.is_finished());
    assert_eq!(deployment.request(), DeployRequest::Finished);
    let error = DeployError::WriteFailed(String::from("dir/file"), String::from("denied"));
    assert_eq!(deployment.result(), Some(Err(error.clone())));
    assert_eq!(error.path(), "dir/file");
    assert_eq!(error.cause(), "denied");
}

#[test]
fn directory_error_gives_its_path_and_cause() {
    let error = DeployError::DirectoryCreation(String::from("dir"), String::from("disk full"));
    assert_eq!(error.path(), "dir");
    assert_eq!(error.cause(), "disk full");
}

#[test]
fn reports_after_the_end_change_nothing() {
    let mut failed = Deployment::with_paths(vec![], String::from("dir"), String::from("dir/file"));
    failed.respond(Err(String::from("first")));
    failed.respond(Ok(()));
    failed.respond(Err(String::from("second")));
    assert_eq!(
        failed.result(),
        Some(Err(DeployError::DirectoryCreation(String::from("dir"), String::from("first"))))
    );

    let mut done = Deployment::with_paths(vec![], String::from("dir"), String::from("dir/file"));
    done.respond(Ok(()));
    done.respond(Ok(()));
    done.respond(Err(String::from("late")));
    assert_eq!(done.result(), Some(Ok(String::from("dir/file"))));
}

#[test]
fn success_becomes_an_outcome_with_the_path() {
    let outcome = InstallationOutcome::from_result(Format::Clap, Ok(String::from("/c/im_disperser.clap")));
    assert_eq!(outcome, InstallationOutcome::Success(String::from("/c/im_disperser.clap")));
    assert!(outcome.is_success());
}

#[test]
fn failures_become_outcomes_with_reason_path_and_cause() {
    let directory = |cause: &str| DeployError::DirectoryCreation(String::from("/d"), String::from(cause));
    let write = |cause: &str| DeployError::WriteFailed(String::from("/d/f"), String::from(cause));
    assert_eq!(
        InstallationOutcome::from_result(Format::Vst3, Err(directory("c1"))),
        InstallationOutcome::Failure(String::from("Failed to create VST3 directory: /d"), String::from("c1"))
    );
    assert_eq!(
        InstallationOutcome::from_result(Format::Vst3, Err(write("c2"))),
        InstallationOutcome::Failure(
            String::from("Failed to write VST3 file (Permission denied?): /d/f"),
            String::from("c2")
        )
    );
    assert_eq!(
        InstallationOutcome::from_result(Format::Clap, Err(directory("c3"))),
        InstallationOutcome::Failure(String::from("Failed to create CLAP directory: /d"), String::from("c3"))
    );
    let outcome = InstallationOutcome::from_result(Format::Clap, Err(write("c4")));
    assert_eq!(
        outcome,
        InstallationOutcome::Failure(String::from("Failed to write CLAP file: /d/f"), String::from("c4"))
    );
    assert!(!outcome.is_success());
}

#[test]
fn deploying_twice_leaves_the_same_bytes_and_no_error() {
    let mut fs = MemoryFs::new();
    let relative = Format::Vst3.relative_install_path();
    let payload = payload_of(Format::Vst3);
    let first = fs.deploy(&payload, "/opt/vst3", &relative).unwrap();
    let after_first = fs.read(&first).unwrap();
    let second = fs.deploy(&payload, "/opt/vst3", &relative).unwrap();
    let after_second = fs.read(&second).unwrap();
    assert_eq!(first, second);
    assert_eq!(after_first, payload);
    assert_eq!(after_second, payload);
    assert_eq!(fs.files.len(), 1);
}

#[test]
fn deploying_replaces_what_was_at_the_destination() {
    let mut fs = MemoryFs::new();
    let relative = Format::Clap.relative_install_path();
    let path = fs.deploy(&[1, 1, 1, 1, 1, 1], "/opt/clap", &relative).unwrap();
    let again = fs.deploy(&[2, 2], "/opt/clap", &relative).unwrap();
    assert_eq!(path, again);
    assert_eq!(fs.read(&path).unwrap(), vec![2, 2]);
}

#[test]
fn deploying_below_an_empty_root_creates_the_whole_path() {
    let mut fs = MemoryFs::new();
    assert!(fs.directories.is_empty());
    let written = fs.deploy(&payload_of(Format::Vst3), "/fresh/root", &Format::Vst3.relative_install_path()).unwrap();
    let product = Path::new("/fresh/root").join("im_disperser");
    let contents = product.join("Contents");
    assert!(fs.has_directory("/fresh"));
    assert!(fs.has_directory("/fresh/root"));
    assert!(fs.has_directory(&text(product)));
    assert!(fs.has_directory(&text(contents.clone())));
    assert_eq!(written, text(contents.join("im_disperser.vst3")));
    assert_eq!(fs.read(&written).unwrap(), payload_of(Format::Vst3));
    assert_eq!(
        fs.log,
        vec![
            DeployRequest::CreateDirectories(text(contents.clone())),
            DeployRequest::WriteFile(text(contents.join("im_disperser.vst3"))),
            DeployRequest::Finished,
        ]
    );
}

#[test]
fn sealed_root_fails_with_directory_creation() {
    let mut fs = MemoryFs::new();
    fs.sealed.push(PathBuf::from("/sealed"));
    let result = fs.deploy(&payload_of(Format::Clap), "/sealed/clap", &Format::Clap.relative_install_path());
    assert_eq!(
        result,
        Err(DeployError::DirectoryCreation(
            text(Path::new("/sealed/clap").join("im_disperser")),
            String::from("Read-only file system (os error 30)")
        ))
    );
    assert!(fs.files.is_empty());
    assert_eq!(fs.log.len(), 2);
    assert_eq!(fs.log[1], DeployRequest::Finished);
}

#[test]
fn protected_destination_keeps_the_wizard_on_confirm() {
    let mut fs = MemoryFs::new();
    fs.protected.push(PathBuf::from("/protected"));
    let mut wizard = AppData::new();
    assert!(serve(&mut wizard, &mut fs, AppEvent::ToggleInstallVst3).is_empty());
    assert!(serve(&mut wizard, &mut fs, AppEvent::NextPage).is_empty());
    assert!(serve(&mut wizard, &mut fs, AppEvent::UpdateVst3Path(String::from("/protected/vst3"))).is_empty());
    assert!(serve(&mut wizard, &mut fs, AppEvent::NextPage).is_empty());
    assert_eq!(wizard.current_page(), TabPage::Confirm);

    let shown = serve(&mut wizard, &mut fs, AppEvent::NextPage);

    let file = text(Path::new("/protected/vst3").join("im_disperser").join("Contents").join("im_disperser.vst3"));
    assert_eq!(
        shown,
        vec![Notification {
            title: String::from("Error"),
            message: format!(
                "Failed to write VST3 file (Permission denied?): {}\nPermission denied (os error 13)",
                file
            ),
        }]
    );
    assert_eq!(wizard.current_page(), TabPage::Confirm);
    assert!(fs.files.is_empty());
}

#[test]
fn selected_format_is_deployed_once_and_the_wizard_finishes() {
    let mut fs = MemoryFs::new();
    let mut wizard = AppData::new();
    serve(&mut wizard, &mut fs, AppEvent::ToggleInstallVst3);
    serve(&mut wizard, &mut fs, AppEvent::NextPage);
    serve(&mut wizard, &mut fs, AppEvent::NextPage);
    assert!(fs.log.is_empty());
    let shown = serve(&mut wizard, &mut fs, AppEvent::NextPage);
    assert!(shown.is_empty());
    assert_eq!(wizard.current_page(), TabPage::Done);
    assert_eq!(fs.files.len(), 1);
    assert_eq!(fs.files[0].1, payload_of(Format::Vst3));
    let root = String::from("C:\\Program Files\\Common Files\\VST3");
    let file = text(Path::new(&root).join("im_disperser").join("Contents").join("im_disperser.vst3"));
    assert_eq!(fs.files[0].0, PathBuf::from(file));
    assert_eq!(fs.log.iter().filter(|r| matches!(r, DeployRequest::WriteFile(_))).count(), 1);
    assert_eq!(wizard.event(AppEvent::NextPage), Action::Exit(0));
}

#[test]
fn both_formats_are_placed_each_with_its_own_payload() {
    let mut fs = MemoryFs::new();
    let mut wizard = AppData::from_parts(TabPage::Confirm, true, true, String::from("/p/vst3"), String::from("/p/clap"));
    let shown = serve(&mut wizard, &mut fs, AppEvent::NextPage);
    assert!(shown.is_empty());
    assert_eq!(wizard.current_page(), TabPage::Done);
    let vst3 = text(Path::new("/p/vst3").join("im_disperser").join("Contents").join("im_disperser.vst3"));
    let clap = text(Path::new("/p/clap").join("im_disperser").join("im_disperser.clap"));
    assert_eq!(fs.read(&vst3).unwrap(), payload_of(Format::Vst3));
    assert_eq!(fs.read(&clap).unwrap(), payload_of(Format::Clap));
    assert_eq!(fs.files.len(), 2);
}

#[test]
fn first_failure_stops_the_installation_and_keeps_what_was_written() {
    let mut fs = MemoryFs::new();
    fs.protected.push(PathBuf::from("/p/clap"));
    let mut wizard = AppData::from_parts(TabPage::Confirm, true, true, String::from("/p/vst3"), String::from("/p/clap"));
    let shown = serve(&mut wizard, &mut fs, AppEvent::NextPage);
    assert_eq!(shown.len(), 1);
    assert_eq!(shown[0].title, "Error");
    assert!(shown[0].message.starts_with("Failed to write CLAP file: "));
    assert!(shown[0].message.ends_with("\nPermission denied (os error 13)"));
    assert_eq!(wizard.current_page(), TabPage::Confirm);
    // The first format stays installed: nothing is rolled back.
    assert_eq!(fs.files.len(), 1);
    assert_eq!(fs.files[0].1, payload_of(Format::Vst3));
}

#[test]
fn failure_of_the_first_format_leaves_the_second_untouched() {
    let mut fs = MemoryFs::new();
    fs.sealed.push(PathBuf::from("/p/vst3"));
    let mut wizard = AppData::from_parts(TabPage::Confirm, true, true, String::from("/p/vst3"), String::from("/p/clap"));
    let shown = serve(&mut wizard, &mut fs, AppEvent::NextPage);
    assert_eq!(shown.len(), 1);
    assert!(shown[0].message.starts_with("Failed to create VST3 directory: "));
    assert_eq!(wizard.current_page(), TabPage::Confirm);
    assert!(fs.files.is_empty());
    assert_eq!(fs.log.len(), 2);
}
