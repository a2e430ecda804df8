//! Deployment of one payload: which directory to create, which file to
//! write, in what order, and what a failure of either means.
//!
//! The file system belongs to the host. A [`Deployment`] tells it what to do
//! next and is told how that went; it never asks for the file to be written
//! unless the directories are in place.

use vstd::prelude::*;
use crate::format::{RelativePath, RelativePathView};
use crate::path::{join_all, join_path, joined, path_join};

verus! {

/// Why a deployment failed: the path concerned, then the cause as the
/// operating system gave it.
#[derive(Clone, Debug, PartialEq, Eq)]
pub enum DeployError {
    /// The directories above the file could not be created.
    DirectoryCreation(String, String),
    /// The file could not be written.
    WriteFailed(String, String),
}

/// A deployment error as a mathematical value.
pub enum DeployErrorView {
    DirectoryCreation(Seq<char>, Seq<char>),
    WriteFailed(Seq<char>, Seq<char>),
}

impl View for DeployError {
    type V = DeployErrorView;

    open spec fn view(&self) -> DeployErrorView {
        match *self {
            DeployError::DirectoryCreation(path, cause) => DeployErrorView::DirectoryCreation(
                path@,
                cause@,
            ),
            DeployError::WriteFailed(path, cause) => DeployErrorView::WriteFailed(path@, cause@),
        }
    }
}

impl DeployErrorView {
    /// The path that could not be created or written.
    pub open spec fn path(self) -> Seq<char> {
        match self {
            DeployErrorView::DirectoryCreation(path, _) => path,
            DeployErrorView::WriteFailed(path, _) => path,
        }
    }

    /// The cause that the operating system gave.
    pub open spec fn cause(self) -> Seq<char> {
        match self {
            DeployErrorView::DirectoryCreation(_, cause) => cause,
            DeployErrorView::WriteFailed(_, cause) => cause,
        }
    }
}

impl DeployError {
    /// The path that could not be created or written.
    pub fn path(&self) -> (path: String)
        ensures
            path@ == self@.path(),
    {
        match self {
            DeployError::DirectoryCreation(path, _) => path.clone(),
            DeployError::WriteFailed(path, _) => path.clone(),
        }
    }

    /// The cause that the operating system gave.
    pub fn cause(&self) -> (cause: String)
        ensures
            cause@ == self@.cause(),
    {
        match self {
            DeployError::DirectoryCreation(_, cause) => cause.clone(),
            DeployError::WriteFailed(_, cause) => cause.clone(),
        }
    }
}

/// What the host is asked to do for a deployment.
#[derive(Clone, Debug, PartialEq, Eq)]
pub enum DeployRequest {
    /// Create this directory and every missing directory above it.
    CreateDirectories(String),
    /// Write the payload to this file, replacing what is there.
    WriteFile(String),
    /// Nothing is left to do.
    Finished,
}

/// A request as a mathematical value.
pub enum DeployRequestView {
    CreateDirectories(Seq<char>),
    WriteFile(Seq<char>),
    Finished,
}

impl View for DeployRequest {
    type V = DeployRequestView;

    open spec fn view(&self) -> DeployRequestView {
        match *self {
            DeployRequest::CreateDirectories(path) => DeployRequestView::CreateDirectories(path@),
            DeployRequest::WriteFile(path) => DeployRequestView::WriteFile(path@),
            DeployRequest::Finished => DeployRequestView::Finished,
        }
    }
}

/// How far a deployment has come.
pub enum ProgressView {
    AwaitingDirectories,
    AwaitingWrite,
    Succeeded,
    Failed(DeployErrorView),
}

/// A deployment as a mathematical value.
pub struct DeploymentView {
    pub payload: Seq<u8>,
    pub parent_path: Seq<char>,
    pub final_path: Seq<char>,
    pub progress: ProgressView,
}

impl DeploymentView {
    /// A deployment before anything was done.
    pub open spec fn start(
        payload: Seq<u8>,
        parent_path: Seq<char>,
        final_path: Seq<char>,
    ) -> DeploymentView {
        DeploymentView { payload, parent_path, final_path, progress: ProgressView::AwaitingDirectories }
    }

    /// A deployment of `payload` below `destination_root` at `relative`,
    /// before anything was done.
    pub open spec fn plan(
        payload: Seq<u8>,
        destination_root: Seq<char>,
        relative: RelativePathView,
    ) -> DeploymentView {
        let parent_path = joined(destination_root, relative.directories);
        DeploymentView::start(payload, parent_path, path_join(parent_path, relative.file_name))
    }

    /// Whether nothing is left to do.
    pub open spec fn finished(self) -> bool {
        self.progress is Succeeded || self.progress is Failed
    }

    /// What the host is to do next.
    pub open spec fn request(self) -> DeployRequestView {
        match self.progress {
            ProgressView::AwaitingDirectories => DeployRequestView::CreateDirectories(
                self.parent_path,
            ),
            ProgressView::AwaitingWrite => DeployRequestView::WriteFile(self.final_path),
            _ => DeployRequestView::Finished,
        }
    }

    /// The deployment after the host has reported on the last request. A
    /// failure ends it; a report on a finished deployment changes nothing.
    pub open spec fn respond(self, report: Result<(), Seq<char>>) -> DeploymentView {
        match self.progress {
            ProgressView::AwaitingDirectories => match report {
                Ok(_) => DeploymentView { progress: ProgressView::AwaitingWrite, ..self },
                Err(cause) => DeploymentView {
                    progress: ProgressView::Failed(
                        DeployErrorView::DirectoryCreation(self.parent_path, cause),
                    ),
                    ..self
                },
            },
            ProgressView::AwaitingWrite => match report {
                Ok(_) => DeploymentView { progress: ProgressView::Succeeded, ..self },
                Err(cause) => DeploymentView {
                    progress: ProgressView::Failed(
                        DeployErrorView::WriteFailed(self.final_path, cause),
                    ),
                    ..self
                },
            },
            _ => self,
        }
    }

    /// The result, once finished: the path written, or the error.
    pub open spec fn result(self) -> Option<Result<Seq<char>, DeployErrorView>> {
        match self.progress {
            ProgressView::Succeeded => Some(Ok(self.final_path)),
            ProgressView::Failed(error) => Some(Err(error)),
            _ => None,
        }
    }
}

/// The host's report on a request, as a mathematical value.
pub open spec fn report_view(report: Result<(), String>) -> Result<(), Seq<char>> {
    match report {
        Ok(_) => Ok(()),
        Err(cause) => Err(cause@),
    }
}

/// A deployment result as a mathematical value.
pub open spec fn result_view(result: Result<String, DeployError>) -> Result<
    Seq<char>,
    DeployErrorView,
> {
    match result {
        Ok(path) => Ok(path@),
        Err(error) => Err(error@),
    }
}

enum Progress {
    AwaitingDirectories,
    AwaitingWrite,
    Succeeded,
    Failed(DeployError),
}

impl View for Progress {
    type V = ProgressView;

    closed spec fn view(&self) -> ProgressView {
        match *self {
            Progress::AwaitingDirectories => ProgressView::AwaitingDirectories,
            Progress::AwaitingWrite => ProgressView::AwaitingWrite,
            Progress::Succeeded => ProgressView::Succeeded,
            Progress::Failed(error) => ProgressView::Failed(error@),
        }
    }
}

/// The deployment of one payload to one file.
pub struct Deployment {
    payload: Vec<u8>,
    parent_path: String,
    final_path: String,
    progress: Progress,
}

impl View for Deployment {
    type V = DeploymentView;

    closed spec fn view(&self) -> DeploymentView {
        DeploymentView {
            payload: self.payload@,
            parent_path: self.parent_path@,
            final_path: self.final_path@,
            progress: self.progress@,
        }
    }
}

impl Deployment {
    /// Plans the deployment of `payload` below `destination_root`: the file
    /// goes to the root joined with the directories and the file name of
    /// `relative_install_path`, and the directories above it are the root
    /// joined with those directories.
    pub fn new(payload: Vec<u8>, destination_root: &str, relative_install_path: &RelativePath) -> (deployment:
        Deployment)
        ensures
            deployment@ == DeploymentView::plan(
                payload@,
                destination_root@,
                relative_install_path@,
            ),
    {
        let parent_path = join_all(destination_root, &relative_install_path.directories);
        let final_path = join_path(parent_path.as_str(), relative_install_path.file_name.as_str());
        Deployment::with_paths(payload, parent_path, final_path)
    }

    /// Plans the deployment of `payload` to the file `final_path`, whose
    /// directory is `parent_path`.
    pub fn with_paths(payload: Vec<u8>, parent_path: String, final_path: String) -> (deployment:
        Deployment)
        ensures
            deployment@ == DeploymentView::start(payload@, parent_path@, final_path@),
    {
        Deployment { payload, parent_path, final_path, progress: Progress::AwaitingDirectories }
    }

    /// What the host is to do next: create the directories, then write the
    /// file; after a failure or the write, nothing.
    pub fn request(&self) -> (request: DeployRequest)
        ensures
            request@ == self@.request(),
    {
        match self.progress {
            Progress::AwaitingDirectories => DeployRequest::CreateDirectories(
                self.parent_path.clone(),
            ),
            Progress::AwaitingWrite => DeployRequest::WriteFile(self.final_path.clone()),
            _ => DeployRequest::Finished,
        }
    }

    /// The bytes to write, exactly as they were given.
    pub fn payload(&self) -> (payload: &Vec<u8>)
        ensures
            payload@ == self@.payload,
    {
        &self.payload
    }

    /// Whether nothing is left to do.
    pub fn is_finished(&self) -> (finished: bool)
        ensures
            finished == self@.finished(),
    {
        match self.progress {
            Progress::Succeeded => true,
            Progress::Failed(_) => true,
            _ => false,
        }
    }

    /// Takes the host's report on the last request: success moves on to the
    /// next step, a failure ends the deployment with the error of that step.
    pub fn respond(&mut self, report: Result<(), String>)
        ensures
            final(self)@ == old(self)@.respond(report_view(report)),
    {
        match self.progress {
            Progress::AwaitingDirectories => {
                match report {
                    Ok(_) => {
                        self.progress = Progress::AwaitingWrite;
                    },
                    Err(cause) => {
                        self.progress = Progress::Failed(
                            DeployError::DirectoryCreation(self.parent_path.clone(), cause),
                        );
                    },
                }
            },
            Progress::AwaitingWrite => {
                match report {
                    Ok(_) => {
                        self.progress = Progress::Succeeded;
                    },
                    Err(cause) => {
                        self.progress = Progress::Failed(
                            DeployError::WriteFailed(self.final_path.clone(), cause),
                        );
                    },
                }
            },
            _ => {},
        }
    }

    /// The result of a finished deployment: the path written, or the error.
    /// `None` while the deployment is under way.
    pub fn result(&self) -> (result: Option<Result<String, DeployError>>)
        ensures
            result is Some <==> self@.finished(),
            match result {
                Some(r) => self@.result() == Some(result_view(r)),
                None => self@.result() is None,
            },
    {
        match &self.progress {
            Progress::Succeeded => Some(Ok(self.final_path.clone())),
            Progress::Failed(error) => {
                let copy = match error {
                    DeployError::DirectoryCreation(path, cause) => DeployError::DirectoryCreation(
                        path.clone(),
                        cause.clone(),
                    ),
                    DeployError::WriteFailed(path, cause) => DeployError::WriteFailed(
                        path.clone(),
                        cause.clone(),
                    ),
                };
                Some(Err(copy))
            },
            _ => None,
        }
    }
}

} // verus!
