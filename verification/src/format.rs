//! The plugin formats that the installer knows, and where each is placed.

use vstd::prelude::*;

verus! {

/// A plugin binary format. Each has an install directory of its own.
#[derive(Clone, Copy, Debug, PartialEq, Eq, Structural)]
pub enum Format {
    Vst3,
    Clap,
}

/// Where a payload goes below a destination directory: the directories to
/// pass through, outermost first, and the name of the file.
#[derive(Clone, Debug, PartialEq, Eq)]
pub struct RelativePath {
    pub directories: Vec<String>,
    pub file_name: String,
}

/// A relative path as a mathematical value.
pub struct RelativePathView {
    pub directories: Seq<Seq<char>>,
    pub file_name: Seq<char>,
}

impl View for RelativePath {
    type V = RelativePathView;

    open spec fn view(&self) -> RelativePathView {
        RelativePathView {
            directories: self.directories.deep_view(),
            file_name: self.file_name@,
        }
    }
}

impl Format {
    /// The name of the format in messages.
    pub open spec fn label(self) -> Seq<char> {
        match self {
            Format::Vst3 => "VST3"@,
            Format::Clap => "CLAP"@,
        }
    }

    /// The directory that the operating system's conventions give the format.
    pub open spec fn default_destination(self) -> Seq<char> {
        match self {
            Format::Vst3 => "C:\\Program Files\\Common Files\\VST3"@,
            Format::Clap => "C:\\Program Files\\Common Files\\CLAP"@,
        }
    }

    /// The place of the format's binary below its destination directory: a
    /// bundle with a `Contents` directory for VST3, the product's directory
    /// alone for CLAP.
    pub open spec fn layout(self) -> RelativePathView {
        match self {
            Format::Vst3 => RelativePathView {
                directories: seq!["im_disperser"@, "Contents"@],
                file_name: "im_disperser.vst3"@,
            },
            Format::Clap => RelativePathView {
                directories: seq!["im_disperser"@],
                file_name: "im_disperser.clap"@,
            },
        }
    }

    /// The name of the format as messages show it.
    pub fn display_name(self) -> (name: String)
        ensures
            name@ == self.label(),
    {
        match self {
            Format::Vst3 => String::from_str("VST3"),
            Format::Clap => String::from_str("CLAP"),
        }
    }

    /// The destination directory that a fresh wizard proposes for the format.
    pub fn default_path(self) -> (path: String)
        ensures
            path@ == self.default_destination(),
    {
        match self {
            Format::Vst3 => String::from_str("C:\\Program Files\\Common Files\\VST3"),
            Format::Clap => String::from_str("C:\\Program Files\\Common Files\\CLAP"),
        }
    }

    /// The fixed place of the format's binary below a destination directory.
    pub fn relative_install_path(self) -> (relative: RelativePath)
        ensures
            relative@ == self.layout(),
    {
        let mut directories: Vec<String> = Vec::new();
        directories.push(String::from_str("im_disperser"));
        match self {
            Format::Vst3 => {
                directories.push(String::from_str("Contents"));
                assert(directories.deep_view() =~= seq!["im_disperser"@, "Contents"@]);
                RelativePath { directories, file_name: String::from_str("im_disperser.vst3") }
            },
            Format::Clap => {
                assert(directories.deep_view() =~= seq!["im_disperser"@]);
                RelativePath { directories, file_name: String::from_str("im_disperser.clap") }
            },
        }
    }
}

} // verus!
