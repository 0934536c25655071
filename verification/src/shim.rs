use crate::paths::{is_system_path, needs_elevation, system_owned};
use crate::registry::texts;
use vstd::prelude::*;

verus! {

/// One change to the file system.
#[derive(Debug)]
pub enum FileOp {
    /// Copy a file over the destination.
    CopyFile { src: String, dest: String },
    /// Copy what a directory holds into the destination.
    CopyDir { src: String, dest: String },
    /// Create a directory and its parents.
    CreateDirAll { path: String },
    /// Remove a file.
    RemoveFile { path: String },
    /// Remove a directory and what it holds.
    RemoveDirAll { path: String },
    /// Write content to a file.
    WriteFile { path: String },
}

impl FileOp {
    /// The path that the operation changes.
    pub open spec fn target(self) -> Seq<char> {
        match self {
            FileOp::CopyFile { src, dest } => dest@,
            FileOp::CopyDir { src, dest } => dest@,
            FileOp::CreateDirAll { path } => path@,
            FileOp::RemoveFile { path } => path@,
            FileOp::RemoveDirAll { path } => path@,
            FileOp::WriteFile { path } => path@,
        }
    }

    /// The command that performs the operation with the administrator's
    /// rights; for writing, the command that takes the content on its input.
    pub open spec fn command(self) -> Seq<Seq<char>> {
        match self {
            FileOp::CopyFile { src, dest } => seq!["cp"@, "-f"@, src@, dest@],
            FileOp::CopyDir { src, dest } => seq!["cp"@, "-rf"@, src@, dest@],
            FileOp::CreateDirAll { path } => seq!["mkdir"@, "-p"@, path@],
            FileOp::RemoveFile { path } => seq!["rm"@, "-f"@, path@],
            FileOp::RemoveDirAll { path } => seq!["rm"@, "-rf"@, path@],
            FileOp::WriteFile { path } => seq!["tee"@, path@],
        }
    }

    /// The path that the operation changes.
    pub fn target_path(&self) -> (r: &str)
        ensures
            r@ == self.target(),
    {
        match self {
            FileOp::CopyFile { src, dest } => dest.as_str(),
            FileOp::CopyDir { src, dest } => dest.as_str(),
            FileOp::CreateDirAll { path } => path.as_str(),
            FileOp::RemoveFile { path } => path.as_str(),
            FileOp::RemoveDirAll { path } => path.as_str(),
            FileOp::WriteFile { path } => path.as_str(),
        }
    }

    /// Whether the operation has to be performed by an elevated command:
    /// its target is owned by the system and the process is not elevated.
    pub fn needs_elevation(&self, is_root: bool) -> (r: bool)
        ensures
            r == (system_owned(self.target()) && !is_root),
    {
        needs_elevation(self.target_path(), is_root)
    }

    /// The arguments of the elevated command that performs the operation.
    pub fn elevated_command(&self) -> (r: Vec<String>)
        ensures
            texts(r@) == self.command(),
    {
        let mut args: Vec<String> = Vec::new();
        match self {
            FileOp::CopyFile { src, dest } => {
                args.push("cp".to_owned());
                args.push("-f".to_owned());
                args.push(src.clone());
                args.push(dest.clone());
            },
            FileOp::CopyDir { src, dest } => {
                args.push("cp".to_owned());
                args.push("-rf".to_owned());
                args.push(src.clone());
                args.push(dest.clone());
            },
            FileOp::CreateDirAll { path } => {
                args.push("mkdir".to_owned());
                args.push("-p".to_owned());
                args.push(path.clone());
            },
            FileOp::RemoveFile { path } => {
                args.push("rm".to_owned());
                args.push("-f".to_owned());
                args.push(path.clone());
            },
            FileOp::RemoveDirAll { path } => {
                args.push("rm".to_owned());
                args.push("-rf".to_owned());
                args.push(path.clone());
            },
            FileOp::WriteFile { path } => {
                args.push("tee".to_owned());
                args.push(path.clone());
            },
        }
        proof {
            assert(texts(args@) =~= self.command());
        }
        args
    }
}

/// What the destination of an install looks like before it is replaced.
#[derive(Debug)]
pub struct Destination {
    pub path: String,
    pub exists: bool,
    pub is_dir: bool,
    /// The directory that holds the destination, where it has one.
    pub parent: Option<String>,
}

/// The commands that stand for a run of operations.
pub open spec fn commands(ops: Seq<FileOp>) -> Seq<Seq<Seq<char>>> {
    ops.map_values(|o: FileOp| o.command())
}

/// What clears the way for new content: what lies at the destination is
/// removed, then the directory that holds the destination is created.
pub open spec fn clearing(dest: Destination) -> Seq<Seq<Seq<char>>> {
    (if dest.exists {
        if dest.is_dir {
            seq![seq!["rm"@, "-rf"@, dest.path@]]
        } else {
            seq![seq!["rm"@, "-f"@, dest.path@]]
        }
    } else {
        Seq::empty()
    }) + (match dest.parent {
        Some(parent) => seq![seq!["mkdir"@, "-p"@, parent@]],
        None => Seq::empty(),
    })
}

/// The operations that clear the way for new content.
pub fn replace_destination(dest: &Destination) -> (r: Vec<FileOp>)
    ensures
        commands(r@) == clearing(*dest),
{
    let mut ops: Vec<FileOp> = Vec::new();
    if dest.exists {
        if dest.is_dir {
            ops.push(FileOp::RemoveDirAll { path: dest.path.clone() });
        } else {
            ops.push(FileOp::RemoveFile { path: dest.path.clone() });
        }
    }
    match &dest.parent {
        Some(parent) => {
            ops.push(FileOp::CreateDirAll { path: parent.clone() });
        },
        None => {},
    }
    proof {
        assert(commands(ops@) =~= clearing(*dest));
    }
    ops
}

/// What places new content at a cleared destination: a file is copied;
/// for a directory the destination is created and what the source holds is
/// copied into it.
pub open spec fn placing(src: Seq<char>, dest: Seq<char>, source_is_file: bool) -> Seq<
    Seq<Seq<char>>,
> {
    if source_is_file {
        seq![seq!["cp"@, "-f"@, src, dest]]
    } else {
        seq![seq!["mkdir"@, "-p"@, dest], seq!["cp"@, "-rf"@, src, dest]]
    }
}

/// The operations that place new content at a cleared destination.
pub fn place_content(src: &str, dest: &str, source_is_file: bool) -> (r: Vec<FileOp>)
    ensures
        commands(r@) == placing(src@, dest@, source_is_file),
{
    let mut ops: Vec<FileOp> = Vec::new();
    if source_is_file {
        ops.push(FileOp::CopyFile { src: src.to_owned(), dest: dest.to_owned() });
    } else {
        ops.push(FileOp::CreateDirAll { path: dest.to_owned() });
        ops.push(FileOp::CopyDir { src: src.to_owned(), dest: dest.to_owned() });
    }
    proof {
        assert(commands(ops@) =~= placing(src@, dest@, source_is_file));
    }
    ops
}

/// The arguments with which the extractor unpacks an archive into a directory.
pub fn extract_arguments(archive: &str, dest: &str) -> (r: Vec<String>)
    ensures
        texts(r@) == seq!["-xf"@, archive@, "-C"@, dest@],
{
    let mut args: Vec<String> = Vec::new();
    args.push("-xf".to_owned());
    args.push(archive.to_owned());
    args.push("-C".to_owned());
    args.push(dest.to_owned());
    proof {
        assert(texts(args@) =~= seq!["-xf"@, archive@, "-C"@, dest@]);
    }
    args
}

/// The arguments with which the service manager restarts the desktop shell.
pub fn restart_arguments() -> (r: Vec<String>)
    ensures
        texts(r@) == seq!["--user"@, "restart"@, "plasma-plasmashell.service"@],
{
    let mut args: Vec<String> = Vec::new();
    args.push("--user".to_owned());
    args.push("restart".to_owned());
    args.push("plasma-plasmashell.service".to_owned());
    proof {
        assert(texts(args@) =~= seq!["--user"@, "restart"@, "plasma-plasmashell.service"@]);
    }
    args
}

/// How long a download may take, in seconds.
pub const DOWNLOAD_TIMEOUT_SECS: u64 = 10;

/// The program that unpacks archives.
pub const EXTRACTOR: &'static str = "bsdtar";

/// The program that installs packages.
pub const PACKAGE_TOOL: &'static str = "kpackagetool6";

/// The program that restarts services.
pub const SERVICE_MANAGER: &'static str = "systemctl";

} // verus!
