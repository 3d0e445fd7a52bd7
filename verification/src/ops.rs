//! The kernel operations that the runtime asks its caller to perform.

use vstd::prelude::*;
use vstd::string::StringExecFns;

verus! {

/// Flags of a `mount(2)` call. Each field stands for one `MS_*` bit.
#[derive(Debug, Clone, Copy, PartialEq, Eq, Structural)]
pub struct MountFlags {
    /// `MS_BIND`
    pub bind: bool,
    /// `MS_REC`
    pub recursive: bool,
    /// `MS_PRIVATE`
    pub private: bool,
    /// `MS_NOSUID`
    pub nosuid: bool,
    /// `MS_NODEV`
    pub nodev: bool,
    /// `MS_NOEXEC`
    pub noexec: bool,
}

impl MountFlags {
    /// No flag set.
    pub open spec fn spec_empty() -> MountFlags {
        MountFlags {
            bind: false,
            recursive: false,
            private: false,
            nosuid: false,
            nodev: false,
            noexec: false,
        }
    }

    /// No flag set.
    #[verifier::when_used_as_spec(spec_empty)]
    pub fn empty() -> (flags: MountFlags)
        ensures
            flags == MountFlags::spec_empty(),
    {
        MountFlags {
            bind: false,
            recursive: false,
            private: false,
            nosuid: false,
            nodev: false,
            noexec: false,
        }
    }
}

/// How a filesystem is detached by `umount2(2)`.
#[derive(Debug, Clone, Copy, PartialEq, Eq, Structural)]
pub enum UnmountMode {
    /// Plain unmount: fails while the mount is busy.
    Immediate,
    /// `MNT_DETACH`: succeeds at once, completes when the mount is idle.
    Lazy,
}

/// One operation on the kernel or the filesystem.
#[derive(Debug, Clone, PartialEq, Eq)]
pub enum SysOp {
    /// `mount(source, target, fstype, flags, data)`
    Mount {
        source: Option<String>,
        target: String,
        fstype: Option<String>,
        flags: MountFlags,
        data: Option<String>,
    },
    /// `umount2(target, mode)`
    Unmount { target: String, mode: UnmountMode },
    /// `chdir(path)`
    ChangeDir { path: String },
    /// `pivot_root(new_root, put_old)`
    PivotRoot { new_root: String, put_old: String },
    /// Create the directory `path`.
    MakeDir { path: String },
    /// `mknod(path, S_IFCHR | permissions, device)`
    MakeCharDevice { path: String, permissions: u32, device: u64 },
    /// Create the symbolic link `link` that points at `target`.
    Symlink { target: String, link: String },
    /// `sethostname(name)`
    SetHostname { name: String },
    /// Create `path`, or truncate it, and write `contents` to it.
    WriteFile { path: String, contents: String },
}

/// The mathematical content of a [`SysOp`].
pub enum SysOpView {
    Mount {
        source: Option<Seq<char>>,
        target: Seq<char>,
        fstype: Option<Seq<char>>,
        flags: MountFlags,
        data: Option<Seq<char>>,
    },
    Unmount { target: Seq<char>, mode: UnmountMode },
    ChangeDir { path: Seq<char> },
    PivotRoot { new_root: Seq<char>, put_old: Seq<char> },
    MakeDir { path: Seq<char> },
    MakeCharDevice { path: Seq<char>, permissions: u32, device: u64 },
    Symlink { target: Seq<char>, link: Seq<char> },
    SetHostname { name: Seq<char> },
    WriteFile { path: Seq<char>, contents: Seq<char> },
}

/// The content of an optional string.
pub open spec fn text_of(s: Option<String>) -> Option<Seq<char>> {
    match s {
        Some(s) => Some(s@),
        None => None,
    }
}

impl View for SysOp {
    type V = SysOpView;

    open spec fn view(&self) -> SysOpView {
        match *self {
            SysOp::Mount { source, target, fstype, flags, data } => SysOpView::Mount {
                source: text_of(source),
                target: target@,
                fstype: text_of(fstype),
                flags,
                data: text_of(data),
            },
            SysOp::Unmount { target, mode } => SysOpView::Unmount { target: target@, mode },
            SysOp::ChangeDir { path } => SysOpView::ChangeDir { path: path@ },
            SysOp::PivotRoot { new_root, put_old } => SysOpView::PivotRoot {
                new_root: new_root@,
                put_old: put_old@,
            },
            SysOp::MakeDir { path } => SysOpView::MakeDir { path: path@ },
            SysOp::MakeCharDevice { path, permissions, device } => SysOpView::MakeCharDevice {
                path: path@,
                permissions,
                device,
            },
            SysOp::Symlink { target, link } => SysOpView::Symlink {
                target: target@,
                link: link@,
            },
            SysOp::SetHostname { name } => SysOpView::SetHostname { name: name@ },
            SysOp::WriteFile { path, contents } => SysOpView::WriteFile {
                path: path@,
                contents: contents@,
            },
        }
    }
}

impl DeepView for SysOp {
    type V = SysOpView;

    open spec fn deep_view(&self) -> SysOpView {
        self@
    }
}


/// The content of an optional string slice.
pub open spec fn text_of_str(s: Option<&str>) -> Option<Seq<char>> {
    match s {
        Some(s) => Some(s@),
        None => None,
    }
}

/// The operation `mount(source, target, fstype, flags, data)`.
pub fn mount_op(
    source: Option<&str>,
    target: &str,
    fstype: Option<&str>,
    flags: MountFlags,
    data: Option<&str>,
) -> (op: SysOp)
    ensures
        op@ == (SysOpView::Mount {
            source: text_of_str(source),
            target: target@,
            fstype: text_of_str(fstype),
            flags,
            data: text_of_str(data),
        }),
{
    SysOp::Mount {
        source: match source {
            Some(s) => Some(String::from_str(s)),
            None => None,
        },
        target: String::from_str(target),
        fstype: match fstype {
            Some(s) => Some(String::from_str(s)),
            None => None,
        },
        flags,
        data: match data {
            Some(s) => Some(String::from_str(s)),
            None => None,
        },
    }
}

/// The operation that creates the directory `path`.
pub fn make_dir_op(path: &str) -> (op: SysOp)
    ensures
        op@ == (SysOpView::MakeDir { path: path@ }),
{
    SysOp::MakeDir { path: String::from_str(path) }
}

/// The operation that creates the symbolic link `link` to `target`.
pub fn symlink_op(target: &str, link: &str) -> (op: SysOp)
    ensures
        op@ == (SysOpView::Symlink { target: target@, link: link@ }),
{
    SysOp::Symlink { target: String::from_str(target), link: String::from_str(link) }
}

/// Moves the operations of `more` behind those of `ops`.
pub fn extend_ops(ops: &mut Vec<SysOp>, more: Vec<SysOp>)
    ensures
        final(ops).deep_view() == old(ops).deep_view() + more.deep_view(),
{
    let mut more = more;
    let ghost first = ops.deep_view();
    let ghost second = more.deep_view();
    ops.append(&mut more);
    assert(ops.deep_view() =~= first + second);
}

} // verus!
