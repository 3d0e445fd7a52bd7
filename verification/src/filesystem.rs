//! Storage drivers, which provide the root filesystem of a container, and
//! the pseudo-filesystems that userspace expects inside it.

use vstd::prelude::*;
use vstd::string::StringExecFns;
use crate::error::DriverError;
use crate::ops::{extend_ops, make_dir_op, mount_op, symlink_op, MountFlags, SysOp, SysOpView, UnmountMode};
use crate::syscall::{char_device, device_number};
use crate::text::{join, join_all, join_path, join_with};

verus! {

/// Which directories of an overlay target are on disk already.
#[derive(Debug, Clone, Copy, PartialEq, Eq, Structural)]
pub struct TargetLayout {
    /// The target directory itself.
    pub target: bool,
    /// Its subdirectory `merge`.
    pub merge: bool,
    /// Its subdirectory `upper`.
    pub upper: bool,
    /// Its subdirectory `workdir`.
    pub workdir: bool,
}

/// The handle of a kernel mount that a driver has made.
#[derive(Debug, PartialEq, Eq)]
struct ActiveMount {
    target: String,
}

/// A driver that provides no filesystem: every operation fails. It stands
/// where a driver is needed and none is meant to be used.
#[derive(Debug, Clone, Copy, PartialEq, Eq, Structural)]
pub struct NullDriver {
}

impl NullDriver {
    /// Fails: there is nothing to mount.
    pub fn mount(&mut self) -> (result: Result<Vec<SysOp>, DriverError>)
        ensures
            result == Err::<Vec<SysOp>, DriverError>(DriverError::Unsupported),
            *final(self) == *old(self),
    {
        Err(DriverError::Unsupported)
    }

    /// Fails: there is nothing to unmount.
    pub fn umount(&mut self) -> (result: Result<Vec<SysOp>, DriverError>)
        ensures
            result == Err::<Vec<SysOp>, DriverError>(DriverError::Unsupported),
            *final(self) == *old(self),
    {
        Err(DriverError::Unsupported)
    }

    /// Fails: there is no root.
    pub fn root(&self) -> (result: Result<&str, DriverError>)
        ensures
            result == Err::<&str, DriverError>(DriverError::Unsupported),
    {
        Err(DriverError::Unsupported)
    }
}

/// An overlay filesystem driver: read-only layers below, a writable layer
/// above, all under one target directory.
///
/// ```text
/// <target>/
///     merge/      the mount point, which becomes the container's root
///     upper/      the writable layer
///     workdir/    scratch space of the kernel
/// ```
#[derive(Debug, PartialEq, Eq)]
pub struct OverlayDriver {
    layers: Vec<String>,
    target: String,
    strict: bool,
    mount: Option<ActiveMount>,
}

/// The mathematical content of an [`OverlayDriver`].
pub struct OverlayDriverView {
    /// The layer paths, the topmost first.
    pub layers: Seq<Seq<char>>,
    /// The target directory.
    pub target: Seq<char>,
    /// Whether an existing target directory is refused.
    pub strict: bool,
    /// Whether the driver holds an active mount.
    pub mounted: bool,
}

/// The operation that creates `path`, unless it is `present`.
pub open spec fn create_missing(present: bool, path: Seq<char>) -> Seq<SysOpView> {
    if present {
        Seq::empty()
    } else {
        seq![SysOpView::MakeDir { path }]
    }
}

impl OverlayDriverView {
    /// The mount point, `<target>/merge`.
    pub open spec fn merge_dir(self) -> Seq<char> {
        join_path(self.target, "merge"@)
    }

    /// The writable layer, `<target>/upper`.
    pub open spec fn upper_dir(self) -> Seq<char> {
        join_path(self.target, "upper"@)
    }

    /// The kernel's scratch space, `<target>/workdir`.
    pub open spec fn work_dir(self) -> Seq<char> {
        join_path(self.target, "workdir"@)
    }

    /// The directories that a mount needs: the target, then `merge`,
    /// `upper` and `workdir` below it.
    pub open spec fn directories(self) -> Seq<Seq<char>> {
        seq![self.target, self.merge_dir(), self.upper_dir(), self.work_dir()]
    }

    /// The options of the overlay mount: the layers joined by `:`, the
    /// topmost first, then the upper and the work directory.
    pub open spec fn options(self) -> Seq<char> {
        "lowerdir="@ + join_with(self.layers, ":"@) + ",upperdir="@ + self.upper_dir()
            + ",workdir="@ + self.work_dir()
    }

    /// The kernel mount of the overlay.
    pub open spec fn overlay_mount(self) -> SysOpView {
        SysOpView::Mount {
            source: Some("none"@),
            target: self.merge_dir(),
            fstype: Some("overlay"@),
            flags: MountFlags { nosuid: true, ..MountFlags::empty() },
            data: Some(self.options()),
        }
    }

    /// Why `mount` fails, if it does: the driver is mounted already, or it
    /// is strict and its target is on disk.
    pub open spec fn mount_error(self, existing: TargetLayout) -> Option<DriverError> {
        if self.mounted {
            Some(DriverError::AlreadyMounted)
        } else if self.strict && existing.target {
            Some(DriverError::TargetExists)
        } else {
            None
        }
    }

    /// The operations of a mount: each directory that is missing is
    /// created, the target first, then the overlay is mounted. Below a
    /// target that is missing, every subdirectory is missing.
    pub open spec fn mount_ops(self, existing: TargetLayout) -> Seq<SysOpView> {
        create_missing(existing.target, self.target) + create_missing(
            existing.target && existing.merge,
            self.merge_dir(),
        ) + create_missing(existing.target && existing.upper, self.upper_dir()) + create_missing(
            existing.target && existing.workdir,
            self.work_dir(),
        ) + seq![self.overlay_mount()]
    }

    /// The driver after `mount`.
    pub open spec fn mount(self, existing: TargetLayout) -> OverlayDriverView {
        if self.mount_error(existing) is Some {
            self
        } else {
            OverlayDriverView { mounted: true, ..self }
        }
    }

    /// The operations of an unmount: a lazy detach of the mount point.
    pub open spec fn umount_ops(self) -> Seq<SysOpView> {
        seq![SysOpView::Unmount { target: self.merge_dir(), mode: UnmountMode::Lazy }]
    }

    /// The driver after `umount`.
    pub open spec fn umount(self) -> OverlayDriverView {
        OverlayDriverView { mounted: false, ..self }
    }

    /// The root of the mounted filesystem, or the error of an unmounted
    /// driver.
    pub open spec fn root(self) -> Result<Seq<char>, DriverError> {
        if self.mounted {
            Ok(self.merge_dir())
        } else {
            Err(DriverError::NotMounted)
        }
    }
}

impl View for OverlayDriver {
    type V = OverlayDriverView;

    closed spec fn view(&self) -> OverlayDriverView {
        OverlayDriverView {
            layers: self.layers.deep_view(),
            target: self.target@,
            strict: self.strict,
            mounted: self.mount is Some,
        }
    }
}

impl OverlayDriver {
    /// An active mount sits on `<target>/merge`.
    #[verifier::type_invariant]
    spec fn well_formed(&self) -> bool {
        self.mount matches Some(active) ==> active.target@ == self@.merge_dir()
    }

    /// An unmounted, lenient driver that combines `layers`, the topmost
    /// first, under the directory `target`.
    pub fn new(layers: Vec<String>, target: String) -> (driver: OverlayDriver)
        ensures
            driver@ == (OverlayDriverView {
                layers: layers.deep_view(),
                target: target@,
                strict: false,
                mounted: false,
            }),
    {
        OverlayDriver { layers, target, strict: false, mount: None }
    }

    /// The same driver, strict or lenient: a strict driver refuses to mount
    /// where its target directory exists already.
    pub fn with_strict(self, strict: bool) -> (driver: OverlayDriver)
        ensures
            driver@ == (OverlayDriverView { strict, ..self@ }),
    {
        proof {
            use_type_invariant(&self);
        }
        OverlayDriver { layers: self.layers, target: self.target, strict, mount: self.mount }
    }

    /// Whether the driver holds an active mount.
    pub fn is_mounted(&self) -> (mounted: bool)
        ensures
            mounted == self@.mounted,
    {
        self.mount.is_some()
    }

    /// The target directory.
    pub fn target(&self) -> (target: &str)
        ensures
            target@ == self@.target,
    {
        self.target.as_str()
    }

    /// The directories that a mount needs, for the caller to look for
    /// them on disk: the target, then `merge`, `upper` and `workdir` below
    /// it.
    pub fn directories(&self) -> (directories: Vec<String>)
        ensures
            directories.deep_view() == self@.directories(),
    {
        let mut directories: Vec<String> = Vec::new();
        directories.push(self.target.clone());
        directories.push(join(self.target.as_str(), "merge"));
        directories.push(join(self.target.as_str(), "upper"));
        directories.push(join(self.target.as_str(), "workdir"));
        assert(directories.deep_view() =~= self@.directories());
        directories
    }

    /// The options of the overlay mount.
    fn options(&self) -> (options: String)
        ensures
            options@ == self@.options(),
    {
        let lower = join_all(&self.layers, ":");
        let upper = join(self.target.as_str(), "upper");
        let work = join(self.target.as_str(), "workdir");
        let mut options = String::from_str("lowerdir=");
        options.append(lower.as_str());
        options.append(",upperdir=");
        options.append(upper.as_str());
        options.append(",workdir=");
        options.append(work.as_str());
        options
    }

    /// Mounts the overlay, given what is on disk: returns the operations to
    /// perform, in order, and from then on holds the mount. Fails, and
    /// changes nothing, where the driver holds a mount already, or is strict
    /// and finds its target on disk.
    pub fn mount(&mut self, existing: TargetLayout) -> (result: Result<Vec<SysOp>, DriverError>)
        ensures
            final(self)@ == old(self)@.mount(existing),
            result matches Ok(ops) ==> ops.deep_view() == old(self)@.mount_ops(existing),
            result matches Err(e) ==> old(self)@.mount_error(existing) == Some(e),
            result is Ok <==> old(self)@.mount_error(existing) is None,
    {
        proof {
            use_type_invariant(&*self);
        }
        if self.mount.is_some() {
            return Err(DriverError::AlreadyMounted);
        }
        if self.strict && existing.target {
            return Err(DriverError::TargetExists);
        }
        let merge = join(self.target.as_str(), "merge");
        let upper = join(self.target.as_str(), "upper");
        let work = join(self.target.as_str(), "workdir");
        let options = self.options();
        let mut ops: Vec<SysOp> = Vec::new();
        if !existing.target {
            ops.push(make_dir_op(self.target.as_str()));
        }
        if !(existing.target && existing.merge) {
            ops.push(make_dir_op(merge.as_str()));
        }
        if !(existing.target && existing.upper) {
            ops.push(make_dir_op(upper.as_str()));
        }
        if !(existing.target && existing.workdir) {
            ops.push(make_dir_op(work.as_str()));
        }
        ops.push(
            mount_op(
                Some("none"),
                merge.as_str(),
                Some("overlay"),
                MountFlags { nosuid: true, ..MountFlags::empty() },
                Some(options.as_str()),
            ),
        );
        assert(ops.deep_view() =~= old(self)@.mount_ops(existing));
        self.mount = Some(ActiveMount { target: merge });
        Ok(ops)
    }

    /// Unmounts the overlay: returns the one operation to perform, a lazy
    /// detach of `<target>/merge`, and from then on holds no mount. A driver
    /// that holds no mount asks for the same detach, which reaches a mount
    /// that another copy of the driver has made.
    pub fn umount(&mut self) -> (ops: Vec<SysOp>)
        ensures
            final(self)@ == old(self)@.umount(),
            ops.deep_view() == old(self)@.umount_ops(),
    {
        let target = join(self.target.as_str(), "merge");
        self.mount = None;
        let mut ops: Vec<SysOp> = Vec::new();
        ops.push(SysOp::Unmount { target, mode: UnmountMode::Lazy });
        assert(ops.deep_view() =~= old(self)@.umount_ops());
        ops
    }

    /// The root of the mounted filesystem, `<target>/merge`; an error
    /// where the driver holds no mount.
    pub fn root(&self) -> (result: Result<&str, DriverError>)
        ensures
            result matches Ok(root) ==> self@.root() == Ok::<Seq<char>, DriverError>(root@),
            result matches Err(e) ==> self@.root() == Err::<Seq<char>, DriverError>(e),
    {
        proof {
            use_type_invariant(self);
        }
        match &self.mount {
            Some(active) => Ok(active.target.as_str()),
            None => Err(DriverError::NotMounted),
        }
    }
}

/// A mount followed by an unmount leaves the driver as it was, without a
/// mount, and the unmount detaches the very directory on which the overlay
/// was mounted.
pub proof fn lemma_mount_umount_round_trip(driver: OverlayDriverView, existing: TargetLayout)
    requires
        driver.mount_error(existing) is None,
    ensures
        driver.mount(existing).mounted,
        driver.mount(existing).umount() == driver,
        driver.mount(existing).umount_ops() == seq![
            SysOpView::Unmount { target: driver.merge_dir(), mode: UnmountMode::Lazy },
        ],
        driver.mount_ops(existing).last() == driver.overlay_mount(),
        driver.overlay_mount() matches SysOpView::Mount { target, .. } && target
            == driver.merge_dir(),
{
}

/// A lenient, unmounted driver mounts where its target and the three
/// subdirectories are on disk already: it creates nothing and mounts the
/// overlay.
pub proof fn lemma_mount_on_existing_directories(driver: OverlayDriverView)
    requires
        !driver.mounted,
        !driver.strict,
    ensures
        ({
            let existing = TargetLayout { target: true, merge: true, upper: true, workdir: true };
            &&& driver.mount_error(existing) is None
            &&& driver.mount_ops(existing) == seq![driver.overlay_mount()]
            &&& driver.mount(existing).mounted
        }),
{
    let existing = TargetLayout { target: true, merge: true, upper: true, workdir: true };
    assert(driver.mount_ops(existing) =~= seq![driver.overlay_mount()]);
}

/// Where the target is missing, a mount creates it and all three
/// subdirectories, whatever is said of them, and then mounts the overlay.
pub proof fn lemma_mount_on_missing_target(driver: OverlayDriverView, existing: TargetLayout)
    requires
        !existing.target,
    ensures
        driver.mount_ops(existing) == seq![
            SysOpView::MakeDir { path: driver.target },
            SysOpView::MakeDir { path: driver.merge_dir() },
            SysOpView::MakeDir { path: driver.upper_dir() },
            SysOpView::MakeDir { path: driver.work_dir() },
            driver.overlay_mount(),
        ],
{
    assert(driver.mount_ops(existing) =~= seq![
        SysOpView::MakeDir { path: driver.target },
        SysOpView::MakeDir { path: driver.merge_dir() },
        SysOpView::MakeDir { path: driver.upper_dir() },
        SysOpView::MakeDir { path: driver.work_dir() },
        driver.overlay_mount(),
    ]);
}

/// The root is `<target>/merge` after a mount, and there is none before a
/// mount nor after an unmount.
pub proof fn lemma_root_visibility(driver: OverlayDriverView, existing: TargetLayout)
    requires
        driver.mount_error(existing) is None,
    ensures
        driver.root() == Err::<Seq<char>, DriverError>(DriverError::NotMounted),
        driver.mount(existing).root() == Ok::<Seq<char>, DriverError>(driver.merge_dir()),
        driver.mount(existing).umount().root() == Err::<Seq<char>, DriverError>(
            DriverError::NotMounted,
        ),
{
}

/// A second mount fails, whatever is on disk, and changes nothing.
pub proof fn lemma_second_mount_fails(
    driver: OverlayDriverView,
    first: TargetLayout,
    second: TargetLayout,
)
    requires
        driver.mount_error(first) is None,
    ensures
        driver.mount(first).mount_error(second) == Some(DriverError::AlreadyMounted),
        driver.mount(first).mount(second) == driver.mount(first),
{
}

/// A storage driver of either kind, with the operations that all kinds
/// share.
#[derive(Debug, PartialEq, Eq)]
pub enum StorageDriver {
    /// No filesystem at all.
    Null(NullDriver),
    /// An overlay filesystem.
    Overlay(OverlayDriver),
}

/// The mathematical content of a [`StorageDriver`].
pub enum StorageDriverView {
    Null,
    Overlay(OverlayDriverView),
}

impl StorageDriverView {
    /// Why `mount` fails, if it does.
    pub open spec fn mount_error(self, existing: TargetLayout) -> Option<DriverError> {
        match self {
            StorageDriverView::Null => Some(DriverError::Unsupported),
            StorageDriverView::Overlay(driver) => driver.mount_error(existing),
        }
    }

    /// The operations of a mount.
    pub open spec fn mount_ops(self, existing: TargetLayout) -> Seq<SysOpView> {
        match self {
            StorageDriverView::Null => Seq::empty(),
            StorageDriverView::Overlay(driver) => driver.mount_ops(existing),
        }
    }

    /// The driver after `mount`.
    pub open spec fn mount(self, existing: TargetLayout) -> StorageDriverView {
        match self {
            StorageDriverView::Null => self,
            StorageDriverView::Overlay(driver) => StorageDriverView::Overlay(
                driver.mount(existing),
            ),
        }
    }

    /// The directories that a mount needs; a null driver needs none.
    pub open spec fn directories(self) -> Seq<Seq<char>> {
        match self {
            StorageDriverView::Null => Seq::empty(),
            StorageDriverView::Overlay(driver) => driver.directories(),
        }
    }

    /// The operations of an unmount, or the error.
    pub open spec fn umount_ops(self) -> Result<Seq<SysOpView>, DriverError> {
        match self {
            StorageDriverView::Null => Err(DriverError::Unsupported),
            StorageDriverView::Overlay(driver) => Ok(driver.umount_ops()),
        }
    }

    /// The driver after `umount`.
    pub open spec fn umount(self) -> StorageDriverView {
        match self {
            StorageDriverView::Null => self,
            StorageDriverView::Overlay(driver) => StorageDriverView::Overlay(driver.umount()),
        }
    }

    /// The root of the mounted filesystem, or the error.
    pub open spec fn root(self) -> Result<Seq<char>, DriverError> {
        match self {
            StorageDriverView::Null => Err(DriverError::Unsupported),
            StorageDriverView::Overlay(driver) => driver.root(),
        }
    }
}

impl View for StorageDriver {
    type V = StorageDriverView;

    open spec fn view(&self) -> StorageDriverView {
        match self {
            StorageDriver::Null(_) => StorageDriverView::Null,
            StorageDriver::Overlay(driver) => StorageDriverView::Overlay(driver@),
        }
    }
}

impl StorageDriver {
    /// Mounts the filesystem, given what is on disk: returns the operations
    /// to perform, in order. Fails, and changes nothing, where the driver
    /// is a null driver or its own `mount` fails.
    pub fn mount(&mut self, existing: TargetLayout) -> (result: Result<Vec<SysOp>, DriverError>)
        ensures
            final(self)@ == old(self)@.mount(existing),
            result matches Ok(ops) ==> ops.deep_view() == old(self)@.mount_ops(existing),
            result matches Err(e) ==> old(self)@.mount_error(existing) == Some(e),
            result is Ok <==> old(self)@.mount_error(existing) is None,
    {
        match self {
            StorageDriver::Null(driver) => driver.mount(),
            StorageDriver::Overlay(driver) => driver.mount(existing),
        }
    }

    /// The directories that a mount needs, for the caller to look for
    /// them on disk; none for a null driver.
    pub fn directories(&self) -> (directories: Vec<String>)
        ensures
            directories.deep_view() == self@.directories(),
    {
        match self {
            StorageDriver::Null(_) => {
                let none: Vec<String> = Vec::new();
                assert(none.deep_view() =~= Seq::<Seq<char>>::empty());
                none
            },
            StorageDriver::Overlay(driver) => driver.directories(),
        }
    }

    /// Unmounts the filesystem: returns the operations to perform. Fails
    /// for a null driver, and for no other.
    pub fn umount(&mut self) -> (result: Result<Vec<SysOp>, DriverError>)
        ensures
            final(self)@ == old(self)@.umount(),
            result matches Ok(ops) ==> old(self)@.umount_ops() == Ok::<
                Seq<SysOpView>,
                DriverError,
            >(ops.deep_view()),
            result matches Err(e) ==> old(self)@.umount_ops() == Err::<Seq<SysOpView>, DriverError>(
                e,
            ),
    {
        match self {
            StorageDriver::Null(driver) => driver.umount(),
            StorageDriver::Overlay(driver) => Ok(driver.umount()),
        }
    }

    /// The path where the filesystem is mounted; an error where it is not,
    /// and for a null driver.
    pub fn root(&self) -> (result: Result<&str, DriverError>)
        ensures
            result matches Ok(root) ==> self@.root() == Ok::<Seq<char>, DriverError>(root@),
            result matches Err(e) ==> self@.root() == Err::<Seq<char>, DriverError>(e),
    {
        match self {
            StorageDriver::Null(driver) => driver.root(),
            StorageDriver::Overlay(driver) => driver.root(),
        }
    }
}

/// Permission bits of a device node: read by the owner.
pub const OWNER_READ: u32 = 0o400;

/// Permission bits of a device node: written by the owner.
pub const OWNER_WRITE: u32 = 0o200;

/// Permission bits of a device node: read by the group.
pub const GROUP_READ: u32 = 0o040;

/// The remount that keeps later mounts inside the mount namespace.
pub open spec fn rootfs_private_ops() -> Seq<SysOpView> {
    seq![
        SysOpView::Mount {
            source: None,
            target: "/"@,
            fstype: None,
            flags: MountFlags { private: true, recursive: true, ..MountFlags::empty() },
            data: None,
        },
    ]
}

/// Remounts `/` as private, recursively, so that no mount made afterwards
/// propagates out of the mount namespace.
pub fn mount_rootfs_private() -> (ops: Vec<SysOp>)
    ensures
        ops.deep_view() == rootfs_private_ops(),
{
    let mut ops: Vec<SysOp> = Vec::new();
    ops.push(
        mount_op(
            None,
            "/",
            None,
            MountFlags { private: true, recursive: true, ..MountFlags::empty() },
            None,
        ),
    );
    assert(ops.deep_view() =~= rootfs_private_ops());
    ops
}

/// The mount of `/proc`.
pub open spec fn procfs_ops() -> Seq<SysOpView> {
    seq![
        SysOpView::Mount {
            source: Some("proc"@),
            target: "/proc"@,
            fstype: Some("proc"@),
            flags: MountFlags { nosuid: true, nodev: true, noexec: true, ..MountFlags::empty() },
            data: None,
        },
    ]
}

/// Mounts `proc` at `/proc`, without set-user-ID programs, devices or
/// executables.
pub fn mount_procfs() -> (ops: Vec<SysOp>)
    ensures
        ops.deep_view() == procfs_ops(),
{
    let mut ops: Vec<SysOp> = Vec::new();
    ops.push(
        mount_op(
            Some("proc"),
            "/proc",
            Some("proc"),
            MountFlags { nosuid: true, nodev: true, noexec: true, ..MountFlags::empty() },
            None,
        ),
    );
    assert(ops.deep_view() =~= procfs_ops());
    ops
}

/// The mounts of `/sys`.
pub open spec fn sysfs_ops() -> Seq<SysOpView> {
    seq![
        SysOpView::Mount {
            source: Some("tmpfs"@),
            target: "/sys"@,
            fstype: Some("tmpfs"@),
            flags: MountFlags::empty(),
            data: None,
        },
        SysOpView::Mount {
            source: Some("sysfs"@),
            target: "/sys"@,
            fstype: Some("sysfs"@),
            flags: MountFlags::empty(),
            data: None,
        },
    ]
}

/// Mounts a `tmpfs` over `/sys`, then `sysfs` onto it.
pub fn mount_sysfs() -> (ops: Vec<SysOp>)
    ensures
        ops.deep_view() == sysfs_ops(),
{
    let mut ops: Vec<SysOp> = Vec::new();
    ops.push(mount_op(Some("tmpfs"), "/sys", Some("tmpfs"), MountFlags::empty(), None));
    ops.push(mount_op(Some("sysfs"), "/sys", Some("sysfs"), MountFlags::empty(), None));
    assert(ops.deep_view() =~= sysfs_ops());
    ops
}

/// The character device `path` with the given permissions and numbers.
pub open spec fn device(path: Seq<char>, permissions: u32, major: u64, minor: u64) -> SysOpView {
    SysOpView::MakeCharDevice { path, permissions, device: device_number(major, minor) }
}

/// What populates `/dev`: the standard character devices, the standard
/// symbolic links, and the directories on which `mqueue`, `devpts` and the
/// shared-memory `tmpfs` are mounted afterwards.
pub open spec fn dev_devices_ops() -> Seq<SysOpView> {
    seq![
        device("/dev/null"@, GROUP_READ, 1, 3),
        device("/dev/zero"@, GROUP_READ, 1, 5),
        device("/dev/full"@, GROUP_READ, 1, 7),
        device("/dev/random"@, GROUP_READ, 1, 8),
        device("/dev/urandom"@, GROUP_READ, 1, 9),
        device("/dev/tty"@, OWNER_READ, 5, 0),
        device("/dev/console"@, OWNER_READ, 5, 1),
        SysOpView::Symlink { target: "/proc/self/fd/0"@, link: "/dev/stdin"@ },
        SysOpView::Symlink { target: "/proc/self/fd/1"@, link: "/dev/stdout"@ },
        SysOpView::Symlink { target: "/proc/self/fd/2"@, link: "/dev/stderr"@ },
        SysOpView::Symlink { target: "/proc/kcore"@, link: "/dev/core"@ },
        SysOpView::Symlink { target: "/proc/self/fd"@, link: "/dev/fd"@ },
        SysOpView::MakeDir { path: "/dev/mqueue"@ },
        SysOpView::MakeDir { path: "/dev/pts"@ },
        device("/dev/pts/ptmx"@, 0o600, 5, 2),
        SysOpView::Symlink { target: "/dev/pts/ptmx"@, link: "/dev/ptmx"@ },
        SysOpView::MakeDir { path: "/dev/shm"@ },
    ]
}

/// Populates `/dev` as [`dev_devices_ops`] says.
pub fn create_dev_devices() -> (ops: Vec<SysOp>)
    ensures
        ops.deep_view() == dev_devices_ops(),
{
    let mut ops: Vec<SysOp> = Vec::new();
    ops.push(char_device("/dev/null", GROUP_READ, 1, 3));
    ops.push(char_device("/dev/zero", GROUP_READ, 1, 5));
    ops.push(char_device("/dev/full", GROUP_READ, 1, 7));
    ops.push(char_device("/dev/random", GROUP_READ, 1, 8));
    ops.push(char_device("/dev/urandom", GROUP_READ, 1, 9));
    ops.push(char_device("/dev/tty", OWNER_READ, 5, 0));
    ops.push(char_device("/dev/console", OWNER_READ, 5, 1));
    ops.push(symlink_op("/proc/self/fd/0", "/dev/stdin"));
    ops.push(symlink_op("/proc/self/fd/1", "/dev/stdout"));
    ops.push(symlink_op("/proc/self/fd/2", "/dev/stderr"));
    ops.push(symlink_op("/proc/kcore", "/dev/core"));
    ops.push(symlink_op("/proc/self/fd", "/dev/fd"));
    ops.push(make_dir_op("/dev/mqueue"));
    ops.push(make_dir_op("/dev/pts"));
    assert(OWNER_READ | OWNER_WRITE == 0o600) by (bit_vector);
    ops.push(char_device("/dev/pts/ptmx", OWNER_READ | OWNER_WRITE, 5, 2));
    ops.push(symlink_op("/dev/pts/ptmx", "/dev/ptmx"));
    ops.push(make_dir_op("/dev/shm"));
    assert(ops.deep_view() =~= dev_devices_ops());
    ops
}

/// The device numbers of `/dev`, in decimal: `major * 256 + minor`.
pub proof fn lemma_dev_device_numbers()
    ensures
        device_number(1, 3) == 259,
        device_number(1, 5) == 261,
        device_number(1, 7) == 263,
        device_number(1, 8) == 264,
        device_number(1, 9) == 265,
        device_number(5, 0) == 1280,
        device_number(5, 1) == 1281,
        device_number(5, 2) == 1282,
{
    crate::syscall::lemma_device_number_small(1, 3);
    crate::syscall::lemma_device_number_small(1, 5);
    crate::syscall::lemma_device_number_small(1, 7);
    crate::syscall::lemma_device_number_small(1, 8);
    crate::syscall::lemma_device_number_small(1, 9);
    crate::syscall::lemma_device_number_small(5, 0);
    crate::syscall::lemma_device_number_small(5, 1);
    crate::syscall::lemma_device_number_small(5, 2);
}

/// The mount of the `tmpfs` that holds `/dev`.
pub open spec fn dev_tmpfs() -> SysOpView {
    SysOpView::Mount {
        source: Some("tmpfs"@),
        target: "/dev"@,
        fstype: Some("tmpfs"@),
        flags: MountFlags::empty(),
        data: None,
    }
}

/// The mounts below `/dev`: message queues, pseudo-terminals and shared
/// memory.
pub open spec fn dev_mounts() -> Seq<SysOpView> {
    seq![
        SysOpView::Mount {
            source: Some("mqueue"@),
            target: "/dev/mqueue"@,
            fstype: Some("mqueue"@),
            flags: MountFlags::empty(),
            data: None,
        },
        SysOpView::Mount {
            source: Some("devpts"@),
            target: "/dev/pts"@,
            fstype: Some("devpts"@),
            flags: MountFlags::empty(),
            data: Some("newinstance,ptmxmode=0666,mode=0620"@),
        },
        SysOpView::Mount {
            source: Some("tmpfs"@),
            target: "/dev/shm"@,
            fstype: Some("tmpfs"@),
            flags: MountFlags::empty(),
            data: Some("mode=1777,size=65536k"@),
        },
    ]
}

/// All that sets up `/dev`: the `tmpfs`, what populates it, and the mounts
/// below it.
pub open spec fn devfs_ops() -> Seq<SysOpView> {
    seq![dev_tmpfs()] + dev_devices_ops() + dev_mounts()
}

/// Mounts a `tmpfs` over `/dev`, populates it, and mounts `mqueue` on
/// `/dev/mqueue`, `devpts` on `/dev/pts` and a `tmpfs` on `/dev/shm`.
pub fn mount_devfs() -> (ops: Vec<SysOp>)
    ensures
        ops.deep_view() == devfs_ops(),
{
    let mut ops: Vec<SysOp> = Vec::new();
    ops.push(mount_op(Some("tmpfs"), "/dev", Some("tmpfs"), MountFlags::empty(), None));
    assert(ops.deep_view() =~= seq![dev_tmpfs()]);
    extend_ops(&mut ops, create_dev_devices());
    let mut mounts: Vec<SysOp> = Vec::new();
    mounts.push(mount_op(Some("mqueue"), "/dev/mqueue", Some("mqueue"), MountFlags::empty(), None));
    mounts.push(
        mount_op(
            Some("devpts"),
            "/dev/pts",
            Some("devpts"),
            MountFlags::empty(),
            Some("newinstance,ptmxmode=0666,mode=0620"),
        ),
    );
    mounts.push(
        mount_op(
            Some("tmpfs"),
            "/dev/shm",
            Some("tmpfs"),
            MountFlags::empty(),
            Some("mode=1777,size=65536k"),
        ),
    );
    assert(mounts.deep_view() =~= dev_mounts());
    extend_ops(&mut ops, mounts);
    ops
}

} // verus!
