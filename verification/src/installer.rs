//! The disk-image installer state machine.
//!
//! One installer turns a downloaded disk image into installed application
//! bundles: attach the image, parse the mounted volume's path from the
//! attach tool's output, list the volume's top-level entries, copy each
//! bundle into the install directory, and detach the volume. The machine
//! consumes the outcome of each external step and says which step to run
//! next; the surrounding task performs the attach, list, copy and detach
//! operations themselves.
//!
//! The resource guarantee is an invariant of the machine: an installer
//! that reached the attached state attempts a detach before it becomes
//! terminal, whatever failed in between, and one that failed before
//! attaching never attempts a detach.

use vstd::prelude::*;
use crate::bytes::{join_path, SLASH};
use crate::volume::{parse_volume_path, select_bundles, spec_volume_path, spec_bundles};

verus! {

/// An attach or detach subprocess failure, or output that carries no
/// recognisable volume path.
#[derive(Clone, Copy, PartialEq, Eq, Structural, Debug)]
pub enum MountError {
    /// The attach operation reported failure; nothing was mounted.
    Attach,
    /// The attach operation succeeded but its output yielded no volume
    /// path, so the volume cannot be used nor detached.
    VolumeParse,
    /// The forced detach operation reported failure.
    Detach,
}

/// A file-system failure while reading or copying the mounted volume.
#[derive(Clone, Copy, PartialEq, Eq, Structural, Debug)]
pub enum CopyError {
    /// Listing the volume's top-level entries failed.
    Enumerate,
    /// Copying a bundle into the install directory failed.
    CopyFile,
}

/// The terminal reason an installer failed.
#[derive(Clone, Copy, PartialEq, Eq, Structural, Debug)]
pub enum InstallError {
    Mount(MountError),
    FileCopy(CopyError),
}

/// Where an installer stands. `Enumerating`, `Copying` and `Detaching` are
/// only reachable once the image is attached; `Done` and `Failed` are
/// terminal.
#[derive(Clone, Copy, PartialEq, Eq, Structural, Debug)]
pub enum InstallState {
    Attaching,
    Enumerating,
    Copying,
    Detaching,
    Done,
    Failed,
}

/// The next external step the installer's task must run.
pub enum InstallAction {
    /// Run the attach operation on the image.
    RunAttach { image: Vec<u8> },
    /// List the top-level entries of the mounted volume.
    ListVolume { volume: Vec<u8> },
    /// Recursively copy one bundle from the volume to the install
    /// directory.
    CopyBundle { source: Vec<u8>, destination: Vec<u8> },
    /// Run the forced detach operation on the volume.
    RunDetach { volume: Vec<u8> },
    /// The installer is terminal; nothing is left to run.
    Finished,
}

/// The state machine driving one disk image's installation.
pub struct DiskImageInstaller {
    /// The disk image being installed.
    pub image_path: Vec<u8>,
    /// Where bundles are copied to.
    pub install_dir: Vec<u8>,
    /// The mounted volume's path; meaningful once `attached`.
    pub volume_path: Vec<u8>,
    /// The bundle names discovered on the volume, in order.
    pub bundles: Vec<Vec<u8>>,
    /// How many bundle copies have been issued.
    pub next_bundle: usize,
    /// How many bundle copies have succeeded.
    pub installed: usize,
    pub state: InstallState,
    /// Whether the machine ever held a mounted volume's path.
    pub attached: bool,
    /// Whether a detach was issued for that volume.
    pub detach_attempted: bool,
    /// The first error recorded, kept through the detach step.
    pub error: Option<InstallError>,
}

impl DiskImageInstaller {
    /// Validity of the machine: counters in range, the middle states only
    /// with an attached volume, and — the pairing guarantee — a terminal
    /// machine attempted a detach exactly when it was attached.
    pub open spec fn wf(self) -> bool {
        &&& self.next_bundle <= self.bundles.len()
        &&& self.installed <= self.next_bundle
        &&& self.state is Attaching
            ==> !self.attached && !self.detach_attempted && self.error is None
                && self.next_bundle == 0 && self.installed == 0
        &&& (self.state is Enumerating || self.state is Copying || self.state is Detaching)
            ==> self.attached
        &&& self.state is Enumerating ==> self.error is None && self.next_bundle == 0
        &&& self.state is Copying
            ==> self.error is None && 1 <= self.next_bundle
                && self.installed == self.next_bundle - 1
        &&& (self.state is Enumerating || self.state is Copying) ==> !self.detach_attempted
        &&& self.state is Detaching ==> self.detach_attempted
        &&& self.detach_attempted ==> self.attached
        &&& (self.is_terminal() && self.attached) ==> self.detach_attempted
        &&& self.state is Done ==> self.error is None
        &&& self.state is Failed ==> self.error is Some
    }

    /// A machine is terminal once it is `Done` or `Failed`.
    pub open spec fn is_terminal(self) -> bool {
        self.state is Done || self.state is Failed
    }

    /// Start an installer for one image: the first step is the attach.
    pub fn new(image_path: Vec<u8>, install_dir: Vec<u8>) -> (r: (Self, InstallAction))
        ensures
            r.0.wf(),
            r.0.state is Attaching,
            r.0.image_path@ == image_path@,
            r.0.install_dir@ == install_dir@,
            r.0.attached == false,
            r.0.detach_attempted == false,
            r.0.installed == 0,
            r.1 matches InstallAction::RunAttach { image } && image@ == image_path@,
    {
        let image = image_path.clone();
        assert(image@ =~= image_path@);
        let installer = DiskImageInstaller {
            image_path,
            install_dir,
            volume_path: Vec::new(),
            bundles: Vec::new(),
            next_bundle: 0,
            installed: 0,
            state: InstallState::Attaching,
            attached: false,
            detach_attempted: false,
            error: None,
        };
        (installer, InstallAction::RunAttach { image })
    }

    /// Consume the attach operation's outcome. On reported failure nothing
    /// was mounted, so the machine fails with no detach. On success the
    /// volume path is parsed from the output: if none can be found the
    /// machine fails — the volume is unknown, so no detach can be issued —
    /// and otherwise the machine holds the volume and asks for its entry
    /// list.
    pub fn on_attach(&mut self, success: bool, output: &Vec<u8>) -> (a: InstallAction)
        requires
            old(self).wf(),
            old(self).state is Attaching,
        ensures
            final(self).wf(),
            final(self).image_path == old(self).image_path,
            final(self).install_dir == old(self).install_dir,
            final(self).installed == 0,
            final(self).detach_attempted == false,
            !success ==> {
                &&& final(self).state is Failed
                &&& !final(self).attached
                &&& final(self).error == Some(InstallError::Mount(MountError::Attach))
                &&& a is Finished
            },
            success ==> match spec_volume_path(output@) {
                Some(v) => {
                    &&& final(self).state is Enumerating
                    &&& final(self).attached
                    &&& final(self).volume_path@ == v
                    &&& a matches InstallAction::ListVolume { volume } && volume@ == v
                },
                None => {
                    &&& final(self).state is Failed
                    &&& !final(self).attached
                    &&& final(self).error == Some(InstallError::Mount(MountError::VolumeParse))
                    &&& a is Finished
                },
            },
    {
        if !success {
            self.state = InstallState::Failed;
            self.error = Some(InstallError::Mount(MountError::Attach));
            return InstallAction::Finished;
        }
        match parse_volume_path(output) {
            Some(volume) => {
                let listed = volume.clone();
                assert(listed@ =~= volume@);
                self.volume_path = volume;
                self.attached = true;
                self.state = InstallState::Enumerating;
                InstallAction::ListVolume { volume: listed }
            },
            None => {
                self.state = InstallState::Failed;
                self.error = Some(InstallError::Mount(MountError::VolumeParse));
                InstallAction::Finished
            },
        }
    }

    /// Issue the detach for the held volume; the single place the detach
    /// attempt is recorded.
    fn issue_detach(&mut self) -> (a: InstallAction)
        requires
            old(self).attached,
        ensures
            *final(self) == (DiskImageInstaller {
                state: InstallState::Detaching,
                detach_attempted: true,
                ..*old(self)
            }),
            a matches InstallAction::RunDetach { volume } && volume@ == old(self).volume_path@,
    {
        self.state = InstallState::Detaching;
        self.detach_attempted = true;
        let volume = self.volume_path.clone();
        assert(volume@ =~= self.volume_path@);
        InstallAction::RunDetach { volume }
    }

    /// Consume the volume's entry list: select the application bundles and
    /// start copying the first, or go straight to the detach when the
    /// volume carries none.
    pub fn on_entries(&mut self, names: &Vec<Vec<u8>>) -> (a: InstallAction)
        requires
            old(self).wf(),
            old(self).state is Enumerating,
        ensures
            final(self).wf(),
            final(self).image_path == old(self).image_path,
            final(self).install_dir == old(self).install_dir,
            final(self).volume_path == old(self).volume_path,
            final(self).attached,
            final(self).installed == 0,
            final(self).error is None,
            final(self).bundles.deep_view() == spec_bundles(names.deep_view()),
            spec_bundles(names.deep_view()).len() == 0 ==> {
                &&& final(self).state is Detaching
                &&& final(self).detach_attempted
                &&& a matches InstallAction::RunDetach { volume }
                    && volume@ == old(self).volume_path@
            },
            spec_bundles(names.deep_view()).len() > 0 ==> {
                &&& final(self).state is Copying
                &&& final(self).next_bundle == 1
                &&& !final(self).detach_attempted
                &&& a matches InstallAction::CopyBundle { source, destination }
                    && source@ == old(self).volume_path@ + seq![SLASH]
                        + spec_bundles(names.deep_view())[0]
                    && destination@ == old(self).install_dir@ + seq![SLASH]
                        + spec_bundles(names.deep_view())[0]
            },
    {
        let bundles = select_bundles(names);
        self.bundles = bundles;
        if self.bundles.len() == 0 {
            self.issue_detach()
        } else {
            self.state = InstallState::Copying;
            self.next_bundle = 1;
            let source = join_path(&self.volume_path, &self.bundles[0]);
            let destination = join_path(&self.install_dir, &self.bundles[0]);
            proof {
                assert(self.bundles.deep_view()[0] == self.bundles@[0]@);
            }
            InstallAction::CopyBundle { source, destination }
        }
    }

    /// Listing the volume's entries failed: record the error and still
    /// detach the attached volume.
    pub fn on_list_failed(&mut self) -> (a: InstallAction)
        requires
            old(self).wf(),
            old(self).state is Enumerating,
        ensures
            final(self).wf(),
            final(self).image_path == old(self).image_path,
            final(self).install_dir == old(self).install_dir,
            final(self).volume_path == old(self).volume_path,
            final(self).state is Detaching,
            final(self).detach_attempted,
            final(self).installed == 0,
            final(self).error == Some(InstallError::FileCopy(CopyError::Enumerate)),
            a matches InstallAction::RunDetach { volume } && volume@ == old(self).volume_path@,
    {
        self.error = Some(InstallError::FileCopy(CopyError::Enumerate));
        self.issue_detach()
    }

    /// Consume one bundle copy's outcome. Success counts the bundle as
    /// installed and moves to the next one, or to the detach when all are
    /// copied. Failure records the error, abandons the remaining bundles,
    /// and still detaches — already-copied bundles stay counted.
    pub fn on_copy_result(&mut self, success: bool) -> (a: InstallAction)
        requires
            old(self).wf(),
            old(self).state is Copying,
        ensures
            final(self).wf(),
            final(self).image_path == old(self).image_path,
            final(self).install_dir == old(self).install_dir,
            final(self).volume_path == old(self).volume_path,
            final(self).bundles == old(self).bundles,
            final(self).attached,
            success ==> final(self).installed == old(self).installed + 1,
            !success ==> final(self).installed == old(self).installed,
            success && old(self).next_bundle < old(self).bundles.len() ==> {
                &&& final(self).state is Copying
                &&& final(self).next_bundle == old(self).next_bundle + 1
                &&& !final(self).detach_attempted
                &&& a matches InstallAction::CopyBundle { source, destination }
                    && source@ == old(self).volume_path@ + seq![SLASH]
                        + old(self).bundles@[old(self).next_bundle as int]@
                    && destination@ == old(self).install_dir@ + seq![SLASH]
                        + old(self).bundles@[old(self).next_bundle as int]@
            },
            success && old(self).next_bundle == old(self).bundles.len() ==> {
                &&& final(self).state is Detaching
                &&& final(self).detach_attempted
                &&& final(self).error is None
                &&& a matches InstallAction::RunDetach { volume }
                    && volume@ == old(self).volume_path@
            },
            !success ==> {
                &&& final(self).state is Detaching
                &&& final(self).detach_attempted
                &&& final(self).error == Some(InstallError::FileCopy(CopyError::CopyFile))
                &&& a matches InstallAction::RunDetach { volume }
                    && volume@ == old(self).volume_path@
            },
    {
        if !success {
            self.error = Some(InstallError::FileCopy(CopyError::CopyFile));
            return self.issue_detach();
        }
        self.installed = self.installed + 1;
        if self.next_bundle < self.bundles.len() {
            let i = self.next_bundle;
            self.next_bundle = i + 1;
            let source = join_path(&self.volume_path, &self.bundles[i]);
            let destination = join_path(&self.install_dir, &self.bundles[i]);
            InstallAction::CopyBundle { source, destination }
        } else {
            self.issue_detach()
        }
    }

    /// Consume the detach's outcome; the machine becomes terminal. An
    /// earlier error is kept; a detach failure after a clean copy phase
    /// fails the machine without un-counting the installed bundles.
    pub fn on_detach(&mut self, success: bool)
        requires
            old(self).wf(),
            old(self).state is Detaching,
        ensures
            final(self).wf(),
            final(self).is_terminal(),
            final(self).image_path == old(self).image_path,
            final(self).install_dir == old(self).install_dir,
            final(self).installed == old(self).installed,
            final(self).attached && final(self).detach_attempted,
            old(self).error is Some ==> final(self).state is Failed
                && final(self).error == old(self).error,
            old(self).error is None && success ==> final(self).state is Done
                && final(self).error is None,
            old(self).error is None && !success ==> final(self).state is Failed
                && final(self).error == Some(InstallError::Mount(MountError::Detach)),
    {
        match self.error {
            Some(_) => {
                self.state = InstallState::Failed;
            },
            None => {
                if success {
                    self.state = InstallState::Done;
                } else {
                    self.error = Some(InstallError::Mount(MountError::Detach));
                    self.state = InstallState::Failed;
                }
            },
        }
    }
}

/// Mount/unmount pairing: a terminal installer attempted a detach exactly
/// when it reached the attached state. In particular an installer whose
/// copy step failed still detached, and one whose attach failed never did.
pub proof fn lemma_mount_unmount_pairing(j: DiskImageInstaller)
    requires
        j.wf(),
        j.is_terminal(),
    ensures
        j.attached <==> j.detach_attempted,
{
}

} // verus!
