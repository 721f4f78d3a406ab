//! Building a mapping, one system call at a time.
//!
//! A session is what is left to do of a validated request. It names the
//! call that has to be made next; handed the reply to that call, it either
//! moves on to the next call or ends, in a mapping or in a failure. When a
//! call fails after something has been acquired, the session first asks for
//! everything acquired so far to be released and only then ends.

use vstd::prelude::*;
use vstd::multiset::Multiset;
use crate::alignment::Geometry;
use crate::error::MmapError;
use crate::mapping::{Layout, Mmap};
use crate::platform::Platform;
use crate::request::MappingRequest;
use crate::syscall::{high_word, low_word, split_words, Resource, SysCall};
use crate::unix::{posix_plan_of, PosixPlan};
use crate::windows::{windows_plan_of, WindowsPlan};

verus! {

/// How far the calls of a handle platform have got. Each stage waits for
/// the reply to one call.
#[derive(Clone, Copy, Debug, PartialEq, Eq)]
pub enum WindowsStage {
    /// Opening the process token.
    OpeningToken,
    /// Looking up the lock-memory privilege, the token open.
    LookingUpPrivilege { token: usize },
    /// Enabling the privilege on the open token.
    EnablingPrivilege { token: usize },
    /// Closing the token, the privilege granted or not.
    ClosingToken { token: usize, granted: bool },
    /// Creating the mapping object.
    CreatingSection,
    /// Mapping a view of the mapping object.
    MappingView { section: usize },
    /// Closing the mapping object, the view mapped or not.
    ClosingSection { section: usize, view: Result<usize, i32> },
    /// Duplicating the backing handle for the mapped view.
    Duplicating { base: usize },
    /// Giving the mapped view its protection.
    Protecting { base: usize },
    /// Unmapping the view after the call that followed it failed with
    /// `code`.
    Unwinding { base: usize, code: i32 },
}

/// What is left to do of a validated request.
///
/// A session stands for the calls that have been made for it and for what
/// they acquired, so it cannot be copied: taking a reply consumes it, and
/// each reply is taken once.
#[derive(Debug, PartialEq, Eq)]
pub enum Session {
    /// A descriptor platform maps with one call.
    Posix(PosixPlan),
    /// A handle platform maps in stages.
    Windows(WindowsPlan, WindowsStage),
}

/// Where a session stands after a reply.
#[derive(Debug)]
pub enum Progress {
    /// Another call has to be made.
    Pending(Session),
    /// The session has ended.
    Done(Result<Mmap, MmapError>),
}

/// Where a session stands after a reply, with a mapping described by its
/// layout.
pub enum Outcome {
    Pending(Session),
    Mapped(Layout),
    Failed(MmapError),
}

impl Progress {
    pub open spec fn outcome(self) -> Outcome {
        match self {
            Progress::Pending(s) => Outcome::Pending(s),
            Progress::Done(Ok(m)) => Outcome::Mapped(m@),
            Progress::Done(Err(e)) => Outcome::Failed(e),
        }
    }
}

/// The stage a plan starts in: with the process token where the privilege
/// has to be enabled, with the mapping object otherwise.
pub open spec fn first_stage(plan: WindowsPlan) -> WindowsStage {
    if plan.elevate {
        WindowsStage::OpeningToken
    } else {
        WindowsStage::CreatingSection
    }
}

/// The session a request opens on a platform, or the reason the request is
/// rejected. A request is validated in full before a session exists, so a
/// rejected request has acquired nothing.
pub open spec fn session_of(platform: Platform, request: MappingRequest) -> Result<
    Session,
    MmapError,
> {
    match platform {
        Platform::Posix(p) => match posix_plan_of(p, request) {
            Ok(plan) => Ok(Session::Posix(plan)),
            Err(e) => Err(e),
        },
        Platform::Windows(w) => match windows_plan_of(w, request) {
            Ok(plan) => Ok(Session::Windows(plan, first_stage(plan))),
            Err(e) => Err(e),
        },
    }
}

impl Session {
    /// The geometry of the mapping the session is building.
    pub open spec fn geometry(self) -> Geometry {
        match self {
            Session::Posix(plan) => plan.geometry,
            Session::Windows(plan, _) => plan.geometry,
        }
    }

    pub open spec fn well_formed(self) -> bool {
        self.geometry().well_formed()
    }

    /// The call the session is waiting for a reply to.
    pub open spec fn pending_call(self) -> SysCall {
        match self {
            Session::Posix(plan) => plan.call(),
            Session::Windows(plan, stage) => match stage {
                WindowsStage::OpeningToken => SysCall::OpenProcessToken {
                    access: plan.token_access,
                },
                WindowsStage::LookingUpPrivilege { .. } => SysCall::LookupLockMemory,
                WindowsStage::EnablingPrivilege { token } => SysCall::AdjustPrivileges {
                    token,
                    attributes: plan.privilege_attributes,
                },
                WindowsStage::ClosingToken { token, .. } => SysCall::CloseHandle { handle: token },
                WindowsStage::CreatingSection => SysCall::CreateFileMapping {
                    file: plan.file,
                    protection: plan.section_protection,
                    size_high: high_word(plan.section_size),
                    size_low: low_word(plan.section_size),
                },
                WindowsStage::MappingView { section } => SysCall::MapViewOfFile {
                    section,
                    access: plan.view_access,
                    offset_high: high_word(plan.view_offset),
                    offset_low: low_word(plan.view_offset),
                    len: plan.geometry.aligned_len,
                },
                WindowsStage::ClosingSection { section, .. } => SysCall::CloseHandle {
                    handle: section,
                },
                WindowsStage::Duplicating { .. } => SysCall::DuplicateHandle {
                    source: plan.file,
                    options: plan.duplicate_options,
                },
                WindowsStage::Protecting { base } => SysCall::VirtualProtect {
                    address: base,
                    len: plan.geometry.aligned_len,
                    protection: plan.protection,
                },
                WindowsStage::Unwinding { base, .. } => SysCall::Unmap {
                    address: base,
                    len: plan.geometry.aligned_len,
                },
            },
        }
    }

    /// What the process holds on behalf of the session while the pending
    /// call has not been answered.
    pub open spec fn held(self) -> Multiset<Resource> {
        match self {
            Session::Posix(_) => Multiset::empty(),
            Session::Windows(_, stage) => match stage {
                WindowsStage::OpeningToken | WindowsStage::CreatingSection => Multiset::empty(),
                WindowsStage::LookingUpPrivilege { token }
                | WindowsStage::EnablingPrivilege { token }
                | WindowsStage::ClosingToken { token, .. } => Multiset::singleton(
                    Resource::Handle(token),
                ),
                WindowsStage::MappingView { section } => Multiset::singleton(
                    Resource::Handle(section),
                ),
                WindowsStage::ClosingSection { section, view } => match view {
                    Ok(base) => Multiset::singleton(Resource::Handle(section)).insert(
                        Resource::View(base),
                    ),
                    Err(_) => Multiset::singleton(Resource::Handle(section)),
                },
                WindowsStage::Duplicating { base }
                | WindowsStage::Protecting { base }
                | WindowsStage::Unwinding { base, .. } => Multiset::singleton(
                    Resource::View(base),
                ),
            },
        }
    }

    /// Where the session stands once the pending call has been answered
    /// with `reply`.
    pub open spec fn step(self, reply: Result<usize, i32>) -> Outcome {
        match self {
            Session::Posix(plan) => match reply {
                Ok(base) => Outcome::Mapped(Layout::of(base, plan.geometry, None)),
                Err(code) => Outcome::Failed(MmapError::PlatformFailure(code)),
            },
            Session::Windows(plan, stage) => match stage {
                WindowsStage::OpeningToken => match reply {
                    Ok(token) => Outcome::Pending(
                        Session::Windows(plan, WindowsStage::LookingUpPrivilege { token }),
                    ),
                    Err(_) => Outcome::Failed(MmapError::PrivilegeAcquisitionFailure),
                },
                WindowsStage::LookingUpPrivilege { token } => Outcome::Pending(
                    Session::Windows(
                        plan,
                        if reply is Ok {
                            WindowsStage::EnablingPrivilege { token }
                        } else {
                            WindowsStage::ClosingToken { token, granted: false }
                        },
                    ),
                ),
                WindowsStage::EnablingPrivilege { token } => Outcome::Pending(
                    Session::Windows(
                        plan,
                        WindowsStage::ClosingToken { token, granted: reply is Ok },
                    ),
                ),
                WindowsStage::ClosingToken { granted, .. } => if granted {
                    Outcome::Pending(Session::Windows(plan, WindowsStage::CreatingSection))
                } else {
                    Outcome::Failed(MmapError::PrivilegeAcquisitionFailure)
                },
                WindowsStage::CreatingSection => match reply {
                    Ok(section) => Outcome::Pending(
                        Session::Windows(plan, WindowsStage::MappingView { section }),
                    ),
                    Err(code) => Outcome::Failed(MmapError::PlatformFailure(code)),
                },
                WindowsStage::MappingView { section } => Outcome::Pending(
                    Session::Windows(plan, WindowsStage::ClosingSection { section, view: reply }),
                ),
                WindowsStage::ClosingSection { view, .. } => match view {
                    Ok(base) => Outcome::Pending(
                        Session::Windows(
                            plan,
                            if plan.backed {
                                WindowsStage::Duplicating { base }
                            } else {
                                WindowsStage::Protecting { base }
                            },
                        ),
                    ),
                    Err(code) => Outcome::Failed(MmapError::PlatformFailure(code)),
                },
                WindowsStage::Duplicating { base } => match reply {
                    Ok(duplicate) => Outcome::Mapped(
                        Layout::of(base, plan.geometry, Some(duplicate)),
                    ),
                    Err(code) => Outcome::Pending(
                        Session::Windows(plan, WindowsStage::Unwinding { base, code }),
                    ),
                },
                WindowsStage::Protecting { base } => match reply {
                    Ok(_) => Outcome::Mapped(Layout::of(base, plan.geometry, None)),
                    Err(code) => Outcome::Pending(
                        Session::Windows(plan, WindowsStage::Unwinding { base, code }),
                    ),
                },
                WindowsStage::Unwinding { code, .. } => Outcome::Failed(
                    MmapError::PlatformFailure(code),
                ),
            },
        }
    }

    /// Validates a request and opens the session that builds its mapping on
    /// `platform`.
    pub fn open(platform: &Platform, request: &MappingRequest) -> (r: Result<Session, MmapError>)
        requires
            platform.well_formed(),
        ensures
            r == session_of(*platform, *request),
            r matches Ok(s) ==> s.well_formed(),
    {
        match platform {
            Platform::Posix(p) => match crate::unix::plan(p, request) {
                Ok(plan) => Ok(Session::Posix(plan)),
                Err(e) => Err(e),
            },
            Platform::Windows(w) => match crate::windows::plan(w, request) {
                Ok(plan) => {
                    let stage = if plan.elevate {
                        WindowsStage::OpeningToken
                    } else {
                        WindowsStage::CreatingSection
                    };
                    Ok(Session::Windows(plan, stage))
                },
                Err(e) => Err(e),
            },
        }
    }

    /// The call that has to be made next.
    pub fn pending(&self) -> (call: SysCall)
        ensures
            call == self.pending_call(),
    {
        match self {
            Session::Posix(plan) => SysCall::Mmap {
                len: plan.geometry.aligned_len,
                protection: plan.protection,
                flags: plan.flags,
                fd: plan.fd,
                offset: plan.geometry.aligned_offset,
            },
            Session::Windows(plan, stage) => match stage {
                WindowsStage::OpeningToken => SysCall::OpenProcessToken {
                    access: plan.token_access,
                },
                WindowsStage::LookingUpPrivilege { .. } => SysCall::LookupLockMemory,
                WindowsStage::EnablingPrivilege { token } => SysCall::AdjustPrivileges {
                    token: *token,
                    attributes: plan.privilege_attributes,
                },
                WindowsStage::ClosingToken { token, .. } => SysCall::CloseHandle { handle: *token },
                WindowsStage::CreatingSection => {
                    let (size_high, size_low) = split_words(plan.section_size);
                    SysCall::CreateFileMapping {
                        file: plan.file,
                        protection: plan.section_protection,
                        size_high,
                        size_low,
                    }
                },
                WindowsStage::MappingView { section } => {
                    let (offset_high, offset_low) = split_words(plan.view_offset);
                    SysCall::MapViewOfFile {
                        section: *section,
                        access: plan.view_access,
                        offset_high,
                        offset_low,
                        len: plan.geometry.aligned_len,
                    }
                },
                WindowsStage::ClosingSection { section, .. } => SysCall::CloseHandle {
                    handle: *section,
                },
                WindowsStage::Duplicating { .. } => SysCall::DuplicateHandle {
                    source: plan.file,
                    options: plan.duplicate_options,
                },
                WindowsStage::Protecting { base } => SysCall::VirtualProtect {
                    address: *base,
                    len: plan.geometry.aligned_len,
                    protection: plan.protection,
                },
                WindowsStage::Unwinding { base, .. } => SysCall::Unmap {
                    address: *base,
                    len: plan.geometry.aligned_len,
                },
            },
        }
    }

    /// Takes the reply to the pending call and moves on.
    ///
    /// The reply is the word the call produced, or the error code the
    /// system reported for it. The replies to calls that release something
    /// are not looked at: a release is attempted once and its failure
    /// changes nothing.
    pub fn advance(self, reply: Result<usize, i32>) -> (progress: Progress)
        requires
            self.well_formed(),
        ensures
            progress.outcome() == self.step(reply),
            progress matches Progress::Pending(next) ==> next.well_formed() && next.geometry()
                == self.geometry(),
    {
        match self {
            Session::Posix(plan) => match reply {
                Ok(base) => Progress::Done(Ok(mapped(base, &plan.geometry, None))),
                Err(code) => Progress::Done(Err(MmapError::PlatformFailure(code))),
            },
            Session::Windows(plan, stage) => match stage {
                WindowsStage::OpeningToken => match reply {
                    Ok(token) => Progress::Pending(
                        Session::Windows(plan, WindowsStage::LookingUpPrivilege { token }),
                    ),
                    Err(_) => Progress::Done(Err(MmapError::PrivilegeAcquisitionFailure)),
                },
                WindowsStage::LookingUpPrivilege { token } => {
                    let stage = if reply.is_ok() {
                        WindowsStage::EnablingPrivilege { token }
                    } else {
                        WindowsStage::ClosingToken { token, granted: false }
                    };
                    Progress::Pending(Session::Windows(plan, stage))
                },
                WindowsStage::EnablingPrivilege { token } => Progress::Pending(
                    Session::Windows(
                        plan,
                        WindowsStage::ClosingToken { token, granted: reply.is_ok() },
                    ),
                ),
                WindowsStage::ClosingToken { granted, .. } => if granted {
                    Progress::Pending(Session::Windows(plan, WindowsStage::CreatingSection))
                } else {
                    Progress::Done(Err(MmapError::PrivilegeAcquisitionFailure))
                },
                WindowsStage::CreatingSection => match reply {
                    Ok(section) => Progress::Pending(
                        Session::Windows(plan, WindowsStage::MappingView { section }),
                    ),
                    Err(code) => Progress::Done(Err(MmapError::PlatformFailure(code))),
                },
                WindowsStage::MappingView { section } => Progress::Pending(
                    Session::Windows(plan, WindowsStage::ClosingSection { section, view: reply }),
                ),
                WindowsStage::ClosingSection { view, .. } => match view {
                    Ok(base) => {
                        let stage = if plan.backed {
                            WindowsStage::Duplicating { base }
                        } else {
                            WindowsStage::Protecting { base }
                        };
                        Progress::Pending(Session::Windows(plan, stage))
                    },
                    Err(code) => Progress::Done(Err(MmapError::PlatformFailure(code))),
                },
                WindowsStage::Duplicating { base } => match reply {
                    Ok(duplicate) => Progress::Done(
                        Ok(mapped(base, &plan.geometry, Some(duplicate))),
                    ),
                    Err(code) => Progress::Pending(
                        Session::Windows(plan, WindowsStage::Unwinding { base, code }),
                    ),
                },
                WindowsStage::Protecting { base } => match reply {
                    Ok(_) => Progress::Done(Ok(mapped(base, &plan.geometry, None))),
                    Err(code) => Progress::Pending(
                        Session::Windows(plan, WindowsStage::Unwinding { base, code }),
                    ),
                },
                WindowsStage::Unwinding { code, .. } => Progress::Done(
                    Err(MmapError::PlatformFailure(code)),
                ),
            },
        }
    }
}

/// The mapping of a region the system mapped at `base`: what is visible of
/// it starts the visible offset after `base` and has the requested length.
fn mapped(base: usize, geometry: &Geometry, handle: Option<usize>) -> (mapping: Mmap)
    requires
        geometry.well_formed(),
    ensures
        mapping@ == Layout::of(base, *geometry, handle),
{
    Mmap::from_layout(
        Layout {
            base,
            aligned_len: geometry.aligned_len,
            visible_offset: geometry.visible_offset,
            len: geometry.len,
            handle,
        },
    )
}

} // verus!
