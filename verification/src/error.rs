//! The errors of device construction and activation.
//!
//! Causes that come from the operating system are kept as plain error codes,
//! so that every error is a value that can be compared and stored.

use vstd::prelude::*;

verus! {

/// The operating-system error code of a system call that failed.
#[derive(Clone, Copy, Debug, PartialEq, Eq)]
pub struct IoError {
    pub errno: i32,
}

/// A failed operation on a tap interface.
#[derive(Clone, Copy, Debug, PartialEq, Eq)]
pub struct TapError {
    pub cause: IoError,
}

/// The calls that a device makes on behalf of one queue pair while it
/// activates.
#[derive(Clone, Copy, Debug, PartialEq, Eq)]
pub enum BackendCall {
    /// Opening a handle to the kernel backend.
    Create,
    /// Claiming ownership of the handle.
    SetOwner,
    /// Reading the features that the backend reports.
    GetFeatures,
    /// Writing the negotiated features back.
    SetFeatures,
    /// Bringing the tap's offload flags in line with the negotiated features.
    SetTapOffload,
}

/// A call to the kernel backend that failed: which call, for which queue
/// pair, and why.
#[derive(Clone, Copy, Debug, PartialEq, Eq)]
pub struct BackendError {
    pub call: BackendCall,
    pub pair: usize,
    pub cause: IoError,
}

/// Errors of the vhost network device.
#[derive(Debug, PartialEq, Eq)]
pub enum VhostNetError {
    /// Open tap device failed.
    TapOpen(TapError),
    /// Setting tap interface offload flags failed.
    TapSetOffload(TapError),
    /// Setting vnet header size failed.
    TapSetVnetHdrSize(TapError),
    /// Creating an event descriptor failed.
    EventFd(IoError),
    /// IO error.
    IO(IoError),
    /// The VNET header is missing from the frame.
    VnetHeaderMissing,
    /// Opening the vhost device failed.
    VhostOpen(IoError),
    /// The tap interface lacks the flags named here, separated by ", ".
    MissingFlags(String),
    /// A call to the kernel backend failed.
    VhostError(BackendError),
}

/// An error of the vhost network device as contracts see it: the same
/// error, with the text it carries as a sequence of characters.
pub enum VhostNetErrorView {
    TapOpen(TapError),
    TapSetOffload(TapError),
    TapSetVnetHdrSize(TapError),
    EventFd(IoError),
    IO(IoError),
    VnetHeaderMissing,
    VhostOpen(IoError),
    MissingFlags(Seq<char>),
    VhostError(BackendError),
}

impl View for VhostNetError {
    type V = VhostNetErrorView;

    open spec fn view(&self) -> VhostNetErrorView {
        match *self {
            VhostNetError::TapOpen(error) => VhostNetErrorView::TapOpen(error),
            VhostNetError::TapSetOffload(error) => VhostNetErrorView::TapSetOffload(error),
            VhostNetError::TapSetVnetHdrSize(error) => VhostNetErrorView::TapSetVnetHdrSize(error),
            VhostNetError::EventFd(error) => VhostNetErrorView::EventFd(error),
            VhostNetError::IO(error) => VhostNetErrorView::IO(error),
            VhostNetError::VnetHeaderMissing => VhostNetErrorView::VnetHeaderMissing,
            VhostNetError::VhostOpen(error) => VhostNetErrorView::VhostOpen(error),
            VhostNetError::MissingFlags(names) => VhostNetErrorView::MissingFlags(names@),
            VhostNetError::VhostError(error) => VhostNetErrorView::VhostError(error),
        }
    }
}

/// Why an activation did not leave the device activated.
#[derive(Debug, PartialEq, Eq)]
pub enum ActivateError {
    /// Setting up the kernel backend failed.
    Vhost(VhostNetError),
    /// The activation event could not be signalled.
    BadActivate,
    /// The device is activated already.
    AlreadyActivated,
    /// No activation is under way.
    NotActivating,
}

} // verus!
