//! The kernel backend as the device sees it: one handle per queue pair, the
//! requests the device makes of it while it activates, and the replies.

use crate::error::{IoError, VhostNetError};
use crate::queue::EventFd;
use std::sync::Arc;
use vstd::prelude::*;

verus! {

/// How far the set-up of a backend handle has come.
#[derive(Clone, Copy, Debug, PartialEq, Eq)]
pub enum HandleState {
    /// The handle exists; nothing was done with it.
    Created,
    /// The device owns the handle.
    Owned,
    /// The negotiated features were written to the handle.
    FeatureSet,
    /// The handle and the tap of its queue pair are set up.
    Ready,
}

/// What the device knows of the backend handle of one queue pair.
#[derive(Clone, Copy, Debug, PartialEq, Eq)]
pub struct BackendHandle {
    /// How far the set-up has come.
    pub state: HandleState,
    /// The features that the backend reported last.
    pub backend_features: u64,
    /// The features that were written to the backend last.
    pub features: u64,
}

impl BackendHandle {
    /// The record of a handle that was just created.
    pub open spec fn fresh() -> BackendHandle {
        BackendHandle { state: HandleState::Created, backend_features: 0, features: 0 }
    }

    /// The record of a handle that was just created.
    pub fn new() -> (handle: BackendHandle)
        ensures
            handle == BackendHandle::fresh(),
    {
        BackendHandle { state: HandleState::Created, backend_features: 0, features: 0 }
    }
}

/// What an activating device asks the caller to do next. Queue pairs
/// are numbered from zero; the tap and the handle of a pair share its number.
#[derive(Clone, Copy, Debug, PartialEq, Eq)]
pub enum BackendRequest {
    /// Create the backend handle of queue pair `pair`.
    CreateHandle { pair: usize },
    /// Claim ownership of the handle of `pair`.
    SetOwner { pair: usize },
    /// Read the features that the handle of `pair` reports.
    GetFeatures { pair: usize },
    /// Write `features` to the handle of `pair`.
    SetFeatures { pair: usize, features: u64 },
    /// Set the offload flags of the tap of `pair` to `offload`.
    SetTapOffload { pair: usize, offload: u32 },
    /// Signal the activation event.
    SignalActivation,
}

/// How the caller answers a request.
#[derive(Clone, Copy, Debug, PartialEq, Eq)]
pub enum BackendReply {
    /// The request was carried out.
    Done,
    /// The features that the backend reports.
    Features(u64),
    /// The request failed.
    Failed(IoError),
}

impl BackendRequest {
    /// Whether `reply` is an answer that this request can get: a failure
    /// answers any request, a feature set answers a request for one, and
    /// `Done` answers the others.
    pub open spec fn answered_by(self, reply: BackendReply) -> bool {
        match reply {
            BackendReply::Failed(_) => true,
            BackendReply::Features(_) => self is GetFeatures,
            BackendReply::Done => !(self is GetFeatures),
        }
    }
}

/// The operations of a handle to the kernel backend of one queue pair.
pub trait VhostKernHandleBackend: Sized {
    /// Claims the backend for the calling process.
    fn set_owner(&self) -> Result<(), VhostNetError>;

    /// Gives up the claim on the backend.
    fn reset_owner(&self) -> Result<(), VhostNetError>;

    /// Reads the features that the backend supports.
    fn get_features(&self) -> Result<u64, VhostNetError>;

    /// Tells the backend which features to use.
    fn set_features(&self, features: u64) -> Result<(), VhostNetError>;

    /// Hands the layout of guest memory to the backend.
    fn set_mem_table(&self) -> Result<(), VhostNetError>;

    /// Sets the number of descriptors of a vring.
    fn set_vring_num(&self, queue_idx: usize, num: u16) -> Result<(), VhostNetError>;

    /// Sets the index at which the backend starts to look for available
    /// descriptors.
    fn set_vring_base(&self, queue_idx: usize, last_avail_idx: u16) -> Result<(), VhostNetError>;

    /// Reads the index at which the backend would look next.
    fn get_vring_base(&self, queue_idx: usize) -> Result<u16, VhostNetError>;

    /// Sets the descriptor that the backend signals when it has used buffers.
    fn set_vring_call(&self, queue_idx: usize, fd: Arc<EventFd>) -> Result<(), VhostNetError>;

    /// Sets the descriptor that the guest signals when it has added buffers.
    fn set_vring_kick(&self, queue_idx: usize, fd: Arc<EventFd>) -> Result<(), VhostNetError>;

    /// Switches a vring on or off. A backend without such a switch accepts
    /// the call and does nothing.
    fn set_vring_enable(&self, _queue_idx: usize, _status: bool) -> (result: Result<
        (),
        VhostNetError,
    >)
        default_ensures
            result is Ok,
    {
        Ok(())
    }
}

} // verus!
