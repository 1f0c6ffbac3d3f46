//! Activation of the device, one step at a time.
//!
//! Activating a device means work in the kernel: a backend handle is created
//! for every queue pair, claimed, told which features to use, the tap of the
//! pair is given matching offload flags, and at the end the activation event
//! is signalled. The device decides what is done and in which order; the
//! caller does it. `activate` starts and returns the first request; the
//! caller carries each request out and hands its outcome to `resume`, which
//! returns the next request, or says how the activation ended.

use crate::backend::{BackendHandle, BackendReply, BackendRequest, HandleState};
use crate::device::{fresh_handles, Activating, DeviceState, Net, NetView};
use crate::error::{ActivateError, BackendCall, BackendError, IoError, VhostNetError};
use crate::features::{
    negotiate_features, negotiated_features, tap_offload_of, virtio_features_to_tap_offload,
};
use crate::tap::Tap;
use vstd::prelude::*;

verus! {

/// Where an activation stands after a step.
#[derive(Debug, PartialEq, Eq)]
pub enum Activation {
    /// The device waits for this request to be carried out and answered.
    Pending(BackendRequest),
    /// The device is activated.
    Activated,
    /// The activation has ended and the device is not activated.
    Failed(ActivateError),
}

/// The error with which an activation ends when `request` fails with
/// `cause`: a failed signal is a bad activation, any other failure an error
/// of the kernel backend that names the call, the queue pair and the cause.
pub open spec fn activation_failure(request: BackendRequest, cause: IoError) -> ActivateError {
    match request {
        BackendRequest::CreateHandle { pair } => backend_failure(BackendCall::Create, pair, cause),
        BackendRequest::SetOwner { pair } => backend_failure(BackendCall::SetOwner, pair, cause),
        BackendRequest::GetFeatures { pair } => backend_failure(
            BackendCall::GetFeatures,
            pair,
            cause,
        ),
        BackendRequest::SetFeatures { pair, features } => backend_failure(
            BackendCall::SetFeatures,
            pair,
            cause,
        ),
        BackendRequest::SetTapOffload { pair, offload } => backend_failure(
            BackendCall::SetTapOffload,
            pair,
            cause,
        ),
        BackendRequest::SignalActivation => ActivateError::BadActivate,
    }
}

/// The activation error for a failed call to the kernel backend.
pub open spec fn backend_failure(call: BackendCall, pair: usize, cause: IoError) -> ActivateError {
    ActivateError::Vhost(VhostNetError::VhostError(BackendError { call, pair, cause }))
}

impl<M> NetView<M> {
    /// The request with which an activation of this device starts: a device
    /// without queue pairs has only the event to signal; a device that has
    /// no handles yet creates them first; a device that has them goes on to
    /// set them up.
    pub open spec fn first_request(self) -> BackendRequest {
        if self.vq_pairs() == 0 {
            BackendRequest::SignalActivation
        } else if self.handles.len() == 0 {
            BackendRequest::CreateHandle { pair: 0 }
        } else {
            BackendRequest::SetOwner { pair: 0 }
        }
    }

    /// The device waiting for `request`, in an activation started with
    /// `mem`.
    pub open spec fn asking(self, mem: M, request: BackendRequest) -> (NetView<M>, Activation) {
        (
            NetView { activating: Some(Activating { mem, request }), ..self },
            Activation::Pending(request),
        )
    }

    /// The device at rest after its activation ended with `error`.
    pub open spec fn failing(self, error: ActivateError) -> (NetView<M>, Activation) {
        (NetView { activating: None, ..self }, Activation::Failed(error))
    }

    /// The device with `handle` as the backend handle of `pair`.
    pub open spec fn with_handle(self, pair: usize, handle: BackendHandle) -> NetView<M> {
        NetView { handles: self.handles.update(pair as int, handle), ..self }
    }

    /// The device with `offload` as the offload flags of the tap of `pair`.
    pub open spec fn with_tap_offload(self, pair: usize, offload: u32) -> NetView<M> {
        NetView {
            taps: self.taps.update(pair as int, Tap { offload, ..self.taps[pair as int] }),
            ..self
        }
    }

    /// What `activate(mem)` makes of the device, and what it returns.
    ///
    /// An activated device rejects the call. A device whose activation is
    /// under way repeats its request. Otherwise an activation starts.
    pub open spec fn activate(self, mem: M) -> (NetView<M>, Activation) {
        if self.device_state is Activated {
            (self, Activation::Failed(ActivateError::AlreadyActivated))
        } else {
            match self.activating {
                Some(activating) => (self, Activation::Pending(activating.request)),
                None => self.asking(mem, self.first_request()),
            }
        }
    }

    /// The step after the handle of `pair` was created: the next handle is
    /// created, or, when this was the last, every pair gets its handle and
    /// the set-up of the first pair begins.
    pub open spec fn handle_created(self, mem: M, pair: usize) -> (NetView<M>, Activation) {
        if pair + 1 < self.vq_pairs() {
            self.asking(mem, BackendRequest::CreateHandle { pair: (pair + 1) as usize })
        } else {
            (NetView { handles: fresh_handles(self.vq_pairs()), ..self }).asking(
                mem,
                BackendRequest::SetOwner { pair: 0 },
            )
        }
    }

    /// The step after `pair` was fully set up: the set-up of the next pair
    /// begins, or, when this was the last, the activation event is to be
    /// signalled.
    pub open spec fn pair_done(self, mem: M, pair: usize) -> (NetView<M>, Activation) {
        if pair + 1 < self.vq_pairs() {
            self.asking(mem, BackendRequest::SetOwner { pair: (pair + 1) as usize })
        } else {
            self.asking(mem, BackendRequest::SignalActivation)
        }
    }

    /// The step that follows when `request`, made in an activation started
    /// with `mem`, is answered by `reply`.
    ///
    /// A failure ends the activation. An answer of the wrong kind is passed
    /// over: the device goes on waiting. Otherwise the outcome is recorded
    /// and the next request made: ownership, then the features that the
    /// backend reports, then those of them that the guest acknowledged, then
    /// the tap offloads of the acknowledged features, pair after pair; the
    /// signal comes last and makes the device activated.
    pub open spec fn answered(self, mem: M, request: BackendRequest, reply: BackendReply) -> (
        NetView<M>,
        Activation,
    ) {
        match (request, reply) {
            (_, BackendReply::Failed(cause)) => self.failing(activation_failure(request, cause)),
            (BackendRequest::CreateHandle { pair }, BackendReply::Done) => self.handle_created(
                mem,
                pair,
            ),
            (BackendRequest::SetOwner { pair }, BackendReply::Done) => self.with_handle(
                pair,
                BackendHandle { state: HandleState::Owned, ..self.handles[pair as int] },
            ).asking(mem, BackendRequest::GetFeatures { pair }),
            (
                BackendRequest::GetFeatures { pair },
                BackendReply::Features(backend_features),
            ) => self.with_handle(
                pair,
                BackendHandle { backend_features, ..self.handles[pair as int] },
            ).asking(
                mem,
                BackendRequest::SetFeatures {
                    pair,
                    features: negotiated_features(self.acked_features, backend_features),
                },
            ),
            (BackendRequest::SetFeatures { pair, features }, BackendReply::Done) => self.with_handle(
                pair,
                BackendHandle {
                    state: HandleState::FeatureSet,
                    features,
                    ..self.handles[pair as int]
                },
            ).asking(
                mem,
                BackendRequest::SetTapOffload {
                    pair,
                    offload: tap_offload_of(self.acked_features),
                },
            ),
            (
                BackendRequest::SetTapOffload { pair, offload },
                BackendReply::Done,
            ) => self.with_tap_offload(pair, offload).with_handle(
                pair,
                BackendHandle { state: HandleState::Ready, ..self.handles[pair as int] },
            ).pair_done(mem, pair),
            (BackendRequest::SignalActivation, BackendReply::Done) => (
                NetView { device_state: DeviceState::Activated(mem), activating: None, ..self },
                Activation::Activated,
            ),
            _ => self.asking(mem, request),
        }
    }

    /// What `resume(reply)` makes of the device, and what it returns.
    ///
    /// Without an activation under way nothing changes, and the result says
    /// whether the device is activated.
    pub open spec fn resume(self, reply: BackendReply) -> (NetView<M>, Activation) {
        match self.activating {
            Some(activating) => self.answered(activating.mem, activating.request, reply),
            None => (
                self,
                if self.device_state is Activated {
                    Activation::Activated
                } else {
                    Activation::Failed(ActivateError::NotActivating)
                },
            ),
        }
    }
}

/// Computes the error with which an activation ends when `request` fails
/// with `cause`.
fn failure_of(request: BackendRequest, cause: IoError) -> (error: ActivateError)
    ensures
        error == activation_failure(request, cause),
{
    let (call, pair) = match request {
        BackendRequest::CreateHandle { pair } => (BackendCall::Create, pair),
        BackendRequest::SetOwner { pair } => (BackendCall::SetOwner, pair),
        BackendRequest::GetFeatures { pair } => (BackendCall::GetFeatures, pair),
        BackendRequest::SetFeatures { pair, features: _ } => (BackendCall::SetFeatures, pair),
        BackendRequest::SetTapOffload { pair, offload: _ } => (BackendCall::SetTapOffload, pair),
        BackendRequest::SignalActivation => {
            return ActivateError::BadActivate;
        },
    };
    ActivateError::Vhost(VhostNetError::VhostError(BackendError { call, pair, cause }))
}

impl<M> Net<M> {
    /// Starts the activation of the device with guest memory `mem` and
    /// returns the first request for the caller to carry out.
    ///
    /// A device that is activated already rejects the call and stays as it
    /// is. While an activation is under way, the call changes nothing and
    /// returns the request that is still outstanding.
    pub fn activate(&mut self, mem: M) -> (result: Activation)
        requires
            old(self).inv(),
        ensures
            final(self).inv(),
            final(self)@ == old(self)@.activate(mem).0,
            result == old(self)@.activate(mem).1,
    {
        if self.is_activated() {
            return Activation::Failed(ActivateError::AlreadyActivated);
        }
        match self.pending_request() {
            Some(request) => Activation::Pending(request),
            None => {
                let request = if self.vq_pairs() == 0 {
                    BackendRequest::SignalActivation
                } else if self.handles().len() == 0 {
                    BackendRequest::CreateHandle { pair: 0 }
                } else {
                    BackendRequest::SetOwner { pair: 0 }
                };
                self.ask(mem, request)
            },
        }
    }

    /// Takes the outcome of the outstanding request and returns the next
    /// request, or says how the activation ended.
    ///
    /// A failure ends the activation: the device stays inactive, and holds
    /// either no backend handle or one for every queue pair. A reply that
    /// cannot answer the outstanding request changes nothing, and the
    /// request is returned again.
    pub fn resume(&mut self, reply: BackendReply) -> (result: Activation)
        requires
            old(self).inv(),
        ensures
            final(self).inv(),
            final(self)@ == old(self)@.resume(reply).0,
            result == old(self)@.resume(reply).1,
    {
        match self.take_activating() {
            None => {
                if self.is_activated() {
                    Activation::Activated
                } else {
                    Activation::Failed(ActivateError::NotActivating)
                }
            },
            Some(activating) => {
                let Activating { mem, request } = activating;
                match reply {
                    BackendReply::Failed(cause) => Activation::Failed(failure_of(request, cause)),
                    _ => match request {
                        BackendRequest::CreateHandle { pair } => match reply {
                            BackendReply::Done => self.do_device_activate(mem, pair),
                            _ => self.ask(mem, request),
                        },
                        BackendRequest::SignalActivation => match reply {
                            BackendReply::Done => {
                                self.set_activated(mem);
                                Activation::Activated
                            },
                            _ => self.ask(mem, request),
                        },
                        _ => self.setup_vhost_backend(mem, request, reply),
                    },
                }
            },
        }
    }

    /// Records that the device waits for `request`.
    fn ask(&mut self, mem: M, request: BackendRequest) -> (result: Activation)
        ensures
            final(self)@ == old(self)@.asking(mem, request).0,
            result == old(self)@.asking(mem, request).1,
    {
        self.set_activating(mem, request);
        Activation::Pending(request)
    }

    /// Goes on after the backend handle of `pair` was created: asks for the
    /// next handle or, when every pair has one, records the handles and
    /// turns to setting them up.
    fn do_device_activate(&mut self, mem: M, pair: usize) -> (result: Activation)
        requires
            pair < old(self)@.vq_pairs(),
        ensures
            final(self)@ == old(self)@.handle_created(mem, pair).0,
            result == old(self)@.handle_created(mem, pair).1,
    {
        let vq_pairs = self.vq_pairs();
        if pair + 1 < vq_pairs {
            self.ask(mem, BackendRequest::CreateHandle { pair: pair + 1 })
        } else {
            self.install_handles();
            self.ask(mem, BackendRequest::SetOwner { pair: 0 })
        }
    }

    /// Records the outcome of one step in the set-up of a queue pair and
    /// asks for the next: ownership, feature exchange, tap offloads, then on
    /// to the next pair.
    fn setup_vhost_backend(&mut self, mem: M, request: BackendRequest, reply: BackendReply) -> (result:
        Activation)
        requires
            !(request is CreateHandle),
            !(request is SignalActivation),
            !(reply is Failed),
            old(self)@.awaits(request),
        ensures
            final(self)@ == old(self)@.answered(mem, request, reply).0,
            result == old(self)@.answered(mem, request, reply).1,
    {
        match (request, reply) {
            (BackendRequest::SetOwner { pair }, BackendReply::Done) => {
                let handle = self.handles()[pair];
                self.set_handle(pair, BackendHandle { state: HandleState::Owned, ..handle });
                self.ask(mem, BackendRequest::GetFeatures { pair })
            },
            (BackendRequest::GetFeatures { pair }, BackendReply::Features(backend_features)) => {
                let handle = self.handles()[pair];
                self.set_handle(pair, BackendHandle { backend_features, ..handle });
                let features = negotiate_features(self.acked_features(), backend_features);
                self.ask(mem, BackendRequest::SetFeatures { pair, features })
            },
            (BackendRequest::SetFeatures { pair, features }, BackendReply::Done) => {
                let handle = self.handles()[pair];
                self.set_handle(
                    pair,
                    BackendHandle { state: HandleState::FeatureSet, features, ..handle },
                );
                let offload = virtio_features_to_tap_offload(self.acked_features());
                self.ask(mem, BackendRequest::SetTapOffload { pair, offload })
            },
            (BackendRequest::SetTapOffload { pair, offload }, BackendReply::Done) => {
                let handle = self.handles()[pair];
                self.set_tap_offload(pair, offload);
                self.set_handle(pair, BackendHandle { state: HandleState::Ready, ..handle });
                let vq_pairs = self.vq_pairs();
                if pair + 1 < vq_pairs {
                    self.ask(mem, BackendRequest::SetOwner { pair: pair + 1 })
                } else {
                    self.ask(mem, BackendRequest::SignalActivation)
                }
            },
            _ => self.ask(mem, request),
        }
    }
}

} // verus!
