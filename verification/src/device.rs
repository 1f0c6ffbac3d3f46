//! The network device: what it holds, what always holds of it, and the
//! queries and settings that the surrounding device framework uses.

use crate::backend::{BackendHandle, BackendRequest};
use crate::config::{
    read_accepted, read_outcome, write_accepted, write_outcome, ConfigSpace, MacAddr,
    CONFIG_SPACE_SIZE, MAC_ADDR_LEN,
};
use crate::features::{avail_features_of, negotiated_features, tap_offload_of};
use crate::queue::{EventFd, IrqTrigger, Queue};
use crate::tap::Tap;
use vstd::prelude::*;

verus! {

/// The device type of a network device.
pub const TYPE_NET: u32 = 1;

/// Whether the guest driver has activated the device, and with which guest
/// memory.
#[derive(Debug)]
pub enum DeviceState<M> {
    Inactive,
    Activated(M),
}

impl<M> DeviceState<M> {
    /// Whether the device is activated.
    pub fn is_activated(&self) -> (activated: bool)
        ensures
            activated == (self is Activated),
    {
        match self {
            DeviceState::Inactive => false,
            DeviceState::Activated(_) => true,
        }
    }
}

/// An activation that is under way: the guest memory it was started with and
/// the request that the device waits to have answered.
#[derive(Debug)]
pub struct Activating<M> {
    pub mem: M,
    pub request: BackendRequest,
}

/// Vhost-net device implementation.
///
/// The device keeps a record of everything it is made of: its taps, its
/// queues and their event descriptors, its backend handles. The resources
/// themselves stay with the caller, which acts on them as the device asks.
#[derive(Debug)]
pub struct Net<M> {
    taps: Vec<Tap>,
    id: String,
    avail_features: u64,
    acked_features: u64,
    handles: Vec<BackendHandle>,
    queues: Vec<Queue>,
    queue_evts: Vec<EventFd>,
    irq_trigger: IrqTrigger,
    config_space: ConfigSpace,
    guest_mac: Option<MacAddr>,
    device_state: DeviceState<M>,
    activate_evt: EventFd,
    activating: Option<Activating<M>>,
}

/// The device as contracts see it.
#[verifier::ext_equal]
pub struct NetView<M> {
    /// One tap per queue pair.
    pub taps: Seq<Tap>,
    /// The name of the device.
    pub id: Seq<char>,
    /// The features that the device advertises.
    pub avail_features: u64,
    /// The features that the guest acknowledged.
    pub acked_features: u64,
    /// One backend handle per queue pair, or none before the first
    /// activation.
    pub handles: Seq<BackendHandle>,
    /// The virtqueues.
    pub queues: Seq<Queue>,
    /// One event descriptor per queue.
    pub queue_evts: Seq<EventFd>,
    /// The interrupt of the device.
    pub irq_trigger: IrqTrigger,
    /// The bytes of the configuration block.
    pub config_space: Seq<u8>,
    /// The MAC address of the guest, where one is known.
    pub guest_mac: Option<Seq<u8>>,
    /// Whether the device is activated.
    pub device_state: DeviceState<M>,
    /// The event that tells of an activation.
    pub activate_evt: EventFd,
    /// The activation under way, if any.
    pub activating: Option<Activating<M>>,
}

/// Whether a queue pair with backend handle `handle` and tap `tap` is fully
/// set up for the acknowledged features `acked_features`: the handle got
/// exactly the acknowledged features that the backend reports, and the tap
/// the offloads that correspond to the acknowledged features.
pub open spec fn pair_set_up(handle: BackendHandle, tap: Tap, acked_features: u64) -> bool {
    &&& handle.state is Ready
    &&& handle.features == negotiated_features(acked_features, handle.backend_features)
    &&& tap.offload == tap_offload_of(acked_features)
}

impl<M> NetView<M> {
    /// The number of queue pairs.
    pub open spec fn vq_pairs(self) -> nat {
        self.taps.len()
    }

    /// Whether queue pair `pair` is fully set up for the features that the
    /// guest acknowledged.
    pub open spec fn pair_ready(self, pair: int) -> bool {
        pair_set_up(self.handles[pair], self.taps[pair], self.acked_features)
    }

    /// Whether every queue pair before `pair` is fully set up.
    pub open spec fn ready_before(self, pair: int) -> bool {
        forall|i: int|
            0 <= i < pair ==> pair_set_up(
                #[trigger] self.handles[i],
                self.taps[i],
                self.acked_features,
            )
    }

    /// What holds of the device while `request` is outstanding.
    pub open spec fn awaits(self, request: BackendRequest) -> bool {
        match request {
            BackendRequest::CreateHandle { pair } => {
                &&& pair < self.vq_pairs()
                &&& self.handles.len() == 0
            },
            BackendRequest::SetOwner { pair } => {
                &&& pair < self.vq_pairs()
                &&& self.handles.len() == self.vq_pairs()
                &&& self.ready_before(pair as int)
            },
            BackendRequest::GetFeatures { pair } => {
                &&& pair < self.vq_pairs()
                &&& self.handles.len() == self.vq_pairs()
                &&& self.ready_before(pair as int)
            },
            BackendRequest::SetFeatures { pair, features } => {
                &&& pair < self.vq_pairs()
                &&& self.handles.len() == self.vq_pairs()
                &&& self.ready_before(pair as int)
                &&& features == negotiated_features(
                    self.acked_features,
                    self.handles[pair as int].backend_features,
                )
            },
            BackendRequest::SetTapOffload { pair, offload } => {
                &&& pair < self.vq_pairs()
                &&& self.handles.len() == self.vq_pairs()
                &&& self.ready_before(pair as int)
                &&& offload == tap_offload_of(self.acked_features)
                &&& self.handles[pair as int].features == negotiated_features(
                    self.acked_features,
                    self.handles[pair as int].backend_features,
                )
            },
            BackendRequest::SignalActivation => {
                &&& self.handles.len() == self.vq_pairs()
                &&& self.ready_before(self.vq_pairs() as int)
            },
        }
    }

    /// What always holds of a device.
    pub open spec fn inv(self) -> bool {
        &&& self.queue_evts.len() == self.queues.len()
        &&& self.taps.len() == self.queues.len() / 2
        &&& (self.handles.len() == 0 || self.handles.len() == self.taps.len())
        &&& self.avail_features == avail_features_of(self.vq_pairs())
        &&& self.acked_features & !self.avail_features == 0
        &&& forall|i: int| 0 <= i < self.taps.len() ==> (#[trigger] self.taps[i]).fits(
            self.vq_pairs(),
        )
        &&& self.config_space.len() == CONFIG_SPACE_SIZE
        &&& (self.guest_mac matches Some(mac) ==> mac == self.config_space.subrange(
            0,
            MAC_ADDR_LEN as int,
        ))
        &&& (self.device_state is Activated ==> {
            &&& self.activating is None
            &&& self.handles.len() == self.vq_pairs()
            &&& self.ready_before(self.vq_pairs() as int)
        })
        &&& (self.activating matches Some(activating) ==> self.awaits(activating.request))
    }

    /// Whether the device is activated.
    pub open spec fn is_activated(self) -> bool {
        self.device_state is Activated
    }

    /// Whether the device is at rest and inactive: the only state in which
    /// the acknowledged features can change.
    pub open spec fn negotiable(self) -> bool {
        self.device_state is Inactive && self.activating is None
    }

    /// The device after `set_acked_features(acked_features)`.
    pub open spec fn ack(self, acked_features: u64) -> NetView<M> {
        if self.negotiable() {
            NetView { acked_features: acked_features & self.avail_features, ..self }
        } else {
            self
        }
    }

    /// The device after a guest write of `data` at `offset` of its
    /// configuration block.
    pub open spec fn write_config(self, offset: u64, data: Seq<u8>) -> NetView<M> {
        if write_accepted(offset, data.len()) {
            let config_space = write_outcome(self.config_space, offset, data);
            NetView {
                config_space,
                guest_mac: Some(config_space.subrange(0, MAC_ADDR_LEN as int)),
                ..self
            }
        } else {
            self
        }
    }
}

/// The records of `count` backend handles that were just created.
pub open spec fn fresh_handles(count: nat) -> Seq<BackendHandle> {
    Seq::new(count, |i: int| BackendHandle::fresh())
}

/// The view of an optional MAC address.
pub open spec fn mac_view(guest_mac: Option<MacAddr>) -> Option<Seq<u8>> {
    match guest_mac {
        Some(mac) => Some(mac@),
        None => None,
    }
}

impl<M> View for Net<M> {
    type V = NetView<M>;

    closed spec fn view(&self) -> NetView<M> {
        NetView {
            taps: self.taps@,
            id: self.id@,
            avail_features: self.avail_features,
            acked_features: self.acked_features,
            handles: self.handles@,
            queues: self.queues@,
            queue_evts: self.queue_evts@,
            irq_trigger: self.irq_trigger,
            config_space: self.config_space@,
            guest_mac: mac_view(self.guest_mac),
            device_state: self.device_state,
            activate_evt: self.activate_evt,
            activating: self.activating,
        }
    }
}

impl<M> Net<M> {
    /// What always holds of a device.
    pub open spec fn inv(&self) -> bool {
        self@.inv()
    }

    /// Puts a device together from its parts.
    pub(crate) fn assemble(
        id: String,
        taps: Vec<Tap>,
        avail_features: u64,
        queues: Vec<Queue>,
        queue_evts: Vec<EventFd>,
        irq_trigger: IrqTrigger,
        config_space: ConfigSpace,
        guest_mac: Option<MacAddr>,
        activate_evt: EventFd,
    ) -> (net: Net<M>)
        ensures
            net@ == (NetView {
                taps: taps@,
                id: id@,
                avail_features,
                acked_features: 0,
                handles: Seq::<BackendHandle>::empty(),
                queues: queues@,
                queue_evts: queue_evts@,
                irq_trigger,
                config_space: config_space@,
                guest_mac: mac_view(guest_mac),
                device_state: DeviceState::<M>::Inactive,
                activate_evt,
                activating: None::<Activating<M>>,
            }),
    {
        Net {
            taps,
            id,
            avail_features,
            acked_features: 0u64,
            handles: Vec::new(),
            queues,
            queue_evts,
            irq_trigger,
            config_space,
            guest_mac,
            device_state: DeviceState::Inactive,
            activate_evt,
            activating: None,
        }
    }

    /// The name of the device.
    pub fn id(&self) -> (id: &String)
        ensures
            id@ == self@.id,
    {
        &self.id
    }

    /// The taps of the device, one per queue pair.
    pub fn taps(&self) -> (taps: &[Tap])
        ensures
            taps@ == self@.taps,
    {
        self.taps.as_slice()
    }

    /// The backend handles of the device: none before the first activation,
    /// one per queue pair after it.
    pub fn handles(&self) -> (handles: &[BackendHandle])
        ensures
            handles@ == self@.handles,
    {
        self.handles.as_slice()
    }

    /// The features that the device advertises.
    pub fn avail_features(&self) -> (features: u64)
        ensures
            features == self@.avail_features,
    {
        self.avail_features
    }

    /// The features that the guest acknowledged.
    pub fn acked_features(&self) -> (features: u64)
        ensures
            features == self@.acked_features,
    {
        self.acked_features
    }

    /// Records the features that the guest acknowledged.
    ///
    /// Features that the device does not advertise are left out. Once an
    /// activation has begun, and as long as the device is activated, the
    /// acknowledged features stay as they are.
    pub fn set_acked_features(&mut self, acked_features: u64)
        requires
            old(self).inv(),
        ensures
            final(self).inv(),
            final(self)@ == old(self)@.ack(acked_features),
    {
        if !self.device_state.is_activated() && self.activating.is_none() {
            let avail_features = self.avail_features;
            assert((acked_features & avail_features) & !avail_features == 0) by (bit_vector);
            self.acked_features = acked_features & avail_features;
        }
    }

    /// The type of the device.
    pub fn device_type(&self) -> (device_type: u32)
        ensures
            device_type == TYPE_NET,
    {
        TYPE_NET
    }

    /// The virtqueues of the device.
    pub fn queues(&self) -> (queues: &[Queue])
        ensures
            queues@ == self@.queues,
    {
        self.queues.as_slice()
    }

    /// Queue number `index` of the device, for the guest to set up; nothing
    /// where the device has no such queue.
    ///
    /// Queues are lent out one at a time, so that their number stays what it
    /// is.
    pub fn queues_mut(&mut self, index: usize) -> (queue: Option<&mut Queue>)
        requires
            old(self).inv(),
        ensures
            final(self).inv(),
            queue is Some <==> index < old(self)@.queues.len(),
            queue is None ==> final(self)@ == old(self)@,
            queue matches Some(q) ==> {
                &&& *q == old(self)@.queues[index as int]
                &&& final(self)@ == (NetView {
                    queues: old(self)@.queues.update(index as int, *final(q)),
                    ..old(self)@
                })
            },
    {
        if index < self.queues.len() {
            Some(&mut self.queues[index])
        } else {
            None
        }
    }

    /// The event descriptors of the queues, in the order of the queues.
    pub fn queue_events(&self) -> (events: &[EventFd])
        ensures
            events@ == self@.queue_evts,
    {
        self.queue_evts.as_slice()
    }

    /// The event descriptor that raises the interrupt of the device.
    pub fn interrupt_evt(&self) -> (event: &EventFd)
        ensures
            *event == self@.irq_trigger.irq_evt,
    {
        &self.irq_trigger.irq_evt
    }

    /// The event descriptor that tells of an activation.
    pub fn activate_evt(&self) -> (event: &EventFd)
        ensures
            *event == self@.activate_evt,
    {
        &self.activate_evt
    }

    /// The configuration block.
    pub fn config_space(&self) -> (config_space: &ConfigSpace)
        ensures
            config_space@ == self@.config_space,
    {
        &self.config_space
    }

    /// The MAC address of the guest, where one is known.
    pub fn guest_mac(&self) -> (guest_mac: Option<MacAddr>)
        ensures
            mac_view(guest_mac) == self@.guest_mac,
    {
        self.guest_mac
    }

    /// Whether the device is activated, and with which guest memory.
    pub fn device_state(&self) -> (device_state: &DeviceState<M>)
        ensures
            *device_state == self@.device_state,
    {
        &self.device_state
    }

    /// The request that the device waits to have answered, if an activation
    /// is under way.
    pub fn pending_request(&self) -> (request: Option<BackendRequest>)
        ensures
            request == match self@.activating {
                Some(activating) => Some(activating.request),
                None => None,
            },
    {
        match &self.activating {
            Some(activating) => Some(activating.request),
            None => None,
        }
    }

    /// Copies bytes of the configuration block, from `offset` on, to the
    /// front of `data`, and says whether the read was accepted. A read that
    /// starts at or beyond the end of the block, or whose end cannot be
    /// computed, is not: it copies nothing.
    pub fn read_config(&self, offset: u64, data: &mut [u8]) -> (accepted: bool)
        ensures
            accepted == read_accepted(offset, old(data)@.len()),
            final(data)@ == read_outcome(self@.config_space, offset, old(data)@),
            !accepted ==> final(data)@ == old(data)@,
    {
        self.config_space.read(offset, data)
    }

    /// Copies `data` into the configuration block at `offset` and takes the
    /// MAC address of the guest from the block again; says whether the write
    /// was accepted. A write that does not lie inside the block is not: it
    /// changes nothing.
    pub fn write_config(&mut self, offset: u64, data: &[u8]) -> (accepted: bool)
        requires
            old(self).inv(),
        ensures
            final(self).inv(),
            accepted == write_accepted(offset, data@.len()),
            final(self)@ == old(self)@.write_config(offset, data@),
            !accepted ==> final(self)@ == old(self)@,
    {
        let accepted = self.config_space.write(offset, data);
        if accepted {
            self.guest_mac = Some(self.config_space.guest_mac());
        }
        proof {
            self.config_space.lemma_len();
        }
        accepted
    }

    /// Whether the device is activated.
    pub fn is_activated(&self) -> (activated: bool)
        ensures
            activated == self@.is_activated(),
    {
        self.device_state.is_activated()
    }

    /// The number of queue pairs.
    pub fn vq_pairs(&self) -> (vq_pairs: usize)
        ensures
            vq_pairs == self@.vq_pairs(),
    {
        self.taps.len()
    }

    /// Takes the activation under way out of the device.
    pub(crate) fn take_activating(&mut self) -> (activating: Option<Activating<M>>)
        ensures
            activating == old(self)@.activating,
            final(self)@ == (NetView { activating: None, ..old(self)@ }),
    {
        self.activating.take()
    }

    /// Records that an activation started with `mem` waits for `request` to
    /// be answered.
    pub(crate) fn set_activating(&mut self, mem: M, request: BackendRequest)
        ensures
            final(self)@ == (NetView {
                activating: Some(Activating { mem, request }),
                ..old(self)@
            }),
    {
        self.activating = Some(Activating { mem, request });
    }

    /// Records one fresh backend handle for every queue pair.
    pub(crate) fn install_handles(&mut self)
        ensures
            final(self)@ == (NetView {
                handles: fresh_handles(old(self)@.vq_pairs()),
                ..old(self)@
            }),
    {
        let mut handles: Vec<BackendHandle> = Vec::new();
        let mut pair: usize = 0;
        while pair < self.taps.len()
            invariant
                pair <= self.taps.len(),
                handles@ == fresh_handles(pair as nat),
                *self == *old(self),
            decreases self.taps.len() - pair,
        {
            handles.push(BackendHandle::new());
            pair += 1;
            assert(handles@ =~= fresh_handles(pair as nat));
        }
        self.handles = handles;
    }

    /// Records `handle` as the backend handle of queue pair `pair`.
    pub(crate) fn set_handle(&mut self, pair: usize, handle: BackendHandle)
        requires
            pair < old(self)@.handles.len(),
        ensures
            final(self)@ == (NetView {
                handles: old(self)@.handles.update(pair as int, handle),
                ..old(self)@
            }),
    {
        self.handles[pair] = handle;
    }

    /// Records `offload` as the offload flags of the tap of queue pair
    /// `pair`.
    pub(crate) fn set_tap_offload(&mut self, pair: usize, offload: u32)
        requires
            pair < old(self)@.taps.len(),
        ensures
            final(self)@ == (NetView {
                taps: old(self)@.taps.update(
                    pair as int,
                    Tap { offload, ..old(self)@.taps[pair as int] },
                ),
                ..old(self)@
            }),
    {
        let mut tap = self.taps[pair];
        tap.set_offload(offload);
        self.taps[pair] = tap;
    }

    /// Records that the device is activated with guest memory `mem`.
    pub(crate) fn set_activated(&mut self, mem: M)
        ensures
            final(self)@ == (NetView {
                device_state: DeviceState::Activated(mem),
                ..old(self)@
            }),
    {
        self.device_state = DeviceState::Activated(mem);
    }
}

} // verus!
