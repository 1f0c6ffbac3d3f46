//! Construction of the device, one step at a time.
//!
//! A device is built from resources that only the operating system can
//! give: a tap interface with one queue per queue pair, and event
//! descriptors. The builder decides what is needed and in which order, and
//! checks what comes back; the caller opens, sets and creates. `Net::new`
//! and `Net::new_with_tap` return a builder; the caller carries out the
//! builder's request and hands the outcome to `advance`, until that returns
//! the device or the error that ended the construction.

use crate::backend::BackendHandle;
use crate::config::{initial_config, ConfigSpace, MacAddr, DEFAULT_MTU, MAC_ADDR_LEN};
use crate::device::{mac_view, DeviceState, Net, NetView};
use crate::error::{IoError, TapError, VhostNetError, VhostNetErrorView};
use crate::features::{avail_features_for, avail_features_of};
use crate::queue::{fresh_queues, EventFd, IrqTrigger, Queue};
use crate::tap::{
    flag_names, missing_flags, validate_and_configure_tap, Tap, TAP_OFFLOADS, VNET_HDR_LEN,
};
use std::marker::PhantomData;
use vstd::prelude::*;

verus! {

/// What a builder asks the caller to do next. Taps are numbered from
/// zero; before the tap is duplicated there is only tap zero.
#[derive(Clone, Copy, Debug, PartialEq, Eq)]
pub enum SetupRequest {
    /// Open the tap interface that the builder was given the name of, with
    /// several queues where `multi_queue` is set.
    OpenTap { multi_queue: bool },
    /// Set the offload flags of tap `tap` to `offload`.
    SetOffload { tap: usize, offload: u32 },
    /// Set the length of the virtio-net header of tap `tap` to `size`.
    SetVnetHdrSize { tap: usize, size: i32 },
    /// Turn the open tap into `count` taps, one per queue pair, and report
    /// the interface flags of each.
    DuplicateTap { count: usize },
    /// Create a non-blocking event descriptor.
    CreateEventFd,
}

/// How the caller answers a request.
#[derive(Debug, PartialEq, Eq)]
pub enum SetupReply {
    /// The request was carried out.
    Done,
    /// The interface flags of the taps, in the order of their queue pairs.
    Taps(Vec<u32>),
    /// The number of the event descriptor that was created.
    EventFd(i32),
    /// The request failed.
    Failed(IoError),
}

/// The step that a construction has reached: the request that is
/// outstanding.
#[derive(Clone, Copy, Debug, PartialEq, Eq)]
pub enum SetupStage {
    /// The tap is being opened.
    OpenTap,
    /// The open tap gets its offload flags.
    PrimaryOffload,
    /// The open tap gets its header length.
    PrimaryVnetHdrSize,
    /// The tap is being duplicated.
    DuplicateTap,
    /// The tap of this number, found fit, gets its offload flags.
    TapOffload(usize),
    /// The tap of this number gets its header length.
    TapVnetHdrSize(usize),
    /// The event descriptor of the queue of this number is being created.
    QueueEvent(usize),
    /// The event descriptor of the interrupt is being created.
    IrqEvent,
    /// The event descriptor of the activation is being created; the
    /// interrupt has the descriptor recorded here.
    ActivateEvent(EventFd),
}

/// A device under construction.
#[derive(Debug)]
pub struct NetBuilder<M> {
    id: String,
    tap_if_name: String,
    guest_mac: Option<MacAddr>,
    queue_sizes: Vec<u16>,
    taps: Vec<Tap>,
    queue_evts: Vec<EventFd>,
    stage: SetupStage,
    device: PhantomData<M>,
}

/// A device under construction as contracts see it.
#[verifier::ext_equal]
pub struct NetBuilderView {
    /// The name of the device.
    pub id: Seq<char>,
    /// The name of the tap interface to open; empty where the caller opened
    /// the tap itself.
    pub tap_if_name: Seq<char>,
    /// The MAC address of the guest, where one is known.
    pub guest_mac: Option<Seq<u8>>,
    /// The sizes of the queues of the device.
    pub queue_sizes: Seq<u16>,
    /// The taps that were reported, one per queue pair.
    pub taps: Seq<Tap>,
    /// The event descriptors of the queues that were created so far.
    pub queue_evts: Seq<EventFd>,
    /// The step that the construction has reached.
    pub stage: SetupStage,
}

/// Where a construction stands after a step.
#[derive(Debug)]
pub enum Construction<M> {
    /// The builder waits for its request to be carried out and answered.
    Pending(NetBuilder<M>),
    /// The device is built.
    Built(Net<M>),
    /// The construction has ended without a device.
    Failed(VhostNetError),
}

/// Where a construction stands, as contracts see it.
#[verifier::ext_equal]
pub enum ConstructionView<M> {
    Pending(NetBuilderView),
    Built(NetView<M>),
    Failed(VhostNetErrorView),
}

/// The error with which a construction ends when the request of step
/// `stage` fails with `cause`.
pub open spec fn setup_failure(stage: SetupStage, cause: IoError) -> VhostNetErrorView {
    match stage {
        SetupStage::OpenTap => VhostNetErrorView::TapOpen(TapError { cause }),
        SetupStage::DuplicateTap => VhostNetErrorView::TapOpen(TapError { cause }),
        SetupStage::PrimaryOffload => VhostNetErrorView::TapSetOffload(TapError { cause }),
        SetupStage::TapOffload(_) => VhostNetErrorView::TapSetOffload(TapError { cause }),
        SetupStage::PrimaryVnetHdrSize => VhostNetErrorView::TapSetVnetHdrSize(
            TapError { cause },
        ),
        SetupStage::TapVnetHdrSize(_) => VhostNetErrorView::TapSetVnetHdrSize(TapError { cause }),
        SetupStage::QueueEvent(_) => VhostNetErrorView::EventFd(cause),
        SetupStage::IrqEvent => VhostNetErrorView::EventFd(cause),
        SetupStage::ActivateEvent(_) => VhostNetErrorView::EventFd(cause),
    }
}

/// The records of taps that were opened with the interface flags `flags`.
pub open spec fn taps_of(flags: Seq<u32>) -> Seq<Tap> {
    Seq::new(flags.len(), |i: int| Tap { if_flags: flags[i], offload: 0, vnet_hdr_size: 0 })
}

/// The record of a tap with interface flags `if_flags` that was found fit
/// and given the settings of a new device.
pub open spec fn configured_tap(if_flags: u32) -> Tap {
    Tap { if_flags, offload: TAP_OFFLOADS, vnet_hdr_size: VNET_HDR_LEN as i32 }
}

/// Whether `tap` was found fit for `vq_pairs` queue pairs and given the
/// settings of a new device.
pub open spec fn tap_configured(tap: Tap, vq_pairs: nat) -> bool {
    tap.fits(vq_pairs) && tap.offload == TAP_OFFLOADS
}

/// The number of queue pairs that goes into the configuration block: the
/// low sixteen bits of `vq_pairs`.
pub open spec fn config_pairs(vq_pairs: nat) -> u16 {
    (vq_pairs % 0x1_0000) as u16
}

impl NetBuilderView {
    /// The number of queue pairs of the device: half the number of its
    /// queues.
    pub open spec fn vq_pairs(self) -> nat {
        self.queue_sizes.len() / 2
    }

    /// Whether every tap before `index` was found fit and configured.
    pub open spec fn configured_before(self, index: int) -> bool {
        forall|k: int| 0 <= k < index ==> tap_configured(#[trigger] self.taps[k], self.vq_pairs())
    }

    /// What always holds of a builder.
    pub open spec fn inv(self) -> bool {
        &&& self.mac_inv()
        &&& self.queue_sizes.len() <= usize::MAX
        &&& self.stage_inv()
    }

    /// A MAC address has six bytes.
    pub open spec fn mac_inv(self) -> bool {
        self.guest_mac matches Some(mac) ==> mac.len() == MAC_ADDR_LEN
    }

    /// What holds of a builder at the step it has reached.
    pub open spec fn stage_inv(self) -> bool {
        match self.stage {
            SetupStage::OpenTap => self.taps.len() == 0 && self.queue_evts.len() == 0,
            SetupStage::PrimaryOffload => self.taps.len() == 0 && self.queue_evts.len() == 0,
            SetupStage::PrimaryVnetHdrSize => self.taps.len() == 0 && self.queue_evts.len() == 0,
            SetupStage::DuplicateTap => self.taps.len() == 0 && self.queue_evts.len() == 0,
            SetupStage::TapOffload(index) => {
                &&& self.taps.len() == self.vq_pairs()
                &&& index < self.vq_pairs()
                &&& self.configured_before(index + 1)
                &&& self.queue_evts.len() == 0
            },
            SetupStage::TapVnetHdrSize(index) => {
                &&& self.taps.len() == self.vq_pairs()
                &&& index < self.vq_pairs()
                &&& self.configured_before(index + 1)
                &&& self.queue_evts.len() == 0
            },
            SetupStage::QueueEvent(index) => {
                &&& self.taps.len() == self.vq_pairs()
                &&& self.configured_before(self.vq_pairs() as int)
                &&& index < self.queue_sizes.len()
                &&& self.queue_evts.len() == index
            },
            SetupStage::IrqEvent => {
                &&& self.taps.len() == self.vq_pairs()
                &&& self.configured_before(self.vq_pairs() as int)
                &&& self.queue_evts.len() == self.queue_sizes.len()
            },
            SetupStage::ActivateEvent(_) => {
                &&& self.taps.len() == self.vq_pairs()
                &&& self.configured_before(self.vq_pairs() as int)
                &&& self.queue_evts.len() == self.queue_sizes.len()
            },
        }
    }

    /// The request that is outstanding.
    pub open spec fn request(self) -> SetupRequest {
        match self.stage {
            SetupStage::OpenTap => SetupRequest::OpenTap { multi_queue: self.vq_pairs() > 1 },
            SetupStage::PrimaryOffload => SetupRequest::SetOffload { tap: 0, offload: TAP_OFFLOADS },
            SetupStage::PrimaryVnetHdrSize => SetupRequest::SetVnetHdrSize {
                tap: 0,
                size: VNET_HDR_LEN as i32,
            },
            SetupStage::DuplicateTap => SetupRequest::DuplicateTap {
                count: self.vq_pairs() as usize,
            },
            SetupStage::TapOffload(index) => SetupRequest::SetOffload {
                tap: index,
                offload: TAP_OFFLOADS,
            },
            SetupStage::TapVnetHdrSize(index) => SetupRequest::SetVnetHdrSize {
                tap: index,
                size: VNET_HDR_LEN as i32,
            },
            SetupStage::QueueEvent(_) => SetupRequest::CreateEventFd,
            SetupStage::IrqEvent => SetupRequest::CreateEventFd,
            SetupStage::ActivateEvent(_) => SetupRequest::CreateEventFd,
        }
    }

    /// The builder at step `stage`.
    pub open spec fn at(self, stage: SetupStage) -> NetBuilderView {
        NetBuilderView { stage, ..self }
    }

    /// The step after the taps are done with: the event descriptors of the
    /// queues, or that of the interrupt where the device has no queue.
    pub open spec fn events_next(self) -> NetBuilderView {
        if self.queue_sizes.len() > 0 {
            self.at(SetupStage::QueueEvent(0))
        } else {
            self.at(SetupStage::IrqEvent)
        }
    }

    /// The step that deals with tap `index`: a tap that lacks a required
    /// flag ends the construction with an error that names every flag it
    /// lacks; a tap that is fit gets the settings of a new device; when no
    /// tap is left, the event descriptors come next.
    pub open spec fn configure_from<M>(self, index: int) -> ConstructionView<M> {
        if index < self.taps.len() {
            let missing = missing_flags(self.taps[index].if_flags, self.vq_pairs());
            if missing.len() == 0 {
                ConstructionView::Pending(
                    NetBuilderView {
                        taps: self.taps.update(index, configured_tap(self.taps[index].if_flags)),
                        stage: SetupStage::TapOffload(index as usize),
                        ..self
                    },
                )
            } else {
                ConstructionView::Failed(VhostNetErrorView::MissingFlags(flag_names(missing)))
            }
        } else {
            ConstructionView::Pending(self.events_next())
        }
    }

    /// The device that the builder makes once the interrupt has descriptor
    /// `irq_evt` and the activation event descriptor `activate_evt`.
    pub open spec fn built<M>(self, irq_evt: EventFd, activate_evt: EventFd) -> NetView<M> {
        NetView {
            taps: self.taps,
            id: self.id,
            avail_features: avail_features_of(self.vq_pairs()),
            acked_features: 0,
            handles: Seq::<BackendHandle>::empty(),
            queues: fresh_queues(self.queue_sizes),
            queue_evts: self.queue_evts,
            irq_trigger: IrqTrigger { irq_evt },
            config_space: initial_config(
                self.guest_mac,
                config_pairs(self.vq_pairs()),
                DEFAULT_MTU,
            ),
            guest_mac: self.guest_mac,
            device_state: DeviceState::Inactive,
            activate_evt,
            activating: None,
        }
    }

    /// What `advance(reply)` returns.
    ///
    /// A failure ends the construction with the error of the step. A reply
    /// that cannot answer the outstanding request is passed over: the
    /// builder goes on waiting. Otherwise the outcome is recorded and the
    /// next step taken.
    pub open spec fn advance<M>(self, reply: SetupReply) -> ConstructionView<M> {
        match (self.stage, reply) {
            (_, SetupReply::Failed(cause)) => ConstructionView::Failed(
                setup_failure(self.stage, cause),
            ),
            (SetupStage::OpenTap, SetupReply::Done) => ConstructionView::Pending(
                self.at(SetupStage::PrimaryOffload),
            ),
            (SetupStage::PrimaryOffload, SetupReply::Done) => ConstructionView::Pending(
                self.at(SetupStage::PrimaryVnetHdrSize),
            ),
            (SetupStage::PrimaryVnetHdrSize, SetupReply::Done) => ConstructionView::Pending(
                self.at(SetupStage::DuplicateTap),
            ),
            (SetupStage::DuplicateTap, SetupReply::Taps(flags)) => if flags@.len()
                == self.vq_pairs() {
                (NetBuilderView { taps: taps_of(flags@), ..self }).configure_from(0)
            } else {
                ConstructionView::Pending(self)
            },
            (SetupStage::TapOffload(index), SetupReply::Done) => ConstructionView::Pending(
                self.at(SetupStage::TapVnetHdrSize(index)),
            ),
            (SetupStage::TapVnetHdrSize(index), SetupReply::Done) => self.configure_from(index + 1),
            (SetupStage::QueueEvent(index), SetupReply::EventFd(fd)) => ConstructionView::Pending(
                NetBuilderView {
                    queue_evts: self.queue_evts.push(EventFd { fd }),
                    stage: if index + 1 < self.queue_sizes.len() {
                        SetupStage::QueueEvent((index + 1) as usize)
                    } else {
                        SetupStage::IrqEvent
                    },
                    ..self
                },
            ),
            (SetupStage::IrqEvent, SetupReply::EventFd(fd)) => ConstructionView::Pending(
                self.at(SetupStage::ActivateEvent(EventFd { fd })),
            ),
            (SetupStage::ActivateEvent(irq_evt), SetupReply::EventFd(fd)) => ConstructionView::Built(
                self.built(irq_evt, EventFd { fd }),
            ),
            _ => ConstructionView::Pending(self),
        }
    }
}

impl<M> View for NetBuilder<M> {
    type V = NetBuilderView;

    closed spec fn view(&self) -> NetBuilderView {
        NetBuilderView {
            id: self.id@,
            tap_if_name: self.tap_if_name@,
            guest_mac: mac_view(self.guest_mac),
            queue_sizes: self.queue_sizes@,
            taps: self.taps@,
            queue_evts: self.queue_evts@,
            stage: self.stage,
        }
    }
}

impl<M> View for Construction<M> {
    type V = ConstructionView<M>;

    open spec fn view(&self) -> ConstructionView<M> {
        match self {
            Construction::Pending(builder) => ConstructionView::Pending(builder@),
            Construction::Built(net) => ConstructionView::Built(net@),
            Construction::Failed(error) => ConstructionView::Failed(error@),
        }
    }
}

/// Computes the error with which a construction ends when the request of
/// step `stage` fails with `cause`.
fn failure_of(stage: SetupStage, cause: IoError) -> (error: VhostNetError)
    ensures
        error@ == setup_failure(stage, cause),
{
    match stage {
        SetupStage::OpenTap => VhostNetError::TapOpen(TapError { cause }),
        SetupStage::DuplicateTap => VhostNetError::TapOpen(TapError { cause }),
        SetupStage::PrimaryOffload => VhostNetError::TapSetOffload(TapError { cause }),
        SetupStage::TapOffload(_) => VhostNetError::TapSetOffload(TapError { cause }),
        SetupStage::PrimaryVnetHdrSize => VhostNetError::TapSetVnetHdrSize(TapError { cause }),
        SetupStage::TapVnetHdrSize(_) => VhostNetError::TapSetVnetHdrSize(TapError { cause }),
        SetupStage::QueueEvent(_) => VhostNetError::EventFd(cause),
        SetupStage::IrqEvent => VhostNetError::EventFd(cause),
        SetupStage::ActivateEvent(_) => VhostNetError::EventFd(cause),
    }
}

/// Makes the records of taps that were opened with the interface flags
/// `flags`.
fn taps_from(flags: &Vec<u32>) -> (taps: Vec<Tap>)
    ensures
        taps@ == taps_of(flags@),
{
    let mut taps: Vec<Tap> = Vec::new();
    let mut i: usize = 0;
    while i < flags.len()
        invariant
            i <= flags.len(),
            taps@ == taps_of(flags@.take(i as int)),
        decreases flags.len() - i,
    {
        taps.push(Tap::new(flags[i]));
        i += 1;
        assert(taps@ =~= taps_of(flags@.take(i as int)));
    }
    assert(flags@.take(flags.len() as int) =~= flags@);
    taps
}

/// Makes one fresh queue for each of `sizes`.
fn queues_from(sizes: &Vec<u16>) -> (queues: Vec<Queue>)
    ensures
        queues@ == fresh_queues(sizes@),
{
    let mut queues: Vec<Queue> = Vec::new();
    let mut i: usize = 0;
    while i < sizes.len()
        invariant
            i <= sizes.len(),
            queues@ == fresh_queues(sizes@.take(i as int)),
        decreases sizes.len() - i,
    {
        queues.push(Queue::new(sizes[i]));
        i += 1;
        assert(queues@ =~= fresh_queues(sizes@.take(i as int)));
    }
    assert(sizes@.take(sizes.len() as int) =~= sizes@);
    queues
}

impl<M> Net<M> {
    /// Create a vhost network with the Tap name.
    ///
    /// The builder that is returned asks first for the tap interface
    /// `tap_if_name` to be opened and given the offload flags and header
    /// length of a new device, then goes on as `new_with_tap` does. The
    /// device will have one queue for each of `queue_sizes` and half as many
    /// queue pairs.
    pub fn new(
        id: String,
        tap_if_name: &str,
        guest_mac: Option<MacAddr>,
        queue_sizes: Vec<u16>,
    ) -> (builder: NetBuilder<M>)
        ensures
            builder.inv(),
            builder@ == (NetBuilderView {
                id: id@,
                tap_if_name: tap_if_name@,
                guest_mac: mac_view(guest_mac),
                queue_sizes: queue_sizes@,
                taps: Seq::<Tap>::empty(),
                queue_evts: Seq::<EventFd>::empty(),
                stage: SetupStage::OpenTap,
            }),
    {
        NetBuilder::start(id, tap_if_name.to_owned(), guest_mac, queue_sizes, SetupStage::OpenTap)
    }

    /// Create a new vhost-net device with a given tap interface.
    ///
    /// The caller has opened the tap. The builder that is returned asks for
    /// it to be turned into one tap per queue pair, checks every tap and has
    /// it configured, and has the event descriptors created.
    pub fn new_with_tap(id: String, guest_mac: Option<MacAddr>, queue_sizes: Vec<u16>) -> (builder:
        NetBuilder<M>)
        ensures
            builder.inv(),
            builder@ == (NetBuilderView {
                id: id@,
                tap_if_name: Seq::<char>::empty(),
                guest_mac: mac_view(guest_mac),
                queue_sizes: queue_sizes@,
                taps: Seq::<Tap>::empty(),
                queue_evts: Seq::<EventFd>::empty(),
                stage: SetupStage::DuplicateTap,
            }),
    {
        NetBuilder::start(id, String::new(), guest_mac, queue_sizes, SetupStage::DuplicateTap)
    }
}

impl<M> NetBuilder<M> {
    /// What always holds of a builder.
    pub open spec fn inv(&self) -> bool {
        self@.inv()
    }

    /// A builder that has nothing yet and starts at step `stage`.
    fn start(
        id: String,
        tap_if_name: String,
        guest_mac: Option<MacAddr>,
        queue_sizes: Vec<u16>,
        stage: SetupStage,
    ) -> (builder: NetBuilder<M>)
        requires
            stage is OpenTap || stage is DuplicateTap,
        ensures
            builder.inv(),
            builder@ == (NetBuilderView {
                id: id@,
                tap_if_name: tap_if_name@,
                guest_mac: mac_view(guest_mac),
                queue_sizes: queue_sizes@,
                taps: Seq::<Tap>::empty(),
                queue_evts: Seq::<EventFd>::empty(),
                stage,
            }),
    {
        proof {
            if let Some(mac) = guest_mac {
                mac.lemma_len();
            }
        }
        // Taking the length tells the proof that it fits a machine word.
        let _queues: usize = queue_sizes.len();
        NetBuilder {
            id,
            tap_if_name,
            guest_mac,
            queue_sizes,
            taps: Vec::new(),
            queue_evts: Vec::new(),
            stage,
            device: PhantomData,
        }
    }

    /// The name of the tap interface to open; empty where the caller opened
    /// the tap itself.
    pub fn tap_if_name(&self) -> (name: &String)
        ensures
            name@ == self@.tap_if_name,
    {
        &self.tap_if_name
    }

    /// The number of queue pairs that the device will have.
    pub fn vq_pairs(&self) -> (vq_pairs: usize)
        ensures
            vq_pairs == self@.vq_pairs(),
    {
        self.queue_sizes.len() / 2
    }

    /// The step that the construction has reached.
    pub fn stage(&self) -> (stage: SetupStage)
        ensures
            stage == self@.stage,
    {
        self.stage
    }

    /// The request that the caller is to carry out next.
    pub fn request(&self) -> (request: SetupRequest)
        ensures
            request == self@.request(),
    {
        match self.stage {
            SetupStage::OpenTap => SetupRequest::OpenTap { multi_queue: self.vq_pairs() > 1 },
            SetupStage::PrimaryOffload => SetupRequest::SetOffload { tap: 0, offload: TAP_OFFLOADS },
            SetupStage::PrimaryVnetHdrSize => SetupRequest::SetVnetHdrSize {
                tap: 0,
                size: VNET_HDR_LEN as i32,
            },
            SetupStage::DuplicateTap => SetupRequest::DuplicateTap { count: self.vq_pairs() },
            SetupStage::TapOffload(index) => SetupRequest::SetOffload {
                tap: index,
                offload: TAP_OFFLOADS,
            },
            SetupStage::TapVnetHdrSize(index) => SetupRequest::SetVnetHdrSize {
                tap: index,
                size: VNET_HDR_LEN as i32,
            },
            SetupStage::QueueEvent(_) => SetupRequest::CreateEventFd,
            SetupStage::IrqEvent => SetupRequest::CreateEventFd,
            SetupStage::ActivateEvent(_) => SetupRequest::CreateEventFd,
        }
    }

    /// Takes the outcome of the outstanding request and returns the builder
    /// with its next request, the finished device, or the error that ended
    /// the construction.
    pub fn advance(self, reply: SetupReply) -> (next: Construction<M>)
        requires
            self.inv(),
        ensures
            next@ == self@.advance::<M>(reply),
            next matches Construction::Pending(builder) ==> builder.inv(),
            next matches Construction::Built(net) ==> net.inv(),
    {
        let mut builder = self;
        match reply {
            SetupReply::Failed(cause) => Construction::Failed(failure_of(builder.stage, cause)),
            SetupReply::Done => match builder.stage {
                SetupStage::OpenTap => {
                    builder.stage = SetupStage::PrimaryOffload;
                    Construction::Pending(builder)
                },
                SetupStage::PrimaryOffload => {
                    builder.stage = SetupStage::PrimaryVnetHdrSize;
                    Construction::Pending(builder)
                },
                SetupStage::PrimaryVnetHdrSize => {
                    builder.stage = SetupStage::DuplicateTap;
                    Construction::Pending(builder)
                },
                SetupStage::TapOffload(index) => {
                    builder.stage = SetupStage::TapVnetHdrSize(index);
                    Construction::Pending(builder)
                },
                SetupStage::TapVnetHdrSize(index) => {
                    let vq_pairs = builder.vq_pairs();
                    builder.configure_from(index + 1)
                },
                _ => Construction::Pending(builder),
            },
            SetupReply::Taps(flags) => match builder.stage {
                SetupStage::DuplicateTap => {
                    if flags.len() == builder.vq_pairs() {
                        builder.taps = taps_from(&flags);
                        builder.configure_from(0)
                    } else {
                        Construction::Pending(builder)
                    }
                },
                _ => Construction::Pending(builder),
            },
            SetupReply::EventFd(fd) => match builder.stage {
                SetupStage::QueueEvent(index) => {
                    let count = builder.queue_sizes.len();
                    builder.queue_evts.push(EventFd::new(fd));
                    if index + 1 < count {
                        builder.stage = SetupStage::QueueEvent(index + 1);
                    } else {
                        builder.stage = SetupStage::IrqEvent;
                    }
                    Construction::Pending(builder)
                },
                SetupStage::IrqEvent => {
                    builder.stage = SetupStage::ActivateEvent(EventFd::new(fd));
                    Construction::Pending(builder)
                },
                SetupStage::ActivateEvent(irq_evt) => Construction::Built(
                    builder.finish(irq_evt, EventFd::new(fd)),
                ),
                _ => Construction::Pending(builder),
            },
        }
    }

    /// Deals with tap `index`: checks it and gives it the settings of a new
    /// device, or, when no tap is left, turns to the event descriptors.
    fn configure_from(self, index: usize) -> (next: Construction<M>)
        requires
            self@.mac_inv(),
            self@.queue_sizes.len() <= usize::MAX,
            self@.taps.len() == self@.vq_pairs(),
            self@.queue_evts.len() == 0,
            index <= self@.vq_pairs(),
            self@.configured_before(index as int),
        ensures
            next@ == self@.configure_from::<M>(index as int),
            next matches Construction::Pending(builder) ==> builder.inv(),
            !(next is Built),
    {
        let mut builder = self;
        if index < builder.taps.len() {
            let vq_pairs = builder.vq_pairs();
            let mut tap = builder.taps[index];
            match validate_and_configure_tap(&mut tap, vq_pairs) {
                Ok(()) => {
                    builder.taps[index] = tap;
                    builder.stage = SetupStage::TapOffload(index);
                    Construction::Pending(builder)
                },
                Err(error) => Construction::Failed(error),
            }
        } else {
            if builder.queue_sizes.len() > 0 {
                builder.stage = SetupStage::QueueEvent(0);
            } else {
                builder.stage = SetupStage::IrqEvent;
            }
            Construction::Pending(builder)
        }
    }

    /// Puts the device together.
    fn finish(self, irq_evt: EventFd, activate_evt: EventFd) -> (net: Net<M>)
        requires
            self@.mac_inv(),
            self@.taps.len() == self@.vq_pairs(),
            self@.configured_before(self@.vq_pairs() as int),
            self@.queue_evts.len() == self@.queue_sizes.len(),
        ensures
            net@ == self@.built::<M>(irq_evt, activate_evt),
            net.inv(),
    {
        let vq_pairs = self.vq_pairs();
        let avail_features = avail_features_for(vq_pairs);
        let config_space = ConfigSpace::new(
            self.guest_mac,
            (vq_pairs % 0x1_0000) as u16,
            DEFAULT_MTU,
        );
        let queues = queues_from(&self.queue_sizes);
        proof {
            config_space.lemma_len();
            if let Some(mac) = self.guest_mac {
                mac.lemma_len();
                assert(config_space@.subrange(0, 6) =~= mac@);
            }
            assert(0u64 & !avail_features == 0) by (bit_vector);
        }
        Net::assemble(
            self.id,
            self.taps,
            avail_features,
            queues,
            self.queue_evts,
            IrqTrigger::new(irq_evt),
            config_space,
            self.guest_mac,
            activate_evt,
        )
    }
}

} // verus!
