//! What holds of every device, whatever was done with it.
//!
//! The contracts of the device say what each call does. The statements here
//! follow from them; they are about sequences of calls and about every
//! device that can come about.

use crate::activation::Activation;
use crate::backend::BackendReply;
use crate::config::{write_accepted, CONFIG_SPACE_SIZE};
use crate::device::{pair_set_up, NetView};
use crate::features::{
    has_feature, lemma_multi_queue_features, negotiated_features, tap_offload_of,
    VIRTIO_NET_F_CTRL_VQ, VIRTIO_NET_F_MQ,
};
use crate::queue::EventFd;
use crate::setup::{ConstructionView, NetBuilderView, SetupReply};
use vstd::prelude::*;

verus! {

/// A device has one event descriptor per queue and one tap per queue pair;
/// it has no backend handle or one per tap; the guest has acknowledged no
/// feature that the device does not advertise.
pub proof fn lemma_device_shape<M>(net: NetView<M>)
    requires
        net.inv(),
    ensures
        net.queue_evts.len() == net.queues.len(),
        net.taps.len() == net.queues.len() / 2,
        net.handles.len() == 0 || net.handles.len() == net.taps.len(),
        net.handles.len() <= net.taps.len(),
        net.acked_features & !net.avail_features == 0,
        net.config_space.len() == CONFIG_SPACE_SIZE,
{
}

/// A device advertises the multi-queue and control-queue features exactly
/// when it has more than one tap.
pub proof fn lemma_multi_queue_advertised<M>(net: NetView<M>)
    requires
        net.inv(),
    ensures
        has_feature(net.avail_features, VIRTIO_NET_F_MQ) <==> net.taps.len() > 1,
        has_feature(net.avail_features, VIRTIO_NET_F_CTRL_VQ) <==> net.taps.len() > 1,
{
    lemma_multi_queue_features(net.taps.len());
}

/// A step of a construction leaves a builder that is in order, or a device
/// that is.
pub proof fn lemma_advance_keeps_inv<M>(builder: NetBuilderView, reply: SetupReply)
    requires
        builder.inv(),
    ensures
        builder.advance::<M>(reply) matches ConstructionView::Pending(next) ==> next.inv()
            && next.queue_sizes == builder.queue_sizes,
        builder.advance::<M>(reply) matches ConstructionView::Built(net) ==> net.inv(),
{
    match builder.advance::<M>(reply) {
        ConstructionView::Built(net) => {
            lemma_built_device::<M>(builder, builder.stage->ActivateEvent_0, net.activate_evt);
        },
        _ => {},
    }
}

/// The device that a construction ends with has as many queues and event
/// descriptors as it was given queue sizes, and half as many taps; it is
/// inactive, without backend handles, and no feature is acknowledged.
pub proof fn lemma_built_device<M>(
    builder: NetBuilderView,
    irq_evt: EventFd,
    activate_evt: EventFd,
)
    requires
        builder.inv(),
        builder.stage is ActivateEvent,
    ensures
        builder.built::<M>(irq_evt, activate_evt).inv(),
        builder.built::<M>(irq_evt, activate_evt).queues.len() == builder.queue_sizes.len(),
        builder.built::<M>(irq_evt, activate_evt).queue_evts.len() == builder.queue_sizes.len(),
        builder.built::<M>(irq_evt, activate_evt).taps.len() == builder.queue_sizes.len() / 2,
        builder.built::<M>(irq_evt, activate_evt).handles.len() == 0,
        builder.built::<M>(irq_evt, activate_evt).acked_features == 0,
        builder.built::<M>(irq_evt, activate_evt).negotiable(),
{
    let net = builder.built::<M>(irq_evt, activate_evt);
    assert(0u64 & !net.avail_features == 0) by (bit_vector);
    if let Some(mac) = builder.guest_mac {
        assert(net.config_space.subrange(0, mac.len() as int) =~= mac);
    }
}

/// Starting an activation leaves the device in order.
pub proof fn lemma_activate_keeps_inv<M>(net: NetView<M>, mem: M)
    requires
        net.inv(),
    ensures
        net.activate(mem).0.inv(),
{
}

/// A step of an activation leaves the device in order.
pub proof fn lemma_resume_keeps_inv<M>(net: NetView<M>, reply: BackendReply)
    requires
        net.inv(),
    ensures
        net.resume(reply).0.inv(),
{
}

/// Neither starting an activation nor a step of one changes what the device
/// is made of or what was negotiated: taps, queues and event descriptors
/// stay as many as they were, and the advertised and acknowledged features
/// stay what they were.
pub proof fn lemma_activation_keeps_shape<M>(net: NetView<M>, mem: M, reply: BackendReply)
    requires
        net.inv(),
    ensures
        net.activate(mem).0.taps.len() == net.taps.len(),
        net.activate(mem).0.queues == net.queues,
        net.activate(mem).0.avail_features == net.avail_features,
        net.activate(mem).0.acked_features == net.acked_features,
        net.resume(reply).0.taps.len() == net.taps.len(),
        net.resume(reply).0.queues == net.queues,
        net.resume(reply).0.avail_features == net.avail_features,
        net.resume(reply).0.acked_features == net.acked_features,
{
}

/// Handles are created at most once. However often a device is activated,
/// and whatever the steps in between come to, it never has more backend
/// handles than taps; and once it has its handles, it keeps them.
pub proof fn lemma_handles_created_once<M>(net: NetView<M>, mem: M, reply: BackendReply)
    requires
        net.inv(),
    ensures
        net.activate(mem).0.handles == net.handles,
        net.activate(mem).0.activate(mem).0.handles.len() <= net.taps.len(),
        net.resume(reply).0.handles.len() <= net.taps.len(),
        net.handles.len() == net.taps.len() ==> net.resume(reply).0.handles.len()
            == net.taps.len(),
{
}

/// An activated device rejects another activation and stays exactly as it
/// is.
pub proof fn lemma_activated_device_rejects_activation<M>(net: NetView<M>, mem: M)
    requires
        net.inv(),
        net.is_activated(),
    ensures
        net.activate(mem).0 == net,
        net.activate(mem).1 is Failed,
{
}

/// In an activated device every queue pair is set up for the features that
/// the guest acknowledged: its backend handle got exactly the acknowledged
/// features that the backend itself reported, and its tap has the offload
/// flags that the acknowledged features translate to.
pub proof fn lemma_activated_device_is_set_up<M>(net: NetView<M>, pair: int)
    requires
        net.inv(),
        net.is_activated(),
        0 <= pair < net.taps.len(),
    ensures
        net.pair_ready(pair),
        net.handles.len() == net.taps.len(),
        net.handles[pair].features == negotiated_features(
            net.acked_features,
            net.handles[pair].backend_features,
        ),
        net.taps[pair].offload == tap_offload_of(net.acked_features),
        net.activating is None,
{
    assert(pair_set_up(net.handles[pair], net.taps[pair], net.acked_features));
    assert(net.pair_ready(pair));
}

/// A step reports the device activated only when the device is activated,
/// and a device becomes activated only by the step that reports it.
pub proof fn lemma_activated_iff_reported<M>(net: NetView<M>, reply: BackendReply)
    requires
        net.inv(),
    ensures
        net.resume(reply).1 is Activated <==> net.resume(reply).0.is_activated(),
        !net.is_activated() && net.resume(reply).0.is_activated() ==> {
            &&& net.activating matches Some(activating)
            &&& activating.request is SignalActivation
            &&& reply is Done
            &&& net.resume(reply).0.device_state == crate::device::DeviceState::Activated(
                activating.mem,
            )
        },
{
}

/// No partial commit. When a request fails, the activation ends: the device
/// is inactive and at rest, and ready to be activated anew. The same holds
/// whenever a step reports a failure.
pub proof fn lemma_failure_leaves_inactive<M>(net: NetView<M>, reply: BackendReply)
    requires
        net.inv(),
    ensures
        net.activating is Some && reply is Failed ==> net.resume(reply).1 is Failed,
        net.resume(reply).1 is Failed ==> {
            &&& !net.resume(reply).0.is_activated()
            &&& net.resume(reply).0.negotiable()
        },
{
}

/// A reply that cannot answer the outstanding request changes nothing.
pub proof fn lemma_stray_reply_changes_nothing<M>(net: NetView<M>, reply: BackendReply)
    requires
        net.inv(),
        net.activating matches Some(activating) && !activating.request.answered_by(reply),
    ensures
        net.resume(reply).0 == net,
        net.resume(reply).1 == Activation::Pending(net.activating->0.request),
{
    assert(net.resume(reply).0 =~= net);
}

/// The acknowledged features change only while the device is inactive and
/// at rest, and never exceed the advertised features.
pub proof fn lemma_ack_is_subset<M>(net: NetView<M>, acked_features: u64)
    requires
        net.inv(),
    ensures
        net.ack(acked_features).inv(),
        net.ack(acked_features).acked_features & !net.avail_features == 0,
        !net.negotiable() ==> net.ack(acked_features) == net,
        net.negotiable() && acked_features & !net.avail_features == 0 ==> net.ack(
            acked_features,
        ).acked_features == acked_features,
{
    let avail_features = net.avail_features;
    assert((acked_features & avail_features) & !avail_features == 0) by (bit_vector);
    assert(acked_features & !avail_features == 0 ==> acked_features & avail_features
        == acked_features) by (bit_vector);
}

/// A guest write that does not lie inside the configuration block changes
/// nothing: neither the block nor the MAC address of the guest.
pub proof fn lemma_rejected_write_changes_nothing<M>(net: NetView<M>, offset: u64, data: Seq<u8>)
    requires
        !write_accepted(offset, data.len()),
    ensures
        net.write_config(offset, data) == net,
{
}

/// A guest write leaves the device in order, and the MAC address of the
/// guest is then the one that the block holds.
pub proof fn lemma_write_keeps_inv<M>(net: NetView<M>, offset: u64, data: Seq<u8>)
    requires
        net.inv(),
    ensures
        net.write_config(offset, data).inv(),
        net.write_config(offset, data).config_space.len() == CONFIG_SPACE_SIZE,
        write_accepted(offset, data.len()) ==> net.write_config(offset, data).guest_mac == Some(
            net.write_config(offset, data).config_space.subrange(0, 6),
        ),
{
}

} // verus!
