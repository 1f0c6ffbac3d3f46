//! Virtio feature bits, tap offload bits, and the rules that relate them.
//!
//! Three bit-level vocabularies meet in this device: the feature numbers that
//! the guest driver negotiates, the feature mask that a kernel backend
//! reports, and the offload flags of a tap interface. Everything here is a
//! pure function of bitmasks.

use vstd::prelude::*;

verus! {

/// Device handles packets with a partial checksum.
pub const VIRTIO_NET_F_CSUM: u32 = 0;

/// Guest handles packets with a partial checksum.
pub const VIRTIO_NET_F_GUEST_CSUM: u32 = 1;

/// Guest can receive TSOv4.
pub const VIRTIO_NET_F_GUEST_TSO4: u32 = 7;

/// Guest can receive TSOv6.
pub const VIRTIO_NET_F_GUEST_TSO6: u32 = 8;

/// Guest can receive TSO with ECN.
pub const VIRTIO_NET_F_GUEST_ECN: u32 = 9;

/// Guest can receive UFO.
pub const VIRTIO_NET_F_GUEST_UFO: u32 = 10;

/// Device can receive UFO.
pub const VIRTIO_NET_F_HOST_UFO: u32 = 14;

/// Guest can merge receive buffers.
pub const VIRTIO_NET_F_MRG_RXBUF: u32 = 15;

/// A control queue is available.
pub const VIRTIO_NET_F_CTRL_VQ: u32 = 17;

/// Device supports multiple queue pairs.
pub const VIRTIO_NET_F_MQ: u32 = 22;

/// The device notifies the guest when it runs out of available buffers.
pub const VIRTIO_F_NOTIFY_ON_EMPTY: u32 = 24;

/// Descriptors may refer to indirect descriptor tables.
pub const VIRTIO_RING_F_INDIRECT_DESC: u32 = 28;

/// Notifications are suppressed through the event-index fields.
pub const VIRTIO_RING_F_EVENT_IDX: u32 = 29;

/// The device conforms to version 1 of the virtio specification.
pub const VIRTIO_F_VERSION_1: u32 = 32;

/// Tap offload: checksum.
pub const TUN_F_CSUM: u32 = 0x01;

/// Tap offload: TSO for IPv4 packets.
pub const TUN_F_TSO4: u32 = 0x02;

/// Tap offload: TSO for IPv6 packets.
pub const TUN_F_TSO6: u32 = 0x04;

/// Tap offload: TSO with ECN bits.
pub const TUN_F_TSO_ECN: u32 = 0x08;

/// Tap offload: UFO.
pub const TUN_F_UFO: u32 = 0x10;

/// Every tap offload bit that a feature can switch on.
pub const TUN_F_ALL: u32 = TUN_F_CSUM | TUN_F_TSO4 | TUN_F_TSO6 | TUN_F_TSO_ECN | TUN_F_UFO;

/// The features that every device advertises, whatever its number of queue
/// pairs: checksum offload in both directions, guest TSOv4, UFO in both
/// directions, mergeable receive buffers, indirect descriptors, event index,
/// notify-on-empty and version 1.
pub const BASE_FEATURES: u64 = 1u64 << VIRTIO_NET_F_GUEST_CSUM
    | 1u64 << VIRTIO_NET_F_CSUM
    | 1u64 << VIRTIO_NET_F_GUEST_TSO4
    | 1u64 << VIRTIO_NET_F_GUEST_UFO
    | 1u64 << VIRTIO_NET_F_HOST_UFO
    | 1u64 << VIRTIO_NET_F_MRG_RXBUF
    | 1u64 << VIRTIO_RING_F_INDIRECT_DESC
    | 1u64 << VIRTIO_RING_F_EVENT_IDX
    | 1u64 << VIRTIO_F_NOTIFY_ON_EMPTY
    | 1u64 << VIRTIO_F_VERSION_1;

/// The features that only a device with several queue pairs advertises.
pub const MULTI_QUEUE_FEATURES: u64 = 1u64 << VIRTIO_NET_F_MQ | 1u64 << VIRTIO_NET_F_CTRL_VQ;

/// The 64-bit mask in which only bit number `bit` is set.
pub open spec fn feature_mask(bit: u32) -> u64
    recommends
        bit < 64,
{
    1u64 << bit
}

/// Whether feature number `bit` is present in `features`.
pub open spec fn has_feature(features: u64, bit: u32) -> bool
    recommends
        bit < 64,
{
    features & feature_mask(bit) != 0
}

/// The offload flag `offload` if feature number `bit` is in `features`,
/// nothing otherwise.
pub open spec fn offload_if(features: u64, bit: u32, offload: u32) -> u32
    recommends
        bit < 64,
{
    if has_feature(features, bit) {
        offload
    } else {
        0
    }
}

/// The tap offload set that corresponds to a virtio feature set: one offload
/// flag for each of the five guest offload features, and nothing else.
pub open spec fn tap_offload_of(features: u64) -> u32 {
    offload_if(features, VIRTIO_NET_F_GUEST_CSUM, TUN_F_CSUM)
        | offload_if(features, VIRTIO_NET_F_GUEST_TSO4, TUN_F_TSO4)
        | offload_if(features, VIRTIO_NET_F_GUEST_TSO6, TUN_F_TSO6)
        | offload_if(features, VIRTIO_NET_F_GUEST_ECN, TUN_F_TSO_ECN)
        | offload_if(features, VIRTIO_NET_F_GUEST_UFO, TUN_F_UFO)
}

/// The feature set that a device with `vq_pairs` queue pairs advertises.
pub open spec fn avail_features_of(vq_pairs: nat) -> u64 {
    if vq_pairs > 1 {
        BASE_FEATURES | MULTI_QUEUE_FEATURES
    } else {
        BASE_FEATURES
    }
}

/// The feature set handed to a backend: what the guest acknowledged and the
/// backend itself reports, never more.
pub open spec fn negotiated_features(acked_features: u64, backend_features: u64) -> u64 {
    acked_features & backend_features
}

/// Picks `offload` when feature number `bit` is present in `features`.
fn offload_for(features: u64, bit: u32, offload: u32) -> (picked: u32)
    requires
        bit < 64,
    ensures
        picked == offload_if(features, bit, offload),
{
    if features & (1u64 << bit) != 0 {
        offload
    } else {
        0
    }
}

/// Translates a virtio feature set into the offload flags of a tap interface.
///
/// Call it with the features that the guest acknowledged, not with those
/// that the device advertises: the tap must not apply an offload that the
/// guest did not agree to.
pub fn virtio_features_to_tap_offload(features: u64) -> (tap_offloads: u32)
    ensures
        tap_offloads == tap_offload_of(features),
{
    offload_for(features, VIRTIO_NET_F_GUEST_CSUM, TUN_F_CSUM)
        | offload_for(features, VIRTIO_NET_F_GUEST_TSO4, TUN_F_TSO4)
        | offload_for(features, VIRTIO_NET_F_GUEST_TSO6, TUN_F_TSO6)
        | offload_for(features, VIRTIO_NET_F_GUEST_ECN, TUN_F_TSO_ECN)
        | offload_for(features, VIRTIO_NET_F_GUEST_UFO, TUN_F_UFO)
}

/// Computes the feature set that a device with `vq_pairs` queue pairs
/// advertises.
pub fn avail_features_for(vq_pairs: usize) -> (features: u64)
    ensures
        features == avail_features_of(vq_pairs as nat),
{
    if vq_pairs > 1 {
        BASE_FEATURES | MULTI_QUEUE_FEATURES
    } else {
        BASE_FEATURES
    }
}

/// Intersects the features that the guest acknowledged with those that a
/// backend reports.
pub fn negotiate_features(acked_features: u64, backend_features: u64) -> (features: u64)
    ensures
        features == negotiated_features(acked_features, backend_features),
{
    acked_features & backend_features
}

/// Each offload flag is set in the translation exactly when its own feature
/// is present, and no other bit is ever set: the five pairs do not interfere.
pub proof fn lemma_tap_offload_bitwise(features: u64)
    ensures
        tap_offload_of(features) & TUN_F_CSUM != 0 <==> has_feature(
            features,
            VIRTIO_NET_F_GUEST_CSUM,
        ),
        tap_offload_of(features) & TUN_F_TSO4 != 0 <==> has_feature(
            features,
            VIRTIO_NET_F_GUEST_TSO4,
        ),
        tap_offload_of(features) & TUN_F_TSO6 != 0 <==> has_feature(
            features,
            VIRTIO_NET_F_GUEST_TSO6,
        ),
        tap_offload_of(features) & TUN_F_TSO_ECN != 0 <==> has_feature(
            features,
            VIRTIO_NET_F_GUEST_ECN,
        ),
        tap_offload_of(features) & TUN_F_UFO != 0 <==> has_feature(
            features,
            VIRTIO_NET_F_GUEST_UFO,
        ),
        tap_offload_of(features) & !TUN_F_ALL == 0,
{
    let a = offload_if(features, VIRTIO_NET_F_GUEST_CSUM, TUN_F_CSUM);
    let b = offload_if(features, VIRTIO_NET_F_GUEST_TSO4, TUN_F_TSO4);
    let c = offload_if(features, VIRTIO_NET_F_GUEST_TSO6, TUN_F_TSO6);
    let d = offload_if(features, VIRTIO_NET_F_GUEST_ECN, TUN_F_TSO_ECN);
    let e = offload_if(features, VIRTIO_NET_F_GUEST_UFO, TUN_F_UFO);
    let all = a | b | c | d | e;
    assert({
        &&& (all & 0x01u32 != 0 <==> a != 0)
        &&& (all & 0x02u32 != 0 <==> b != 0)
        &&& (all & 0x04u32 != 0 <==> c != 0)
        &&& (all & 0x08u32 != 0 <==> d != 0)
        &&& (all & 0x10u32 != 0 <==> e != 0)
        &&& all & !(0x01u32 | 0x02u32 | 0x04u32 | 0x08u32 | 0x10u32) == 0
    }) by (bit_vector)
        requires
            all == a | b | c | d | e,
            a == 0 || a == 0x01u32,
            b == 0 || b == 0x02u32,
            c == 0 || c == 0x04u32,
            d == 0 || d == 0x08u32,
            e == 0 || e == 0x10u32,
    ;
}

/// The translation looks at the five guest offload features only: two feature
/// sets that agree on them translate to the same offload set.
pub proof fn lemma_tap_offload_reads_guest_offloads_only(features: u64, other: u64)
    requires
        has_feature(features, VIRTIO_NET_F_GUEST_CSUM) == has_feature(
            other,
            VIRTIO_NET_F_GUEST_CSUM,
        ),
        has_feature(features, VIRTIO_NET_F_GUEST_TSO4) == has_feature(
            other,
            VIRTIO_NET_F_GUEST_TSO4,
        ),
        has_feature(features, VIRTIO_NET_F_GUEST_TSO6) == has_feature(
            other,
            VIRTIO_NET_F_GUEST_TSO6,
        ),
        has_feature(features, VIRTIO_NET_F_GUEST_ECN) == has_feature(other, VIRTIO_NET_F_GUEST_ECN),
        has_feature(features, VIRTIO_NET_F_GUEST_UFO) == has_feature(other, VIRTIO_NET_F_GUEST_UFO),
    ensures
        tap_offload_of(features) == tap_offload_of(other),
{
}

/// The translation of a union of feature sets is the union of their
/// translations, and likewise for an intersection.
pub proof fn lemma_tap_offload_distributes(features: u64, other: u64)
    ensures
        tap_offload_of(features | other) == tap_offload_of(features) | tap_offload_of(other),
        tap_offload_of(features & other) == tap_offload_of(features) & tap_offload_of(other),
{
    lemma_offload_if_distributes(features, other, VIRTIO_NET_F_GUEST_CSUM, TUN_F_CSUM);
    lemma_offload_if_distributes(features, other, VIRTIO_NET_F_GUEST_TSO4, TUN_F_TSO4);
    lemma_offload_if_distributes(features, other, VIRTIO_NET_F_GUEST_TSO6, TUN_F_TSO6);
    lemma_offload_if_distributes(features, other, VIRTIO_NET_F_GUEST_ECN, TUN_F_TSO_ECN);
    lemma_offload_if_distributes(features, other, VIRTIO_NET_F_GUEST_UFO, TUN_F_UFO);
    let a1 = offload_if(features, VIRTIO_NET_F_GUEST_CSUM, TUN_F_CSUM);
    let b1 = offload_if(features, VIRTIO_NET_F_GUEST_TSO4, TUN_F_TSO4);
    let c1 = offload_if(features, VIRTIO_NET_F_GUEST_TSO6, TUN_F_TSO6);
    let d1 = offload_if(features, VIRTIO_NET_F_GUEST_ECN, TUN_F_TSO_ECN);
    let e1 = offload_if(features, VIRTIO_NET_F_GUEST_UFO, TUN_F_UFO);
    let a2 = offload_if(other, VIRTIO_NET_F_GUEST_CSUM, TUN_F_CSUM);
    let b2 = offload_if(other, VIRTIO_NET_F_GUEST_TSO4, TUN_F_TSO4);
    let c2 = offload_if(other, VIRTIO_NET_F_GUEST_TSO6, TUN_F_TSO6);
    let d2 = offload_if(other, VIRTIO_NET_F_GUEST_ECN, TUN_F_TSO_ECN);
    let e2 = offload_if(other, VIRTIO_NET_F_GUEST_UFO, TUN_F_UFO);
    assert((a1 | a2) | (b1 | b2) | (c1 | c2) | (d1 | d2) | (e1 | e2) == (a1 | b1 | c1 | d1 | e1) | (
    a2 | b2 | c2 | d2 | e2)) by (bit_vector);
    assert((a1 & a2) | (b1 & b2) | (c1 & c2) | (d1 & d2) | (e1 & e2) == (a1 | b1 | c1 | d1 | e1) & (
    a2 | b2 | c2 | d2 | e2)) by (bit_vector)
        requires
            a1 == 0 || a1 == 0x01u32,
            b1 == 0 || b1 == 0x02u32,
            c1 == 0 || c1 == 0x04u32,
            d1 == 0 || d1 == 0x08u32,
            e1 == 0 || e1 == 0x10u32,
            a2 == 0 || a2 == 0x01u32,
            b2 == 0 || b2 == 0x02u32,
            c2 == 0 || c2 == 0x04u32,
            d2 == 0 || d2 == 0x08u32,
            e2 == 0 || e2 == 0x10u32,
    ;
}

/// One feature's share of the translation distributes over union and
/// intersection of feature sets.
proof fn lemma_offload_if_distributes(features: u64, other: u64, bit: u32, offload: u32)
    requires
        bit < 64,
    ensures
        offload_if(features | other, bit, offload) == offload_if(features, bit, offload)
            | offload_if(other, bit, offload),
        offload_if(features & other, bit, offload) == offload_if(features, bit, offload)
            & offload_if(other, bit, offload),
{
    assert({
        &&& (((features | other) & (1u64 << bit) != 0) <==> ((features & (1u64 << bit) != 0) || (
        other & (1u64 << bit) != 0)))
        &&& (((features & other) & (1u64 << bit) != 0) <==> ((features & (1u64 << bit) != 0) && (
        other & (1u64 << bit) != 0)))
    }) by (bit_vector)
        requires
            bit < 64,
    ;
    assert({
        &&& offload | offload == offload
        &&& offload | 0u32 == offload
        &&& 0u32 | offload == offload
        &&& 0u32 | 0u32 == 0u32
        &&& offload & offload == offload
        &&& offload & 0u32 == 0u32
        &&& 0u32 & offload == 0u32
        &&& 0u32 & 0u32 == 0u32
    }) by (bit_vector);
}

/// The multi-queue and control-queue features are advertised together, and
/// exactly by devices with more than one queue pair.
pub proof fn lemma_multi_queue_features(vq_pairs: nat)
    ensures
        has_feature(avail_features_of(vq_pairs), VIRTIO_NET_F_MQ) <==> vq_pairs > 1,
        has_feature(avail_features_of(vq_pairs), VIRTIO_NET_F_CTRL_VQ) <==> vq_pairs > 1,
{
    assert({
        &&& has_feature(BASE_FEATURES | MULTI_QUEUE_FEATURES, VIRTIO_NET_F_MQ)
        &&& has_feature(BASE_FEATURES | MULTI_QUEUE_FEATURES, VIRTIO_NET_F_CTRL_VQ)
        &&& !has_feature(BASE_FEATURES, VIRTIO_NET_F_MQ)
        &&& !has_feature(BASE_FEATURES, VIRTIO_NET_F_CTRL_VQ)
    }) by (bit_vector);
}

/// What is handed to a backend never exceeds what the guest acknowledged nor
/// what the backend reports.
pub proof fn lemma_negotiated_is_intersection(acked_features: u64, backend_features: u64)
    ensures
        negotiated_features(acked_features, backend_features) & !acked_features == 0,
        negotiated_features(acked_features, backend_features) & !backend_features == 0,
        forall|bit: u32|
            bit < 64 ==> (#[trigger] has_feature(
                negotiated_features(acked_features, backend_features),
                bit,
            ) <==> has_feature(acked_features, bit) && has_feature(backend_features, bit)),
{
    assert({
        &&& (acked_features & backend_features) & !acked_features == 0
        &&& (acked_features & backend_features) & !backend_features == 0
    }) by (bit_vector);
    assert forall|bit: u32| bit < 64 implies (#[trigger] has_feature(
        negotiated_features(acked_features, backend_features),
        bit,
    ) <==> has_feature(acked_features, bit) && has_feature(backend_features, bit)) by {
        assert(((acked_features & backend_features) & (1u64 << bit) != 0) <==> ((acked_features & (
        1u64 << bit) != 0) && (backend_features & (1u64 << bit) != 0))) by (bit_vector)
            requires
                bit < 64,
        ;
    }
}

} // verus!
