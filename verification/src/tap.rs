//! The device's record of a tap interface, and the check that an interface
//! is fit to carry the device's queues.

use crate::error::{VhostNetError, VhostNetErrorView};
use crate::features::{TUN_F_CSUM, TUN_F_TSO4, TUN_F_TSO6, TUN_F_UFO};
use vstd::prelude::*;
use vstd::string::*;

verus! {

/// Interface flag: the interface is a tap (it carries link-layer frames).
pub const IFF_TAP: u32 = 0x0002;

/// Interface flag: several queues may be attached to the interface.
pub const IFF_MULTI_QUEUE: u32 = 0x0100;

/// Interface flag: frames come without a packet-information header.
pub const IFF_NO_PI: u32 = 0x1000;

/// Interface flag: frames are preceded by a virtio-net header.
pub const IFF_VNET_HDR: u32 = 0x4000;

/// The offload set that a tap is given when the device is constructed:
/// checksum, UFO, TSOv4 and TSOv6.
pub const TAP_OFFLOADS: u32 = TUN_F_CSUM | TUN_F_UFO | TUN_F_TSO4 | TUN_F_TSO6;

/// The length in bytes of the virtio-net header that precedes every frame.
pub const VNET_HDR_LEN: usize = 12;

/// The interface flags that the device may require of a tap. Each has one
/// mask and one name, used wherever the flag is checked or reported.
#[derive(Clone, Copy, Debug, PartialEq, Eq)]
pub enum TapFlag {
    Tap,
    NoPi,
    VnetHdr,
    MultiQueue,
}

impl TapFlag {
    /// The bit of this flag among the interface flags.
    pub open spec fn mask_of(self) -> u32 {
        match self {
            TapFlag::Tap => IFF_TAP,
            TapFlag::NoPi => IFF_NO_PI,
            TapFlag::VnetHdr => IFF_VNET_HDR,
            TapFlag::MultiQueue => IFF_MULTI_QUEUE,
        }
    }

    /// The name under which this flag is reported.
    pub open spec fn name_of(self) -> Seq<char> {
        match self {
            TapFlag::Tap => "IFF_TAP"@,
            TapFlag::NoPi => "IFF_NO_PI"@,
            TapFlag::VnetHdr => "IFF_VNET_HDR"@,
            TapFlag::MultiQueue => "IFF_MULTI_QUEUE"@,
        }
    }

    /// Whether interface flags `if_flags` lack this flag.
    pub open spec fn missing_from(self, if_flags: u32) -> bool {
        self.mask_of() & if_flags == 0
    }

    /// The bit of this flag among the interface flags.
    pub fn mask(&self) -> (mask: u32)
        ensures
            mask == self.mask_of(),
    {
        match self {
            TapFlag::Tap => IFF_TAP,
            TapFlag::NoPi => IFF_NO_PI,
            TapFlag::VnetHdr => IFF_VNET_HDR,
            TapFlag::MultiQueue => IFF_MULTI_QUEUE,
        }
    }

    /// The name under which this flag is reported.
    pub fn name(&self) -> (name: &'static str)
        ensures
            name@ == self.name_of(),
    {
        match self {
            TapFlag::Tap => "IFF_TAP",
            TapFlag::NoPi => "IFF_NO_PI",
            TapFlag::VnetHdr => "IFF_VNET_HDR",
            TapFlag::MultiQueue => "IFF_MULTI_QUEUE",
        }
    }
}

/// The flags that a tap must carry to serve a device with `vq_pairs` queue
/// pairs, in the order in which they are reported.
pub open spec fn required_flags(vq_pairs: nat) -> Seq<TapFlag> {
    if vq_pairs > 1 {
        seq![TapFlag::Tap, TapFlag::NoPi, TapFlag::VnetHdr, TapFlag::MultiQueue]
    } else {
        seq![TapFlag::Tap, TapFlag::NoPi, TapFlag::VnetHdr]
    }
}

/// Those of `required` that interface flags `if_flags` lack, in the same
/// order.
pub open spec fn missing_among(if_flags: u32, required: Seq<TapFlag>) -> Seq<TapFlag>
    decreases required.len(),
{
    if required.len() == 0 {
        Seq::empty()
    } else if required.last().missing_from(if_flags) {
        missing_among(if_flags, required.drop_last()).push(required.last())
    } else {
        missing_among(if_flags, required.drop_last())
    }
}

/// The required flags that interface flags `if_flags` lack, for a device with
/// `vq_pairs` queue pairs.
pub open spec fn missing_flags(if_flags: u32, vq_pairs: nat) -> Seq<TapFlag> {
    missing_among(if_flags, required_flags(vq_pairs))
}

/// The names of `flags`, each but the first preceded by ", ".
pub open spec fn flag_names(flags: Seq<TapFlag>) -> Seq<char>
    decreases flags.len(),
{
    if flags.len() == 0 {
        Seq::empty()
    } else if flags.len() == 1 {
        flags[0].name_of()
    } else {
        flag_names(flags.drop_last()) + ", "@ + flags.last().name_of()
    }
}

/// A flag is among the missing ones exactly when it is required and the
/// interface lacks it: nothing else is reported, and nothing missing is
/// passed over.
pub proof fn lemma_missing_among(if_flags: u32, required: Seq<TapFlag>, flag: TapFlag)
    ensures
        missing_among(if_flags, required).contains(flag) <==> required.contains(flag)
            && flag.missing_from(if_flags),
    decreases required.len(),
{
    if required.len() > 0 {
        let rest = required.drop_last();
        let last = required.last();
        lemma_missing_among(if_flags, rest, flag);
        let missing_rest = missing_among(if_flags, rest);
        if required.contains(flag) {
            let i = choose|i: int| 0 <= i < required.len() && required[i] == flag;
            if i < rest.len() {
                assert(rest[i] == flag);
            }
        }
        if rest.contains(flag) {
            let i = choose|i: int| 0 <= i < rest.len() && rest[i] == flag;
            assert(required[i] == flag);
        }
        assert(required.contains(flag) <==> rest.contains(flag) || last == flag) by {
            if last == flag {
                assert(required[required.len() - 1] == flag);
            }
        }
        if last.missing_from(if_flags) {
            let missing = missing_rest.push(last);
            assert(missing[missing.len() - 1] == last);
            if missing_rest.contains(flag) {
                let i = choose|i: int| 0 <= i < missing_rest.len() && missing_rest[i] == flag;
                assert(missing[i] == flag);
            }
            if missing.contains(flag) {
                let i = choose|i: int| 0 <= i < missing.len() && missing[i] == flag;
                if i < missing_rest.len() {
                    assert(missing_rest[i] == flag);
                }
            }
        }
    }
}

/// The flags reported missing for a device with `vq_pairs` queue pairs are
/// exactly the required flags that the interface lacks. The multi-queue
/// flag is required of a device with more than one queue pair only.
pub proof fn lemma_missing_flags(if_flags: u32, vq_pairs: nat, flag: TapFlag)
    ensures
        missing_flags(if_flags, vq_pairs).contains(flag) <==> flag.missing_from(if_flags) && (
        flag != TapFlag::MultiQueue || vq_pairs > 1),
        missing_flags(if_flags, vq_pairs).len() == 0 <==> (forall|required: TapFlag|
            required != TapFlag::MultiQueue || vq_pairs > 1 ==> !required.missing_from(if_flags)),
{
    let required = required_flags(vq_pairs);
    lemma_missing_among(if_flags, required, flag);
    assert(required.contains(flag) <==> flag != TapFlag::MultiQueue || vq_pairs > 1) by {
        assert(required[0] == TapFlag::Tap);
        assert(required[1] == TapFlag::NoPi);
        assert(required[2] == TapFlag::VnetHdr);
        if vq_pairs > 1 {
            assert(required[3] == TapFlag::MultiQueue);
        }
    }
    let missing = missing_flags(if_flags, vq_pairs);
    if missing.len() > 0 {
        lemma_missing_among(if_flags, required, missing[0]);
        assert(missing.contains(missing[0]));
    } else {
        assert forall|other: TapFlag|
            other != TapFlag::MultiQueue || vq_pairs > 1 implies !other.missing_from(if_flags) by {
            lemma_missing_among(if_flags, required, other);
            assert(required[0] == TapFlag::Tap);
            assert(required[1] == TapFlag::NoPi);
            assert(required[2] == TapFlag::VnetHdr);
            if vq_pairs > 1 {
                assert(required[3] == TapFlag::MultiQueue);
            }
            if other.missing_from(if_flags) {
                assert(required.contains(other));
                assert(missing.contains(other));
            }
        }
    }
}

/// What the device knows of one tap interface: the flags the interface was
/// opened with, and the settings the device has chosen for it.
#[derive(Clone, Copy, Debug, PartialEq, Eq)]
pub struct Tap {
    /// The interface flags.
    pub if_flags: u32,
    /// The offload flags in force.
    pub offload: u32,
    /// The length of the virtio-net header in force.
    pub vnet_hdr_size: i32,
}

impl Tap {
    /// The record of an interface that was opened with flags `if_flags` and
    /// has no settings chosen yet.
    pub fn new(if_flags: u32) -> (tap: Tap)
        ensures
            tap == (Tap { if_flags, offload: 0, vnet_hdr_size: 0 }),
    {
        Tap { if_flags, offload: 0, vnet_hdr_size: 0 }
    }

    /// The interface flags.
    pub fn if_flags(&self) -> (if_flags: u32)
        ensures
            if_flags == self.if_flags,
    {
        self.if_flags
    }

    /// The offload flags in force.
    pub fn offload(&self) -> (offload: u32)
        ensures
            offload == self.offload,
    {
        self.offload
    }

    /// The length of the virtio-net header in force.
    pub fn vnet_hdr_size(&self) -> (size: i32)
        ensures
            size == self.vnet_hdr_size,
    {
        self.vnet_hdr_size
    }

    /// Records `flags` as the offload flags in force.
    pub fn set_offload(&mut self, flags: u32)
        ensures
            *final(self) == (Tap { offload: flags, ..*old(self) }),
    {
        self.offload = flags;
    }

    /// Records `size` as the length of the virtio-net header in force.
    pub fn set_vnet_hdr_size(&mut self, size: i32)
        ensures
            *final(self) == (Tap { vnet_hdr_size: size, ..*old(self) }),
    {
        self.vnet_hdr_size = size;
    }

    /// Whether the interface carries every flag that a device with `vq_pairs`
    /// queue pairs requires, and has the header length the device works with.
    pub open spec fn fits(self, vq_pairs: nat) -> bool {
        &&& missing_flags(self.if_flags, vq_pairs).len() == 0
        &&& self.vnet_hdr_size == VNET_HDR_LEN
    }
}

/// The length in bytes of the virtio-net header.
pub fn vnet_hdr_len() -> (len: usize)
    ensures
        len == VNET_HDR_LEN,
{
    VNET_HDR_LEN
}

/// Collects the required flags that `if_flags` lacks.
fn collect_missing_flags(if_flags: u32, vq_pairs: usize) -> (missing: Vec<TapFlag>)
    ensures
        missing@ == missing_flags(if_flags, vq_pairs as nat),
{
    let required: [TapFlag; 4] = [TapFlag::Tap, TapFlag::NoPi, TapFlag::VnetHdr, TapFlag::MultiQueue];
    let count: usize = if vq_pairs > 1 {
        4
    } else {
        3
    };
    assert(required@.take(count as int) =~= required_flags(vq_pairs as nat));
    let mut missing: Vec<TapFlag> = Vec::new();
    let mut i: usize = 0;
    while i < count
        invariant
            i <= count <= 4,
            required@.len() == 4,
            missing@ == missing_among(if_flags, required@.take(i as int)),
        decreases count - i,
    {
        let flag = required[i];
        assert(required@.take(i + 1).drop_last() =~= required@.take(i as int));
        if flag.mask() & if_flags == 0 {
            missing.push(flag);
        }
        i += 1;
    }
    missing
}

/// Writes the names of `flags`, separated by ", ".
fn join_flag_names(flags: &Vec<TapFlag>) -> (names: String)
    ensures
        names@ == flag_names(flags@),
{
    let mut names = String::new();
    let mut i: usize = 0;
    while i < flags.len()
        invariant
            i <= flags.len(),
            names@ == flag_names(flags@.take(i as int)),
        decreases flags.len() - i,
    {
        assert(flags@.take(i + 1).drop_last() =~= flags@.take(i as int));
        if i > 0 {
            names.append(", ");
        }
        names.append(flags[i].name());
        i += 1;
    }
    assert(flags@.take(flags.len() as int) =~= flags@);
    names
}

/// Ensures that the tap interface has the correct flags and sets the
/// offload and VNET header size to the appropriate values.
///
/// Every missing flag is reported, in one error; the tap is then left as it
/// was.
pub fn validate_and_configure_tap(tap: &mut Tap, vq_pairs: usize) -> (result: Result<
    (),
    VhostNetError,
>)
    ensures
        result is Ok <==> missing_flags(old(tap).if_flags, vq_pairs as nat).len() == 0,
        result is Ok ==> *final(tap) == (Tap {
            if_flags: old(tap).if_flags,
            offload: TAP_OFFLOADS,
            vnet_hdr_size: VNET_HDR_LEN as i32,
        }),
        result is Err ==> *final(tap) == *old(tap),
        result matches Err(error) ==> error@ == VhostNetErrorView::MissingFlags(
            flag_names(missing_flags(old(tap).if_flags, vq_pairs as nat)),
        ),
{
    // Check if there are missing flags.
    let missing_flags = collect_missing_flags(tap.if_flags(), vq_pairs);
    if missing_flags.len() > 0 {
        return Err(VhostNetError::MissingFlags(join_flag_names(&missing_flags)));
    }
    tap.set_offload(TAP_OFFLOADS);
    tap.set_vnet_hdr_size(vnet_hdr_len() as i32);
    Ok(())
}

} // verus!
