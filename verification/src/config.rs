//! The configuration block that the guest reads and writes, and the MAC
//! address it holds.

use vstd::prelude::*;

verus! {

/// The number of bytes in a MAC address.
pub const MAC_ADDR_LEN: usize = 6;

/// The number of bytes in the configuration block.
pub const CONFIG_SPACE_SIZE: usize = 12;

/// The maximum transmission unit that a new device announces.
pub const DEFAULT_MTU: u16 = 1500;

/// A link-layer address.
#[derive(Clone, Copy, Debug, PartialEq, Eq)]
pub struct MacAddr {
    bytes: [u8; 6],
}

impl View for MacAddr {
    type V = Seq<u8>;

    closed spec fn view(&self) -> Seq<u8> {
        self.bytes@
    }
}

impl MacAddr {
    /// The address made of `bytes`, first byte first.
    pub fn from_bytes(bytes: [u8; 6]) -> (mac: MacAddr)
        ensures
            mac@ == bytes@,
    {
        MacAddr { bytes }
    }

    /// The six bytes of the address, first byte first.
    pub fn get_bytes(&self) -> (bytes: [u8; 6])
        ensures
            bytes@ == self@,
    {
        self.bytes
    }

    /// An address always has six bytes.
    pub proof fn lemma_len(self)
        ensures
            self@.len() == MAC_ADDR_LEN,
    {
    }
}

/// The low byte of `value`, then its high byte.
pub open spec fn le_bytes(value: u16) -> Seq<u8> {
    seq![(value % 256) as u8, (value / 256) as u8]
}

/// The MAC address of a configuration block made for `guest_mac`: the
/// address itself, or six zero bytes where there is none.
pub open spec fn mac_bytes(guest_mac: Option<Seq<u8>>) -> Seq<u8> {
    match guest_mac {
        Some(bytes) => bytes,
        None => Seq::new(MAC_ADDR_LEN as nat, |i: int| 0u8),
    }
}

/// The bytes of a new configuration block: the MAC address, a zero status,
/// the number of queue pairs and the MTU, the last two little-endian.
pub open spec fn initial_config(guest_mac: Option<Seq<u8>>, vq_pairs: u16, mtu: u16) -> Seq<u8> {
    mac_bytes(guest_mac) + seq![0u8, 0u8] + le_bytes(vq_pairs) + le_bytes(mtu)
}

/// Whether a guest access of `len` bytes at `offset` addresses the block at
/// all: it starts inside the block and its end can be computed.
pub open spec fn read_accepted(offset: u64, len: nat) -> bool {
    offset < CONFIG_SPACE_SIZE && offset + len <= u64::MAX
}

/// What a read at `offset` leaves in a buffer that held `data`: as many
/// bytes of the block as the block has from `offset` on and the buffer has
/// room for, then the rest of the buffer untouched. A rejected read leaves
/// the whole buffer untouched.
pub open spec fn read_outcome(config: Seq<u8>, offset: u64, data: Seq<u8>) -> Seq<u8> {
    if read_accepted(offset, data.len()) {
        let count = if data.len() <= config.len() - offset {
            data.len() as int
        } else {
            config.len() - offset
        };
        config.subrange(offset as int, offset + count) + data.subrange(count, data.len() as int)
    } else {
        data
    }
}

/// Whether a guest write of `len` bytes at `offset` lies inside the block.
pub open spec fn write_accepted(offset: u64, len: nat) -> bool {
    offset < CONFIG_SPACE_SIZE && offset + len <= CONFIG_SPACE_SIZE
}

/// The block after a write of `data` at `offset`: `data` in place of the
/// bytes it covers, or the block as it was where the write is rejected.
pub open spec fn write_outcome(config: Seq<u8>, offset: u64, data: Seq<u8>) -> Seq<u8> {
    if write_accepted(offset, data.len()) {
        config.subrange(0, offset as int) + data + config.subrange(
            offset + data.len(),
            config.len() as int,
        )
    } else {
        config
    }
}

/// The guest-visible configuration block: MAC address, status, number of
/// queue pairs and MTU, twelve bytes in all.
#[derive(Clone, Copy, Debug, PartialEq, Eq)]
pub struct ConfigSpace {
    bytes: [u8; 12],
}

impl View for ConfigSpace {
    type V = Seq<u8>;

    closed spec fn view(&self) -> Seq<u8> {
        self.bytes@
    }
}

impl ConfigSpace {
    /// The block always has twelve bytes.
    pub proof fn lemma_len(self)
        ensures
            self@.len() == CONFIG_SPACE_SIZE,
    {
    }

    /// The block of a new device.
    pub fn new(guest_mac: Option<MacAddr>, vq_pairs: u16, mtu: u16) -> (config: ConfigSpace)
        ensures
            config@ == initial_config(
                match guest_mac {
                    Some(mac) => Some(mac@),
                    None => None,
                },
                vq_pairs,
                mtu,
            ),
    {
        let mac: [u8; 6] = match guest_mac {
            Some(mac) => mac.get_bytes(),
            None => [0u8; 6],
        };
        let bytes: [u8; 12] = [
            mac[0],
            mac[1],
            mac[2],
            mac[3],
            mac[4],
            mac[5],
            0,
            0,
            (vq_pairs % 256) as u8,
            (vq_pairs / 256) as u8,
            (mtu % 256) as u8,
            (mtu / 256) as u8,
        ];
        let config = ConfigSpace { bytes };
        assert(config@ =~= initial_config(
            match guest_mac {
                Some(mac) => Some(mac@),
                None => None,
            },
            vq_pairs,
            mtu,
        ));
        config
    }

    /// The MAC address that the block holds.
    pub fn guest_mac(&self) -> (mac: MacAddr)
        ensures
            mac@ == self@.subrange(0, MAC_ADDR_LEN as int),
    {
        let bytes: [u8; 6] = [
            self.bytes[0],
            self.bytes[1],
            self.bytes[2],
            self.bytes[3],
            self.bytes[4],
            self.bytes[5],
        ];
        assert(bytes@ =~= self@.subrange(0, MAC_ADDR_LEN as int));
        MacAddr::from_bytes(bytes)
    }

    /// The bytes of the block.
    pub fn as_bytes(&self) -> (bytes: [u8; 12])
        ensures
            bytes@ == self@,
    {
        self.bytes
    }

    /// Copies bytes of the block, from `offset` on, to the front of `data`,
    /// and says whether the read was accepted.
    ///
    /// A read that starts at or beyond the end of the block, or whose end
    /// cannot be computed, is not accepted and copies nothing.
    pub fn read(&self, offset: u64, data: &mut [u8]) -> (accepted: bool)
        ensures
            accepted == read_accepted(offset, old(data)@.len()),
            final(data)@ == read_outcome(self@, offset, old(data)@),
    {
        if offset >= CONFIG_SPACE_SIZE as u64 {
            return false;
        }
        if offset.checked_add(data.len() as u64).is_none() {
            return false;
        }
        let start: usize = offset as usize;
        let available: usize = CONFIG_SPACE_SIZE - start;
        let count: usize = if data.len() <= available {
            data.len()
        } else {
            available
        };
        let mut i: usize = 0;
        while i < count
            invariant
                i <= count,
                count <= data@.len(),
                start + count <= CONFIG_SPACE_SIZE,
                data@.len() == old(data)@.len(),
                forall|k: int| 0 <= k < i ==> data@[k] == self@[start + k],
                forall|k: int| i <= k < data@.len() ==> data@[k] == old(data)@[k],
            decreases count - i,
        {
            data[i] = self.bytes[start + i];
            i += 1;
        }
        assert(data@ =~= read_outcome(self@, offset, old(data)@));
        true
    }

    /// Copies `data` into the block at `offset`, and says whether it did.
    ///
    /// A write that does not lie inside the block changes nothing.
    pub fn write(&mut self, offset: u64, data: &[u8]) -> (written: bool)
        ensures
            written == write_accepted(offset, data@.len()),
            final(self)@ == write_outcome(old(self)@, offset, data@),
    {
        if offset >= CONFIG_SPACE_SIZE as u64 {
            return false;
        }
        let start: usize = offset as usize;
        if data.len() > CONFIG_SPACE_SIZE - start {
            return false;
        }
        let mut i: usize = 0;
        while i < data.len()
            invariant
                i <= data@.len(),
                start + data@.len() <= CONFIG_SPACE_SIZE,
                forall|k: int| 0 <= k < start ==> self@[k] == old(self)@[k],
                forall|k: int| 0 <= k < i ==> self@[start + k] == data@[k],
                forall|k: int| start + i <= k < CONFIG_SPACE_SIZE ==> self@[k] == old(self)@[k],
            decreases data@.len() - i,
        {
            self.bytes[start + i] = data[i];
            i += 1;
        }
        assert(self@ =~= write_outcome(old(self)@, offset, data@));
        true
    }
}

} // verus!
