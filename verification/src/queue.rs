//! The device's records of its virtqueues and of the event descriptors that
//! go with them.

use vstd::prelude::*;

verus! {

/// The record of one virtqueue: its size and where the guest placed it.
#[derive(Clone, Copy, Debug, PartialEq, Eq)]
pub struct Queue {
    /// The largest size the guest may choose.
    pub max_size: u16,
    /// The size in use.
    pub size: u16,
    /// Whether the guest has declared the queue ready.
    pub ready: bool,
    /// Guest address of the descriptor table.
    pub desc_table: u64,
    /// Guest address of the available ring.
    pub avail_ring: u64,
    /// Guest address of the used ring.
    pub used_ring: u64,
    /// The next available index to look at.
    pub next_avail: u16,
    /// The next used index to write.
    pub next_used: u16,
}

impl Queue {
    /// A queue of at most `max_size` descriptors that the guest has not set
    /// up yet.
    pub fn new(max_size: u16) -> (queue: Queue)
        ensures
            queue == Queue::fresh(max_size),
    {
        Queue {
            max_size,
            size: max_size,
            ready: false,
            desc_table: 0,
            avail_ring: 0,
            used_ring: 0,
            next_avail: 0,
            next_used: 0,
        }
    }

    /// The queue that `new` makes.
    pub open spec fn fresh(max_size: u16) -> Queue {
        Queue {
            max_size,
            size: max_size,
            ready: false,
            desc_table: 0,
            avail_ring: 0,
            used_ring: 0,
            next_avail: 0,
            next_used: 0,
        }
    }
}

/// The record of an event descriptor: the number under which the operating
/// system knows it.
#[derive(Clone, Copy, Debug, PartialEq, Eq)]
pub struct EventFd {
    pub fd: i32,
}

impl EventFd {
    /// The record of the descriptor numbered `fd`.
    pub fn new(fd: i32) -> (event: EventFd)
        ensures
            event == (EventFd { fd }),
    {
        EventFd { fd }
    }

    /// The number of the descriptor.
    pub fn as_raw_fd(&self) -> (fd: i32)
        ensures
            fd == self.fd,
    {
        self.fd
    }
}

/// What the device signals interrupts with.
#[derive(Clone, Copy, Debug, PartialEq, Eq)]
pub struct IrqTrigger {
    /// The descriptor that raises the interrupt.
    pub irq_evt: EventFd,
}

impl IrqTrigger {
    /// The trigger that raises interrupts through `irq_evt`.
    pub fn new(irq_evt: EventFd) -> (trigger: IrqTrigger)
        ensures
            trigger == (IrqTrigger { irq_evt }),
    {
        IrqTrigger { irq_evt }
    }
}

/// The queues of a device whose queue sizes are `sizes`: one fresh queue for
/// each size, in order.
pub open spec fn fresh_queues(sizes: Seq<u16>) -> Seq<Queue> {
    Seq::new(sizes.len(), |i: int| Queue::fresh(sizes[i]))
}

} // verus!
