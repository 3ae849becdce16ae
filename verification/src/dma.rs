//! Direct memory access (DMA): transfer configuration and the dispatch
//! table that routes the multiplexed completion interrupt to the owning
//! transfer.
//!
//! The controller raises one shared interrupt for all channels; its status
//! register holds one flag group per channel (channel `c`'s group starts at
//! bit `4 * c`). The dispatch table demultiplexes that vector: it maps a
//! status snapshot to the handle registered for the lowest-indexed signalled
//! channel. It does not itself wake tasks; task-visible completion is
//! layered on top with the same waker pattern as the edge-wait registry.
use vstd::prelude::*;

use crate::Error;
use crate::InputError;

verus! {

/// Number of slots in the dispatch table, one per completion channel.
pub const DMA_CHANNEL_COUNT: usize = 16;

/// Transfer direction.
#[derive(Debug, Eq, PartialEq, Structural, Copy, Clone)]
pub enum Direction {
    PeripheralToMemory,
    MemoryToPeripheral,
}

/// Increment and alignment parameters of a transfer, as the register
/// library's initialization struct encodes them.
#[derive(Debug, Eq, PartialEq, Structural, Copy, Clone)]
pub struct Config {
    pub direction: Direction,
    pub periph_increment: bool,
    pub mem_increment: bool,
    pub half_word_alignment: bool,
    pub circular: bool,
    pub very_high_priority: bool,
}

impl Config {
    /// The default transfer: peripheral to memory, no address increments,
    /// half-word alignment, circular mode, very high priority.
    pub fn new() -> (r: Self)
        ensures
            r == (Config {
                direction: Direction::PeripheralToMemory,
                periph_increment: false,
                mem_increment: false,
                half_word_alignment: true,
                circular: true,
                very_high_priority: true,
            }),
    {
        Config {
            direction: Direction::PeripheralToMemory,
            periph_increment: false,
            mem_increment: false,
            half_word_alignment: true,
            circular: true,
            very_high_priority: true,
        }
    }

    /// The default transfer reading from a peripheral into memory.
    pub fn new_peri_to_mem() -> (r: Self)
        ensures
            r == (Config { direction: Direction::PeripheralToMemory, ..Config::spec_default() }),
    {
        let mut conf = Self::new();
        conf.direction = Direction::PeripheralToMemory;
        conf
    }

    /// The default transfer writing from memory into a peripheral.
    pub fn new_mem_to_peri() -> (r: Self)
        ensures
            r == (Config { direction: Direction::MemoryToPeripheral, ..Config::spec_default() }),
    {
        let mut conf = Self::new();
        conf.direction = Direction::MemoryToPeripheral;
        conf
    }

    /// What `new` returns.
    pub open spec fn spec_default() -> Config {
        Config {
            direction: Direction::PeripheralToMemory,
            periph_increment: false,
            mem_increment: false,
            half_word_alignment: true,
            circular: true,
            very_high_priority: true,
        }
    }
}

/// The request-mapping register holds a five-bit request selector per
/// channel: channel 1's field at bits 0-4, channel 2's at bits 8-12,
/// channel 3's at bits 16-20. This computes the register's new value with
/// channel `channel`'s field replaced by `map_value`, leaving every other
/// bit untouched.
pub fn syscfg_map_update(cfgr3: u32, channel: u8, map_value: u8) -> (r: u32)
    requires
        1 <= channel <= 3,
        map_value < 32,
    ensures
        ({
            let shift = 8 * ((channel - 1) as u32);
            r == ((cfgr3 & !(0b11111u32 << shift)) | ((map_value as u32) << shift))
        }),
{
    let shift: u32 = 8 * ((channel - 1) as u32);
    (cfgr3 & !(0b11111u32 << shift)) | ((map_value as u32) << shift)
}

/// The channel the completion interrupt services for a given status
/// snapshot: the lowest-indexed channel whose flag group is signalled
/// (bit `4 * c` set), or nothing when no decoded channel is signalled.
pub open spec fn spec_decoded_channel(isr: u32) -> Option<u8> {
    if isr & 1 != 0 {
        Some(0u8)
    } else if isr & (1u32 << 4) != 0 {
        Some(1u8)
    } else if isr & (1u32 << 8) != 0 {
        Some(2u8)
    } else {
        None
    }
}

/// Decodes the controller's status snapshot to the serviced channel,
/// lowest index first.
pub fn decode_channel(isr: u32) -> (r: Option<u8>)
    ensures
        r == spec_decoded_channel(isr),
{
    if isr & 1 != 0 {
        Some(0)
    } else if isr & (1u32 << 4) != 0 {
        Some(1)
    } else if isr & (1u32 << 8) != 0 {
        Some(2)
    } else {
        None
    }
}

/// What the completion interrupt asks the glue to do: forward the hardware
/// completion call to this handle, if any, and clear this status bit in the
/// controller before returning, so the serviced pulse does not re-enter.
pub struct DispatchAction<H> {
    pub forward: Option<H>,
    pub clear_status_bit: Option<u32>,
}

/// Registry mapping each completion channel to the in-flight transfer that
/// owns it. One active registration per channel: registering a second
/// transfer while one is outstanding replaces it (a caller error — which
/// handle would receive the next completion is not defined).
pub struct TransferDispatchTable<H> {
    slots: Vec<Option<H>>,
}

impl<H> TransferDispatchTable<H> {
    pub closed spec fn spec_slots(self) -> Seq<Option<H>> {
        self.slots@
    }

    pub open spec fn wf(self) -> bool {
        self.spec_slots().len() == DMA_CHANNEL_COUNT
    }

    /// An empty table: no transfer registered on any channel.
    pub fn new() -> (r: Self)
        ensures
            r.wf(),
            forall|c: int| 0 <= c < DMA_CHANNEL_COUNT ==> r.spec_slots()[c] is None,
    {
        let mut slots: Vec<Option<H>> = Vec::new();
        let mut i: usize = 0;
        while i < DMA_CHANNEL_COUNT
            invariant
                i <= DMA_CHANNEL_COUNT,
                slots@.len() == i,
                forall|c: int| 0 <= c < i ==> slots@[c] is None,
            decreases DMA_CHANNEL_COUNT - i,
        {
            slots.push(None);
            i = i + 1;
        }
        TransferDispatchTable { slots }
    }

    /// Stores the transfer's handle at its channel's slot. A channel index
    /// out of the table's fixed range is rejected.
    pub fn register(&mut self, channel_index: u8, handle: H) -> (r: Result<(), Error<()>>)
        requires
            old(self).wf(),
        ensures
            final(self).wf(),
            channel_index >= DMA_CHANNEL_COUNT ==> r == Result::<(), Error<()>>::Err(
                Error::UserInput(InputError::InvalidChannel),
            ) && final(self).spec_slots() == old(self).spec_slots(),
            channel_index < DMA_CHANNEL_COUNT ==> r is Ok && final(self).spec_slots() == old(
                self,
            ).spec_slots().update(channel_index as int, Some(handle)),
    {
        if channel_index as usize >= DMA_CHANNEL_COUNT {
            return Err(Error::UserInput(InputError::InvalidChannel));
        }
        self.slots[channel_index as usize] = Some(handle);
        Ok(())
    }

    /// Whether a transfer is registered on `channel_index`.
    pub fn is_registered(&self, channel_index: u8) -> (r: bool)
        requires
            self.wf(),
            channel_index < DMA_CHANNEL_COUNT,
        ensures
            r == (self.spec_slots()[channel_index as int] is Some),
    {
        self.slots[channel_index as usize].is_some()
    }

    /// The completion interrupt: decodes the lowest signalled channel from
    /// the controller's status snapshot and takes the handle registered
    /// there, to be forwarded by the glue; the registration is cleared so a
    /// later, unrelated completion pulse cannot reach a finished transfer.
    /// A signalled channel nobody registered on, or a snapshot with no
    /// signalled channel, forwards nothing. The glue clears the returned
    /// status bit in the controller.
    pub fn handle_completion_interrupt(&mut self, isr: u32) -> (out: DispatchAction<H>)
        requires
            old(self).wf(),
        ensures
            final(self).wf(),
            spec_decoded_channel(isr) matches Some(c) ==> out.forward == old(self).spec_slots()[c
                as int] && final(self).spec_slots() == old(self).spec_slots().update(
                c as int,
                Option::<H>::None,
            ) && out.clear_status_bit == Some(1u32 << (4 * c as u32)),
            spec_decoded_channel(isr) is None ==> out.forward is None && final(self).spec_slots()
                == old(self).spec_slots() && out.clear_status_bit is None,
    {
        let channel_id = decode_channel(isr);
        match channel_id {
            Some(id) => {
                let handle = self.slots[id as usize].take();
                DispatchAction {
                    forward: handle,
                    clear_status_bit: Some(1u32 << (4 * (id as u32))),
                }
            },
            None => DispatchAction { forward: None, clear_status_bit: None },
        }
    }
}

} // verus!
