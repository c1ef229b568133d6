//! Word-addressed memory and its side of the bus protocol.
use vstd::prelude::*;
use crate::bus::Bus;
use crate::bus::BusState;
use crate::cpu::Data;
use crate::cpu::Pointer;
use crate::fault::Fault;

verus! {

/// A store of words indexed by address.
pub trait Addressable {
    /// The words held, by address.
    spec fn cells(&self) -> Seq<u8>;

    fn read(&self, address: usize) -> (r: u8)
        requires
            address < self.cells().len(),
        ensures
            r == self.cells()[address as int],
    ;

    /// The slot at `address`, for the caller to store into.
    fn write(&mut self, address: usize) -> (r: &mut u8)
        requires
            address < old(self).cells().len(),
        ensures
            *r == old(self).cells()[address as int],
            final(self).cells() == old(self).cells().update(address as int, *final(r)),
    ;
}

/// `M` words, zero at creation.
#[derive(Debug)]
pub struct MemoryBlock<const M: usize> {
    memory: Vec<u8>,
}

impl<const M: usize> View for MemoryBlock<M> {
    type V = Seq<u8>;

    closed spec fn view(&self) -> Seq<u8> {
        self.memory@
    }
}

impl<const M: usize> MemoryBlock<M> {
    /// The block holds exactly `M` words.
    pub open spec fn wf(&self) -> bool {
        self@.len() == M
    }
}

impl<const M: usize> Addressable for MemoryBlock<M> {
    open spec fn cells(&self) -> Seq<u8> {
        self@
    }

    fn read(&self, address: usize) -> (r: u8) {
        self.memory[address]
    }

    fn write(&mut self, address: usize) -> (r: &mut u8) {
        &mut self.memory[address]
    }
}

impl<const M: usize> Default for MemoryBlock<M> {
    fn default() -> (r: Self)
        ensures
            r.wf(),
            r@ == Seq::new(M as nat, |i: int| 0u8),
    {
        let mut memory: Vec<u8> = Vec::new();
        while memory.len() < M
            invariant
                memory.len() <= M,
                forall|i: int| 0 <= i < memory.len() ==> memory@[i] == 0u8,
            decreases M - memory.len(),
        {
            memory.push(0u8);
        }
        let r = MemoryBlock { memory };
        assert(r@ =~= Seq::new(M as nat, |i: int| 0u8));
        r
    }
}

/// What memory does with the bus in one tick: the bus with the pending
/// request answered and the memory with its effect, or the fault the
/// request raises.
pub open spec fn memory_step(bus: Bus<Pointer, Data>, mem: Seq<u8>) -> Result<
    (Bus<Pointer, Data>, Seq<u8>),
    Fault,
> {
    match bus.instruction {
        BusState::Null => Ok((bus, mem)),
        BusState::Read => match (bus.address, bus.data) {
            (Some(a), None) => if (a as int) < mem.len() {
                Ok((Bus { instruction: BusState::Null, address: None, data: Some(mem[a as int]) }, mem))
            } else {
                Err(Fault::AddressOutOfRange(a))
            },
            _ => Err(Fault::BusProtocol),
        },
        BusState::Write => match (bus.address, bus.data) {
            (Some(a), Some(d)) => if (a as int) < mem.len() {
                Ok((Bus { instruction: BusState::Null, address: None, data: None }, mem.update(a as int, d)))
            } else {
                Err(Fault::AddressOutOfRange(a))
            },
            _ => Err(Fault::BusProtocol),
        },
    }
}

/// Serves the request pending on the bus, if there is one. A request
/// that raises a fault leaves bus and memory as they were.
pub fn memory_cycle<const M: usize>(ram: &mut MemoryBlock<M>, bus: &mut Bus<Pointer, Data>) -> (r: Result<(), Fault>)
    ensures
        match memory_step(*old(bus), old(ram)@) {
            Ok((b, m)) => r is Ok && *final(bus) == b && final(ram)@ == m,
            Err(e) => r == Err::<(), Fault>(e) && *final(bus) == *old(bus) && final(ram)@ == old(ram)@,
        },
{
    let address = bus.address;
    let data = bus.data;
    match bus.get_instruction() {
        BusState::Read => match (address, data) {
            (Some(address), None) => {
                if (address as usize) < ram.memory.len() {
                    let _ = bus.complete_dispatch();
                    let read_back = ram.read(address as usize);
                    bus.fulfil_read(read_back);
                    Ok(())
                } else {
                    Err(Fault::AddressOutOfRange(address))
                }
            },
            _ => Err(Fault::BusProtocol),
        },
        BusState::Write => match (address, data) {
            (Some(address), Some(data)) => {
                if (address as usize) < ram.memory.len() {
                    let _ = bus.complete_dispatch();
                    *ram.write(address as usize) = data;
                    Ok(())
                } else {
                    Err(Fault::AddressOutOfRange(address))
                }
            },
            _ => Err(Fault::BusProtocol),
        },
        BusState::Null => Ok(()),
    }
}

/// A dispatched request makes the bus unavailable; once memory has
/// served it and the requester has taken the response, the bus is
/// available again. A read hands back the addressed word; a write stores
/// its word there.
pub proof fn lemma_bus_round_trip(bus: Bus<Pointer, Data>, mem: Seq<u8>, address: Pointer, data: Data)
    requires
        bus.available(),
        (address as int) < mem.len(),
    ensures
        !bus.with_read(address).available(),
        !bus.with_write(address, data).available(),
        ({
            let served = memory_step(bus.with_read(address), mem);
            &&& served is Ok
            &&& served.unwrap().0.data == Some(mem[address as int])
            &&& served.unwrap().1 == mem
            &&& served.unwrap().0.without_data().available()
        }),
        ({
            let served = memory_step(bus.with_write(address, data), mem);
            &&& served is Ok
            &&& served.unwrap().1 == mem.update(address as int, data)
            &&& served.unwrap().0.available()
        }),
{
}

} // verus!
