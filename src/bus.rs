//! The request/response channel between the processor and memory.
use vstd::prelude::*;

verus! {

/// What was left in the bus slots when memory took up a request.
pub struct BusResponse<Address, Data> {
    pub address: Option<Address>,
    pub data: Option<Data>,
}

/// The request that is pending on the bus, if any.
#[derive(Debug, Clone, Copy, PartialEq, Eq, Structural)]
pub enum BusState {
    Null,
    Read,
    Write,
}

/// A single-holder mailbox: a request state and two slots, one for an
/// address and one for a data word.
#[derive(Debug)]
pub struct Bus<Address, Data> {
    pub instruction: BusState,
    pub address: Option<Address>,
    pub data: Option<Data>,
}

impl<Address, Data> Bus<Address, Data> {
    /// No request is pending and both slots are empty.
    pub open spec fn available(&self) -> bool {
        self.instruction == BusState::Null && self.address is None && self.data is None
    }

    /// The bus after a read of `address` has been dispatched.
    pub open spec fn with_read(self, address: Address) -> Self {
        Bus { instruction: BusState::Read, address: Some(address), data: self.data }
    }

    /// The bus after a write of `data` to `address` has been dispatched.
    pub open spec fn with_write(self, address: Address, data: Data) -> Self {
        Bus { instruction: BusState::Write, address: Some(address), data: Some(data) }
    }

    /// The bus once its data slot has been taken.
    pub open spec fn without_data(self) -> Self {
        Bus { instruction: self.instruction, address: self.address, data: None }
    }

    pub fn is_avaliable(&self) -> (r: bool)
        ensures
            r == self.available(),
    {
        match self.instruction {
            BusState::Null => self.address.is_none() && self.data.is_none(),
            _ => false,
        }
    }

    pub fn get_instruction(&self) -> (r: BusState)
        ensures
            r == self.instruction,
    {
        self.instruction
    }

    /// Takes the word out of the data slot, leaving it empty.
    pub fn read_data(&mut self) -> (r: Option<Data>)
        ensures
            r == old(self).data,
            *final(self) == old(self).without_data(),
    {
        self.data.take()
    }

    /// Asks memory for the word at `address`. Only an available bus takes
    /// a request.
    pub fn dispatch_read(&mut self, address: Address) -> (r: Option<()>)
        requires
            old(self).available(),
        ensures
            r == Some(()),
            *final(self) == old(self).with_read(address),
    {
        self.instruction = BusState::Read;
        self.address = Some(address);
        Some(())
    }

    /// Asks memory to store `data` at `address`. Only an available bus
    /// takes a request.
    pub fn dispatch_write(&mut self, address: Address, data: Data) -> (r: Option<()>)
        requires
            old(self).available(),
        ensures
            r == Some(()),
            *final(self) == old(self).with_write(address, data),
    {
        self.instruction = BusState::Write;
        self.address = Some(address);
        self.data = Some(data);
        Some(())
    }

    /// Memory's side of a transaction: the request is taken up, the bus
    /// returns to `Null`, and both slots are handed over and emptied.
    pub fn complete_dispatch(&mut self) -> (r: BusResponse<Address, Data>)
        ensures
            r.address == old(self).address,
            r.data == old(self).data,
            final(self).instruction == BusState::Null,
            final(self).address is None,
            final(self).data is None,
    {
        self.instruction = BusState::Null;
        BusResponse { address: self.address.take(), data: self.data.take() }
    }

    /// Memory's answer to a read: the word is placed in the data slot.
    pub fn fulfil_read(&mut self, data: Data)
        ensures
            final(self).instruction == old(self).instruction,
            final(self).address == old(self).address,
            final(self).data == Some(data),
    {
        self.data = Some(data);
    }
}

impl<Address, Data> Default for Bus<Address, Data> {
    fn default() -> (r: Self)
        ensures
            r.available(),
    {
        Bus { instruction: BusState::Null, address: None, data: None }
    }
}

} // verus!
