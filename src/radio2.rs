use vstd::prelude::*;

use std::marker::PhantomData;

use crate::radio::TransitionError;

verus! {

/// Mode marker of a radio that is not configured.
pub struct Uninitialized;

/// Mode marker of a configured radio.
pub struct Configured;

/// Mode marker of an operating radio.
pub struct Operate;

/// Data held by the radio.
#[derive(Default, Debug)]
pub struct Data {
    _value: u32,
}

impl View for Data {
    type V = u32;

    closed spec fn view(&self) -> u32 {
        self._value
    }
}

/// A radio whose mode is only a type: no value of the mode is stored.
#[derive(Debug)]
pub struct Radio<State> {
    state: PhantomData<State>,
    data: Data,
}

impl<State> View for Radio<State> {
    type V = u32;

    /// The radio's data, which every transition carries over unchanged.
    closed spec fn view(&self) -> u32 {
        self.data@
    }
}

impl Default for Radio<Uninitialized> {
    fn default() -> (r: Self)
        ensures
            r@ == 0,
    {
        Radio { state: PhantomData, data: Data { _value: 0 } }
    }
}

impl Radio<Uninitialized> {
    pub fn get_data(&self) -> (r: &Data)
        ensures
            r@ == self@,
    {
        &self.data
    }

    /// Configures the radio.
    pub fn configure(self) -> (r: Result<Radio<Configured>, TransitionError>)
        ensures
            r matches Ok(c) && c@ == self@,
    {
        Ok(Radio { state: PhantomData, data: self.data })
    }
}

impl Radio<Configured> {
    /// Puts the radio into operation.
    pub fn operate(self) -> (r: Result<Radio<Operate>, TransitionError>)
        ensures
            r matches Ok(o) && o@ == self@,
    {
        Ok(Radio { state: PhantomData, data: self.data })
    }

    /// Takes the radio back to its unconfigured mode.
    pub fn standby(self) -> (r: Result<Radio<Uninitialized>, TransitionError>)
        ensures
            r matches Ok(u) && u@ == self@,
    {
        Ok(Radio { state: PhantomData, data: self.data })
    }
}

impl Radio<Operate> {
    /// Takes the radio back to its unconfigured mode.
    pub fn standby(self) -> (r: Result<Radio<Uninitialized>, TransitionError>)
        ensures
            r matches Ok(u) && u@ == self@,
    {
        Ok(Radio { state: PhantomData, data: self.data })
    }
}

} // verus!
