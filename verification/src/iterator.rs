//! The iteration state and its step operation.
//!
//! An iterator is created over a source value and starts at cursor 0. Each
//! step asks the host for the source's current UTF-16 encoding, decodes the
//! code point at the cursor and yields its code units. A step that finds the
//! cursor at or behind the end exhausts the iterator, for good.

use vstd::prelude::*;
use vstd::slice::slice_subrange;
use vstd::slice::slice_to_vec;
use crate::code_point::code_point_at;
use crate::code_point::unit_count_at;

verus! {

/// Where an iteration stands: at a cursor, counted in code units, or at its
/// end, which it never leaves.
pub enum IterationState {
    Active(nat),
    Exhausted,
}

/// The state after one step over the encoding `units`, and the code units
/// that the step yields, if it yields any.
pub open spec fn step(state: IterationState, units: Seq<u16>) -> (IterationState, Option<Seq<u16>>) {
    match state {
        IterationState::Exhausted => (IterationState::Exhausted, None),
        IterationState::Active(cursor) => if cursor >= units.len() {
            (IterationState::Exhausted, None)
        } else {
            let end = cursor + unit_count_at(units, cursor as int);
            (IterationState::Active(end as nat), Some(units.subrange(cursor as int, end)))
        },
    }
}

/// The outcome of one step in the shape that consumers of an iteration expect:
/// a value, or `done` and no value.
#[derive(Debug, Clone, PartialEq, Eq)]
pub struct IterResult {
    pub value: Option<Vec<u16>>,
    pub done: bool,
}

impl IterResult {
    /// The code units of the value, if there is one.
    pub open spec fn yielded(&self) -> Option<Seq<u16>> {
        match self.value {
            Some(units) => Some(units@),
            None => None,
        }
    }

    /// The result carries a value exactly if the iteration is not done, and
    /// its value is `yielded`.
    pub open spec fn reports(&self, yielded: Option<Seq<u16>>) -> bool {
        &&& self.yielded() == yielded
        &&& self.done == (yielded is None)
    }
}

/// Why a step failed.
#[derive(Debug, Clone, PartialEq, Eq)]
pub enum StepError<E> {
    /// The receiver of the step carries no iteration state.
    ReceiverTypeMismatch,
    /// The host could not give the source's encoding; its error is handed on
    /// as it came.
    CoercionFailure(E),
}

/// The state of one iteration over a source value of type `S`.
#[derive(Debug, Clone)]
pub struct StringIterator<S> {
    string: Option<S>,
    next_index: usize,
}

/// A value that a step may be invoked on.
#[derive(Debug, Clone)]
pub enum Receiver<S> {
    /// An object that carries iteration state.
    Iterator(StringIterator<S>),
    /// Any other value.
    Other,
}

impl<S> StringIterator<S> {
    /// Where the iteration stands.
    pub closed spec fn state(&self) -> IterationState {
        match self.string {
            Some(_) => IterationState::Active(self.next_index as nat),
            None => IterationState::Exhausted,
        }
    }

    /// The source value, which an iterator holds until it is exhausted.
    pub closed spec fn source(&self) -> Option<S> {
        self.string
    }

    /// `after` and `result` are what a step leaves of `self`, given what the
    /// host made of the source: on a failure the iterator as it was and the
    /// host's error, else the outcome of `step` over the encoding.
    pub open spec fn steps_to<E>(
        &self,
        coerced: Result<Vec<u16>, E>,
        after: Self,
        result: Result<IterResult, StepError<E>>,
    ) -> bool {
        match coerced {
            Err(error) => after == *self && result == Err::<IterResult, StepError<E>>(
                StepError::CoercionFailure(error),
            ),
            Ok(units) => {
                let (state, yielded) = step(self.state(), units@);
                &&& after.state() == state
                &&& after.source() == if state is Exhausted {
                    None
                } else {
                    self.source()
                }
                &&& result matches Ok(r) && r.reports(yielded)
            },
        }
    }

    /// An iterator over `string`, at its start.
    pub fn new(string: S) -> (iterator: Self)
        ensures
            iterator.state() == IterationState::Active(0),
            iterator.source() == Some(string),
    {
        Self { string: Some(string), next_index: 0 }
    }

    /// A receiver that carries a new iterator over `string`.
    pub fn create_string_iterator(string: S) -> (receiver: Receiver<S>)
        ensures
            receiver matches Receiver::Iterator(iterator) && iterator.state()
                == IterationState::Active(0) && iterator.source() == Some(string),
    {
        Receiver::Iterator(Self::new(string))
    }

    /// The cursor of an active iterator; nothing once it is exhausted.
    pub fn cursor(&self) -> (cursor: Option<usize>)
        ensures
            match cursor {
                Some(index) => self.state() == IterationState::Active(index as nat),
                None => self.state() is Exhausted,
            },
    {
        match self.string {
            Some(_) => Some(self.next_index),
            None => None,
        }
    }

    /// Completes a step of an iterator with what the host made of its source.
    ///
    /// An error of the host is handed on and leaves the iterator as it was.
    /// Over an encoding, an iterator whose cursor is at or behind the end
    /// becomes exhausted and reports `done`; an exhausted one stays so.
    /// Otherwise the code point at the cursor is decoded, its one or two code
    /// units are yielded and the cursor moves behind them.
    pub fn resume<E>(&mut self, coerced: Result<Vec<u16>, E>) -> (result: Result<
        IterResult,
        StepError<E>,
    >)
        ensures
            old(self).steps_to(coerced, *final(self), result),
    {
        let units = match coerced {
            Ok(units) => units,
            Err(error) => {
                return Err(StepError::CoercionFailure(error));
            },
        };
        if self.string.is_none() {
            return Ok(IterResult { value: None, done: true });
        }
        let position: usize = self.next_index;
        if position >= units.len() {
            self.string = None;
            return Ok(IterResult { value: None, done: true });
        }
        let (_, code_unit_count, _) = code_point_at(units.as_slice(), position).unwrap();
        let end: usize = position + code_unit_count as usize;
        self.next_index = end;
        let value = slice_to_vec(slice_subrange(units.as_slice(), position, end));
        Ok(IterResult { value: Some(value), done: false })
    }

    /// One step of the iteration on `this`.
    ///
    /// A receiver without iteration state is refused, and an exhausted
    /// iterator reports `done`; neither asks the host for anything. An active
    /// iterator has `to_utf16` encode its source, on every step anew, and goes
    /// on as [`Self::resume`] says.
    pub fn next<E, F: Fn(&S) -> Result<Vec<u16>, E>>(this: &mut Receiver<S>, to_utf16: F) -> (result:
        Result<IterResult, StepError<E>>)
        requires
            *old(this) matches Receiver::Iterator(iterator) ==> (iterator.source() matches Some(
                string,
            ) ==> to_utf16.requires((&string,))),
        ensures
            match *old(this) {
                Receiver::Other => *final(this) == *old(this) && result == Err::<
                    IterResult,
                    StepError<E>,
                >(StepError::ReceiverTypeMismatch),
                Receiver::Iterator(iterator) => match iterator.source() {
                    None => *final(this) == *old(this) && (result matches Ok(r) && r.reports(
                        None,
                    )),
                    Some(string) => exists|coerced: Result<Vec<u16>, E>|
                        {
                            &&& to_utf16.ensures((&string,), coerced)
                            &&& *final(this) matches Receiver::Iterator(after)
                            &&& iterator.steps_to(coerced, after, result)
                        },
                },
            },
    {
        match this {
            Receiver::Iterator(iterator) => {
                let coerced = match &iterator.string {
                    Some(string) => to_utf16(string),
                    None => {
                        return Ok(IterResult { value: None, done: true });
                    },
                };
                iterator.resume(coerced)
            },
            Receiver::Other => Err(StepError::ReceiverTypeMismatch),
        }
    }
}

} // verus!
