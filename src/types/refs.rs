//! Typed handles: byte offsets and table indices that carry the type of the
//! entity they refer to.

use std::marker::PhantomData;

use vstd::prelude::*;

use crate::parser::parse::Parse;
use crate::parser::{parsed, spec_u32, DecodeMode, FileParser, ParseError};

verus! {

/// The "no index" sentinel.
pub const NO_INDEX: u32 = 0xffff_ffff;

/// A byte offset from the start of the file to an entity of type `T`; zero
/// means absent where the reference is optional.
#[derive(Debug)]
#[verifier::reject_recursive_types(T)]
pub struct Ref<T> {
    pub offset: u32,
    pub _marker: PhantomData<T>,
}

impl<T> Ref<T> {
    /// A reference to the entity at `offset`.
    pub fn new(offset: u32) -> (r: Ref<T>)
        ensures
            r.offset == offset,
    {
        Ref { offset, _marker: PhantomData }
    }

    /// The byte offset.
    pub fn offset(&self) -> (r: u32)
        ensures
            r == self.offset,
    {
        self.offset
    }

    /// The reference is absent (offset zero).
    pub fn is_absent(&self) -> (r: bool)
        ensures
            r == (self.offset == 0),
    {
        self.offset == 0
    }
}

impl<T> Clone for Ref<T> {
    fn clone(&self) -> (r: Ref<T>)
        ensures
            r.offset == self.offset,
    {
        Ref { offset: self.offset, _marker: PhantomData }
    }
}

impl<T> Copy for Ref<T> {}

impl<T> PartialEq for Ref<T> {
    fn eq(&self, o: &Ref<T>) -> (r: bool) {
        self.offset == o.offset
    }
}

impl<T> vstd::std_specs::cmp::PartialEqSpecImpl for Ref<T> {
    open spec fn obeys_eq_spec() -> bool {
        true
    }

    open spec fn eq_spec(&self, o: &Ref<T>) -> bool {
        self.offset == o.offset
    }
}

impl<T> Eq for Ref<T> {}

/// A zero-based position in the table that holds entities of type `T`;
/// [`NO_INDEX`] means absent where the index is optional.
#[derive(Debug)]
#[verifier::reject_recursive_types(T)]
pub struct Idx<T> {
    pub idx: usize,
    pub _marker: PhantomData<T>,
}

impl<T> Idx<T> {
    /// An index to position `idx`.
    pub fn new(idx: usize) -> (r: Idx<T>)
        ensures
            r.idx == idx,
    {
        Idx { idx, _marker: PhantomData }
    }

    /// The position.
    pub fn index(&self) -> (r: usize)
        ensures
            r == self.idx,
    {
        self.idx
    }

    /// The position, or nothing for the "no index" sentinel.
    pub fn get(&self) -> (r: Option<usize>)
        ensures
            self.idx == NO_INDEX ==> r is None,
            self.idx != NO_INDEX ==> r == Some(self.idx),
    {
        if self.idx == NO_INDEX as usize {
            None
        } else {
            Some(self.idx)
        }
    }
}

impl<T> Clone for Idx<T> {
    fn clone(&self) -> (r: Idx<T>)
        ensures
            r.idx == self.idx,
    {
        Idx { idx: self.idx, _marker: PhantomData }
    }
}

impl<T> Copy for Idx<T> {}

impl<T> PartialEq for Idx<T> {
    fn eq(&self, o: &Idx<T>) -> (r: bool) {
        self.idx == o.idx
    }
}

impl<T> vstd::std_specs::cmp::PartialEqSpecImpl for Idx<T> {
    open spec fn obeys_eq_spec() -> bool {
        true
    }

    open spec fn eq_spec(&self, o: &Idx<T>) -> bool {
        self.idx == o.idx
    }
}

impl<T> Eq for Idx<T> {}

impl<T> Parse for Ref<T> {
    open spec fn spec_parse(mode: DecodeMode, s: Seq<u8>, pos: int) -> Result<(Ref<T>, int), ParseError> {
        match spec_u32(s, pos) {
            Ok((v, n)) => Ok((Ref { offset: v, _marker: PhantomData }, n)),
            Err(e) => Err(e),
        }
    }

    fn parse(p: &mut FileParser) -> (r: Result<Ref<T>, ParseError>) {
        match p.read_u32() {
            Ok(v) => Ok(Ref::new(v)),
            Err(e) => Err(e),
        }
    }
}

impl<T> Parse for Idx<T> {
    open spec fn spec_parse(mode: DecodeMode, s: Seq<u8>, pos: int) -> Result<(Idx<T>, int), ParseError> {
        match spec_u32(s, pos) {
            Ok((v, n)) => Ok((Idx { idx: v as usize, _marker: PhantomData }, n)),
            Err(e) => Err(e),
        }
    }

    fn parse(p: &mut FileParser) -> (r: Result<Idx<T>, ParseError>) {
        match p.read_u32() {
            Ok(v) => Ok(Idx::new(v as usize)),
            Err(e) => Err(e),
        }
    }
}

} // verus!
