//! What the prototype shared by all string iterators exposes to the host.
//!
//! The prototype holds no mutable data. The host registers on it the step
//! operation as a method, and a tag by which generic inspection of objects
//! names the iterator's kind.

use vstd::prelude::*;
use crate::iterator::StringIterator;

verus! {

/// A text property with the flags under which the host registers it.
#[derive(Debug, Clone, Copy, PartialEq, Eq)]
pub struct TagProperty {
    pub value: &'static str,
    pub writable: bool,
    pub enumerable: bool,
    pub configurable: bool,
}

/// The members of the iterator prototype.
#[derive(Debug, Clone, Copy, PartialEq, Eq)]
pub struct IteratorPrototype {
    /// The name under which the step operation is registered.
    pub method: &'static str,
    /// The number of arguments that the step operation declares.
    pub method_length: usize,
    /// The tag that names the iterator's kind.
    pub to_string_tag: TagProperty,
}

impl<S> StringIterator<S> {
    /// The iterator prototype: the step operation as the method `next`, which
    /// declares no arguments, and the tag `String Iterator`, which can be
    /// reconfigured but neither written nor enumerated.
    pub fn create_prototype() -> (prototype: IteratorPrototype)
        ensures
            prototype.method@ == "next"@,
            prototype.method_length == 0,
            prototype.to_string_tag.value@ == "String Iterator"@,
            !prototype.to_string_tag.writable,
            !prototype.to_string_tag.enumerable,
            prototype.to_string_tag.configurable,
    {
        IteratorPrototype {
            method: "next",
            method_length: 0,
            to_string_tag: TagProperty {
                value: "String Iterator",
                writable: false,
                enumerable: false,
                configurable: true,
            },
        }
    }
}

} // verus!
