//! A labelled generic wrapper: stores any value next to a fixed greeting.

use vstd::prelude::*;

verus! {

/// A wrapper that owns one value of any type and a label.
pub struct Generic<T> {
    name: String,
    str_type: T,
}

impl<T> Generic<T> {
    /// The wrapped value.
    pub closed spec fn value(&self) -> T {
        self.str_type
    }

    /// The label the wrapper was built with.
    pub closed spec fn label(&self) -> Seq<char> {
        self.name@
    }

    /// Wrap a value; the label is always the same greeting.
    pub fn new(any: T) -> (g: Self)
        ensures
            g.value() == any,
            g.label() == "Hello World"@,
    {
        Generic { name: "Hello World".to_owned(), str_type: any }
    }

    /// Borrow the wrapped value: exactly the one `new` was given.
    pub fn get(&self) -> (r: &T)
        ensures
            *r == self.value(),
    {
        &self.str_type
    }
}

} // verus!
