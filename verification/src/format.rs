//! Format metadata value types.
//!
//! Image formats are grouped into compatibility classes: two formats in the
//! same class can alias the same memory. A class is identified by its name.
//! [`ClearColorType`] says which component type a clear value for a color
//! format must use.

use vstd::prelude::*;

verus! {

/// A format compatibility class, identified by its name.
#[derive(Copy, Clone, Debug)]
pub struct CompatibilityClass {
    name: &'static str,
}

impl CompatibilityClass {
    /// The name identifying this class.
    pub closed spec fn spec_name(&self) -> Seq<char> {
        self.name@
    }

    /// Creates the class identified by `name`.
    pub fn new(name: &'static str) -> (class: Self)
        ensures
            class.spec_name() == name@,
    {
        CompatibilityClass { name }
    }

    /// Returns the name identifying this class.
    pub fn get_name(&self) -> (name: &'static str)
        ensures
            name@ == self.spec_name(),
    {
        self.name
    }
}

/// The component type a clear value for a color format must be given as.
#[derive(Copy, Clone, PartialEq, Eq, Structural, PartialOrd, Ord, Debug, Hash)]
pub enum ClearColorType {
    /// The clear value is four floating-point components.
    Float,
    /// The clear value is four signed 32-bit integer components.
    Int32,
    /// The clear value is four unsigned 32-bit integer components.
    Uint32,
}

} // verus!
