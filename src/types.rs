use vstd::prelude::*;

verus! {

/// The two addressable spaces that hold data behind an address.
#[derive(Clone, Copy, Debug, PartialEq, Eq, Structural)]
pub enum Space {
    /// Linear, byte-addressed scratch space.
    Memory,
    /// Persistent, word-addressed space.
    Storage,
}

/// Where the value of an expression resides once it is evaluated.
#[derive(Clone, Copy, Debug, PartialEq, Eq, Structural)]
pub enum Location {
    /// The value itself, held transiently.
    Value,
    /// The address of the value in memory.
    Memory,
    /// The slot of the value in storage, with the key metadata that located it.
    Storage { nonce: Option<u64> },
}

/// The shape of a type whose footprint is known statically.
#[derive(Clone, Copy, Debug, PartialEq, Eq, Structural)]
pub enum Shape {
    /// Fits in one machine word.
    Scalar,
    /// A sequence of elements spanning several words.
    Array,
    /// A record of named fields spanning several words.
    Struct,
}

/// A type with a statically known footprint.
#[derive(Clone, Copy, Debug, PartialEq, Eq, Structural)]
pub struct FixedSize {
    pub shape: Shape,
    /// The footprint, in bytes.
    pub size: u64,
}

/// A resolved type: either of fixed size, or a key-value mapping, which has no footprint.
#[derive(Clone, Copy, Debug, PartialEq, Eq, Structural)]
pub enum Type {
    Fixed(FixedSize),
    Mapping,
}

impl Type {
    /// Whether this is a struct type.
    pub open spec fn is_struct(self) -> bool {
        self matches Type::Fixed(t) && t.shape == Shape::Struct
    }
}

/// What the analysis attaches to an expression.
#[derive(Clone, Copy, Debug, PartialEq, Eq, Structural)]
pub struct ExpressionAttributes {
    pub typ: Type,
    /// The location the expression evaluates to.
    pub location: Location,
    /// Where the data is moved to once indirection is resolved, if anywhere.
    pub move_location: Option<Location>,
}

impl ExpressionAttributes {
    /// The space that the data occupies once all indirection is resolved.
    pub open spec fn spec_final_location(self) -> Location {
        match self.move_location {
            Some(loc) => loc,
            None => self.location,
        }
    }

    /// The final location of the expression: its move location where it has
    /// one, else the location it evaluates to.
    pub fn final_location(&self) -> (r: Location)
        ensures
            r == self.spec_final_location(),
    {
        match self.move_location {
            Some(loc) => loc,
            None => self.location,
        }
    }
}

} // verus!
