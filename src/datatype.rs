use vstd::prelude::*;

verus! {

/// The sample encodings the engine reads and writes.
///
/// An interleaved encoding keeps all channels of a frame side by side in one
/// buffer; a split encoding keeps one buffer per channel.
#[derive(Clone, Copy, Debug, PartialEq, Eq, Structural)]
pub enum Datatype {
    Float32I,
    Float64I,
    Int32I,
    Int16I,
    Float32S,
    Float64S,
    Int32S,
    Int16S,
}

/// The engine's numeric tag of an encoding.
pub open spec fn datatype_tag(d: Datatype) -> u32 {
    match d {
        Datatype::Float32I => 0,
        Datatype::Float64I => 1,
        Datatype::Int32I => 2,
        Datatype::Int16I => 3,
        Datatype::Float32S => 4,
        Datatype::Float64S => 5,
        Datatype::Int32S => 6,
        Datatype::Int16S => 7,
    }
}

/// Whether an encoding keeps one buffer per channel.
pub open spec fn datatype_is_split(d: Datatype) -> bool {
    match d {
        Datatype::Float32S | Datatype::Float64S | Datatype::Int32S | Datatype::Int16S => true,
        _ => false,
    }
}

impl Datatype {
    /// The engine's numeric tag of this encoding.
    pub fn to_soxr_datatype(&self) -> (r: u32)
        ensures
            r == datatype_tag(*self),
    {
        match self {
            Datatype::Float32I => 0,
            Datatype::Float64I => 1,
            Datatype::Int32I => 2,
            Datatype::Int16I => 3,
            Datatype::Float32S => 4,
            Datatype::Float64S => 5,
            Datatype::Int32S => 6,
            Datatype::Int16S => 7,
        }
    }

    /// Whether this encoding keeps one buffer per channel.
    pub fn is_split(&self) -> (r: bool)
        ensures
            r == datatype_is_split(*self),
    {
        match self {
            Datatype::Float32S | Datatype::Float64S | Datatype::Int32S | Datatype::Int16S => true,
            _ => false,
        }
    }
}

} // verus!
