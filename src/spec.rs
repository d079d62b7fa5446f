//! The engine's three configuration descriptors, held as plain values.
use vstd::prelude::*;

use crate::datatype::{datatype_tag, Datatype};

verus! {

/// Runtime settings of the engine: how many worker threads it may use.
#[derive(Clone, Copy, Debug, PartialEq, Eq, Structural)]
pub struct RuntimeSpec {
    num_threads: u32,
}

impl RuntimeSpec {
    /// The number of threads this descriptor records.
    pub closed spec fn spec_thread_count(&self) -> u32 {
        self.num_threads
    }

    /// A runtime descriptor for `num_threads` threads; zero asks the engine
    /// for its default.
    pub fn new(num_threads: u32) -> (r: RuntimeSpec)
        ensures
            r.spec_thread_count() == num_threads,
    {
        RuntimeSpec { num_threads }
    }

    /// The number of threads this descriptor records.
    pub fn thread_count(&self) -> (r: u32)
        ensures
            r == self.spec_thread_count(),
    {
        self.num_threads
    }
}

/// The sample encodings of the engine's input and output.
#[derive(Clone, Copy, Debug, PartialEq, Eq, Structural)]
pub struct IOSpec {
    input_type: Datatype,
    output_type: Datatype,
}

impl IOSpec {
    /// The encoding of the input.
    pub closed spec fn spec_input_type(&self) -> Datatype {
        self.input_type
    }

    /// The encoding of the output.
    pub closed spec fn spec_output_type(&self) -> Datatype {
        self.output_type
    }

    /// The I/O descriptor for the given input and output encodings.
    pub fn new(input_type: Datatype, output_type: Datatype) -> (r: IOSpec)
        ensures
            r.spec_input_type() == input_type,
            r.spec_output_type() == output_type,
            datatype_tag(r.spec_input_type()) == datatype_tag(input_type),
            datatype_tag(r.spec_output_type()) == datatype_tag(output_type),
    {
        IOSpec { input_type, output_type }
    }

    /// The encoding of the input.
    pub fn input_type(&self) -> (r: Datatype)
        ensures
            r == self.spec_input_type(),
    {
        self.input_type
    }

    /// The encoding of the output.
    pub fn output_type(&self) -> (r: Datatype)
        ensures
            r == self.spec_output_type(),
    {
        self.output_type
    }

    /// The engine's tag of the input encoding.
    pub fn itype(&self) -> (r: u32)
        ensures
            r == datatype_tag(self.spec_input_type()),
    {
        self.input_type.to_soxr_datatype()
    }

    /// The engine's tag of the output encoding.
    pub fn otype(&self) -> (r: u32)
        ensures
            r == datatype_tag(self.spec_output_type()),
    {
        self.output_type.to_soxr_datatype()
    }
}

/// The bits of all flags that `QualityFlags` knows.
pub const QUALITY_FLAGS_MASK: u64 = 43;

/// A set of modifiers of a quality preset.
///
/// The three roll-off flags exclude one another in the engine's eyes; the set
/// does not enforce that and hands on whatever was combined.
#[derive(Clone, Copy, Debug, PartialEq, Eq, Structural)]
pub struct QualityFlags {
    bits: u64,
}

impl QualityFlags {
    /// A small roll-off of the pass band (the engine's default; no bit).
    pub fn rolloff_small() -> (r: QualityFlags)
        ensures
            r.view_bits() == 0,
            r.wf(),
    {
        assert(0u64 & 43u64 == 0u64) by (bit_vector);
        QualityFlags { bits: 0 }
    }

    /// A medium roll-off of the pass band.
    pub fn rolloff_medium() -> (r: QualityFlags)
        ensures
            r.view_bits() == 1,
            r.wf(),
    {
        assert(1u64 & 43u64 == 1u64) by (bit_vector);
        QualityFlags { bits: 1 }
    }

    /// No roll-off of the pass band.
    pub fn rolloff_none() -> (r: QualityFlags)
        ensures
            r.view_bits() == 2,
            r.wf(),
    {
        assert(2u64 & 43u64 == 2u64) by (bit_vector);
        QualityFlags { bits: 2 }
    }

    /// A clock of higher precision.
    pub fn hi_prec_clock() -> (r: QualityFlags)
        ensures
            r.view_bits() == 8,
            r.wf(),
    {
        assert(8u64 & 43u64 == 8u64) by (bit_vector);
        QualityFlags { bits: 8 }
    }

    /// A variable conversion rate.
    pub fn vr() -> (r: QualityFlags)
        ensures
            r.view_bits() == 32,
            r.wf(),
    {
        assert(32u64 & 43u64 == 32u64) by (bit_vector);
        QualityFlags { bits: 32 }
    }

    /// The bits of the set.
    pub closed spec fn view_bits(&self) -> u64 {
        self.bits
    }

    /// A set holds only bits of known flags.
    pub open spec fn wf(&self) -> bool {
        self.view_bits() & QUALITY_FLAGS_MASK == self.view_bits()
    }

    /// The set with no flag.
    pub fn empty() -> (r: QualityFlags)
        ensures
            r.view_bits() == 0,
            r.wf(),
    {
        let r = QualityFlags { bits: 0 };
        assert(0u64 & 43u64 == 0u64) by (bit_vector);
        r
    }

    /// The set of all known flags.
    pub fn all() -> (r: QualityFlags)
        ensures
            r.view_bits() == QUALITY_FLAGS_MASK,
            r.wf(),
    {
        let r = QualityFlags { bits: QUALITY_FLAGS_MASK };
        assert(43u64 & 43u64 == 43u64) by (bit_vector);
        r
    }

    /// The bits of the set.
    pub fn bits(&self) -> (r: u64)
        ensures
            r == self.view_bits(),
    {
        self.bits
    }

    /// The set of the known flags among `bits`; other bits are dropped.
    pub fn from_bits_truncate(bits: u64) -> (r: QualityFlags)
        ensures
            r.view_bits() == bits & QUALITY_FLAGS_MASK,
            r.wf(),
    {
        let b = bits & QUALITY_FLAGS_MASK;
        assert(b == bits & 43u64 ==> b & 43u64 == b) by (bit_vector);
        QualityFlags { bits: b }
    }

    /// The flags of both sets.
    pub fn union(self, other: QualityFlags) -> (r: QualityFlags)
        ensures
            r.view_bits() == self.view_bits() | other.view_bits(),
            self.wf() && other.wf() ==> r.wf(),
    {
        let a = self.bits;
        let b = other.bits;
        assert(a & 43u64 == a && b & 43u64 == b ==> (a | b) & 43u64 == (a | b)) by (bit_vector);
        QualityFlags { bits: a | b }
    }

    /// Whether every flag of `other` is in this set.
    pub fn contains(&self, other: QualityFlags) -> (r: bool)
        ensures
            r == (self.view_bits() & other.view_bits() == other.view_bits()),
    {
        self.bits & other.bits == other.bits
    }
}

/// The engine's quality presets.
#[derive(Clone, Copy, Debug, PartialEq, Eq, Structural)]
pub enum QualityRecipe {
    Quick,
    Low,
    Medium,
    High,
    VeryHigh,
}

/// The engine's numeric preset of a recipe.
pub open spec fn recipe_tag(q: QualityRecipe) -> u32 {
    match q {
        QualityRecipe::Quick => 0,
        QualityRecipe::Low => 1,
        QualityRecipe::Medium => 2,
        QualityRecipe::High => 4,
        QualityRecipe::VeryHigh => 6,
    }
}

impl QualityRecipe {
    /// The engine's numeric preset of this recipe.
    pub fn to_recipe(&self) -> (r: u32)
        ensures
            r == recipe_tag(*self),
    {
        match self {
            QualityRecipe::Quick => 0,
            QualityRecipe::Low => 1,
            QualityRecipe::Medium => 2,
            QualityRecipe::High => 4,
            QualityRecipe::VeryHigh => 6,
        }
    }
}

/// A quality preset together with its modifier flags.
#[derive(Clone, Copy, Debug, PartialEq, Eq, Structural)]
pub struct QualitySpec {
    recipe: QualityRecipe,
    flags: QualityFlags,
}

impl QualitySpec {
    /// The preset of this descriptor.
    pub closed spec fn spec_recipe(&self) -> QualityRecipe {
        self.recipe
    }

    /// The flag bits this descriptor records.
    pub closed spec fn spec_flags(&self) -> u64 {
        self.flags.view_bits()
    }

    /// The quality descriptor of `quality` modified by `flags`.
    pub fn new(quality: &QualityRecipe, flags: QualityFlags) -> (r: QualitySpec)
        ensures
            r.spec_recipe() == *quality,
            r.spec_flags() == flags.view_bits(),
    {
        QualitySpec { recipe: *quality, flags }
    }

    /// The preset of this descriptor.
    pub fn recipe(&self) -> (r: QualityRecipe)
        ensures
            r == self.spec_recipe(),
    {
        self.recipe
    }

    /// The engine's numeric preset of this descriptor.
    pub fn recipe_tag(&self) -> (r: u64)
        ensures
            r == recipe_tag(self.spec_recipe()),
    {
        self.recipe.to_recipe() as u64
    }

    /// The flag bits this descriptor records.
    pub fn flags(&self) -> (r: u64)
        ensures
            r == self.spec_flags(),
    {
        self.flags.bits()
    }
}

/// A quality descriptor records the flags it was given: read back through
/// `from_bits_truncate`, its bits give exactly that set of known flags, with
/// no flag added and none lost, whatever the preset.
pub proof fn lemma_quality_spec_flags_round_trip(q: QualitySpec, flags: QualityFlags)
    requires
        flags.wf(),
        q.spec_flags() == flags.view_bits(),
    ensures
        q.spec_flags() & QUALITY_FLAGS_MASK == flags.view_bits(),
        forall|g: QualityFlags|
            g.wf() ==> ((q.spec_flags() & QUALITY_FLAGS_MASK) & g.view_bits() == g.view_bits()
                <==> flags.view_bits() & g.view_bits() == g.view_bits()),
{
}

} // verus!
