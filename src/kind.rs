//! The primitive kinds of the host runtime and their type-descriptor tags.

use vstd::prelude::*;

verus! {

/// One of the eight primitive kinds of the host runtime.
#[derive(Clone, Copy, Debug, PartialEq, Eq, Structural)]
pub enum PrimitiveKind {
    Boolean,
    Byte,
    Char,
    Short,
    Int,
    Long,
    Float,
    Double,
}

/// The one-character tag that names `k` in a type descriptor.
pub open spec fn tag_of(k: PrimitiveKind) -> char {
    match k {
        PrimitiveKind::Boolean => 'Z',
        PrimitiveKind::Byte => 'B',
        PrimitiveKind::Char => 'C',
        PrimitiveKind::Short => 'S',
        PrimitiveKind::Int => 'I',
        PrimitiveKind::Long => 'J',
        PrimitiveKind::Float => 'F',
        PrimitiveKind::Double => 'D',
    }
}

/// The primitive kind whose tag is `c`, if there is one.
pub open spec fn kind_of_tag(c: char) -> Option<PrimitiveKind> {
    if c == 'Z' {
        Some(PrimitiveKind::Boolean)
    } else if c == 'B' {
        Some(PrimitiveKind::Byte)
    } else if c == 'C' {
        Some(PrimitiveKind::Char)
    } else if c == 'S' {
        Some(PrimitiveKind::Short)
    } else if c == 'I' {
        Some(PrimitiveKind::Int)
    } else if c == 'J' {
        Some(PrimitiveKind::Long)
    } else if c == 'F' {
        Some(PrimitiveKind::Float)
    } else if c == 'D' {
        Some(PrimitiveKind::Double)
    } else {
        None
    }
}

/// The full type descriptor of a field of primitive kind `k`: its tag alone.
pub open spec fn primitive_descriptor(k: PrimitiveKind) -> Seq<char> {
    seq![tag_of(k)]
}

impl PrimitiveKind {
    /// The tag of this kind in type descriptors.
    pub fn type_tag(self) -> (r: char)
        ensures
            r == tag_of(self),
    {
        match self {
            PrimitiveKind::Boolean => 'Z',
            PrimitiveKind::Byte => 'B',
            PrimitiveKind::Char => 'C',
            PrimitiveKind::Short => 'S',
            PrimitiveKind::Int => 'I',
            PrimitiveKind::Long => 'J',
            PrimitiveKind::Float => 'F',
            PrimitiveKind::Double => 'D',
        }
    }

    /// The primitive kind that `c` tags, or `None` where `c` tags no primitive kind.
    pub fn from_tag(c: char) -> (r: Option<PrimitiveKind>)
        ensures
            r == kind_of_tag(c),
    {
        if c == 'Z' {
            Some(PrimitiveKind::Boolean)
        } else if c == 'B' {
            Some(PrimitiveKind::Byte)
        } else if c == 'C' {
            Some(PrimitiveKind::Char)
        } else if c == 'S' {
            Some(PrimitiveKind::Short)
        } else if c == 'I' {
            Some(PrimitiveKind::Int)
        } else if c == 'J' {
            Some(PrimitiveKind::Long)
        } else if c == 'F' {
            Some(PrimitiveKind::Float)
        } else if c == 'D' {
            Some(PrimitiveKind::Double)
        } else {
            None
        }
    }

    /// The type descriptor of a field of this kind, as the runtime spells it.
    pub fn descriptor(self) -> (r: &'static str)
        ensures
            r@ == primitive_descriptor(self),
    {
        proof {
            reveal_strlit("Z");
            reveal_strlit("B");
            reveal_strlit("C");
            reveal_strlit("S");
            reveal_strlit("I");
            reveal_strlit("J");
            reveal_strlit("F");
            reveal_strlit("D");
        }
        match self {
            PrimitiveKind::Boolean => "Z",
            PrimitiveKind::Byte => "B",
            PrimitiveKind::Char => "C",
            PrimitiveKind::Short => "S",
            PrimitiveKind::Int => "I",
            PrimitiveKind::Long => "J",
            PrimitiveKind::Float => "F",
            PrimitiveKind::Double => "D",
        }
    }
}

/// Each primitive kind is recovered from its tag, so no two kinds share a tag
/// and a descriptor built for one kind never names a field of another.
pub proof fn lemma_tag_identifies_kind(k1: PrimitiveKind, k2: PrimitiveKind)
    ensures
        kind_of_tag(tag_of(k1)) == Some(k1),
        k1 != k2 ==> tag_of(k1) != tag_of(k2),
        k1 != k2 ==> primitive_descriptor(k1) != primitive_descriptor(k2),
{
    if k1 != k2 {
        assert(primitive_descriptor(k1)[0] == tag_of(k1));
        assert(primitive_descriptor(k2)[0] == tag_of(k2));
    }
}

} // verus!
