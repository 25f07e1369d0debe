//! Meshes: named vertex attributes, and slices of them to draw.
use vstd::prelude::*;
use crate::shade::{BaseType, BufferName};

verus! {

/// How the bits of an integer attribute are read.
#[derive(Clone, Copy, Debug, PartialEq, Eq, Structural)]
pub enum IntSubType {
    /// Read as an integer.
    IntRaw,
    /// Mapped to [0, 1] or [-1, 1].
    IntNormalized,
    /// Converted to a float as it is.
    IntAsFloat,
}

/// Width of an integer attribute.
#[derive(Clone, Copy, Debug, PartialEq, Eq, Structural)]
pub enum IntSize {
    U8,
    U16,
    U32,
}

/// Signedness of an integer attribute.
#[derive(Clone, Copy, Debug, PartialEq, Eq, Structural)]
pub enum SignFlag {
    Signed,
    Unsigned,
}

/// How a float attribute is read.
#[derive(Clone, Copy, Debug, PartialEq, Eq, Structural)]
pub enum FloatSubType {
    FloatDefault,
    FloatPrecision,
}

/// Width of a float attribute.
#[derive(Clone, Copy, Debug, PartialEq, Eq, Structural)]
pub enum FloatSize {
    F16,
    F32,
    F64,
}

/// The storage type of one element of a vertex attribute.
#[derive(Clone, Copy, Debug, PartialEq, Eq, Structural)]
pub enum AttribType {
    Int(IntSubType, IntSize, SignFlag),
    Float(FloatSubType, FloatSize),
}

/// Whether storage of type `t` can feed a shader input declared as `b`.
pub open spec fn compatible(t: AttribType, b: BaseType) -> bool {
    match (t, b) {
        (AttribType::Int(IntSubType::IntRaw, _, _), BaseType::BaseI32) => true,
        (AttribType::Int(IntSubType::IntRaw, _, SignFlag::Unsigned), BaseType::BaseU32) => true,
        (AttribType::Int(IntSubType::IntRaw, _, _), _) => false,
        (AttribType::Int(_, _, _), BaseType::BaseF32) => true,
        (AttribType::Float(FloatSubType::FloatPrecision, FloatSize::F64), BaseType::BaseF64) => true,
        (AttribType::Float(_, _), BaseType::BaseF32) => true,
        _ => false,
    }
}

impl AttribType {
    /// Whether this storage type can feed a shader input declared as `b`.
    pub fn is_compatible(&self, b: BaseType) -> (r: bool)
        ensures
            r == compatible(*self, b),
    {
        match (*self, b) {
            (AttribType::Int(IntSubType::IntRaw, _, _), BaseType::BaseI32) => true,
            (AttribType::Int(IntSubType::IntRaw, _, SignFlag::Unsigned), BaseType::BaseU32) => true,
            (AttribType::Int(IntSubType::IntRaw, _, _), _) => false,
            (AttribType::Int(_, _, _), BaseType::BaseF32) => true,
            (AttribType::Float(FloatSubType::FloatPrecision, FloatSize::F64), BaseType::BaseF64) => true,
            (AttribType::Float(_, _), BaseType::BaseF32) => true,
            _ => false,
        }
    }
}

/// One named vertex attribute of a mesh.
#[derive(Clone, Debug, PartialEq, Eq)]
pub struct Attribute {
    pub name: String,
    pub buffer: BufferName,
    pub elem_count: u8,
    pub elem_type: AttribType,
    pub stride: u8,
    pub offset: u32,
}

/// A set of named vertex attributes.
#[derive(Clone, Debug, PartialEq, Eq)]
pub struct Mesh {
    pub num_vertices: u32,
    pub attributes: Vec<Attribute>,
}

/// Primitive topology.
#[derive(Clone, Copy, Debug, PartialEq, Eq, Structural)]
pub enum PrimitiveType {
    Point,
    Line,
    LineStrip,
    TriangleList,
    TriangleStrip,
    TriangleFan,
}

/// Width of one element of an index buffer.
#[derive(Clone, Copy, Debug, PartialEq, Eq, Structural)]
pub enum IndexType {
    U8,
    U16,
    U32,
}

/// Which part of a mesh to draw: a vertex range, or an index range of an
/// index buffer with 8, 16 or 32 bit elements.
#[derive(Clone, Copy, Debug, PartialEq, Eq, Structural)]
pub enum Slice {
    VertexSlice(PrimitiveType, u32, u32),
    IndexSlice8(PrimitiveType, BufferName, u32, u32),
    IndexSlice16(PrimitiveType, BufferName, u32, u32),
    IndexSlice32(PrimitiveType, BufferName, u32, u32),
}

/// Index of the first attribute named `name`, or -1 when there is none.
pub open spec fn find_attr(attrs: Seq<Attribute>, name: Seq<char>) -> int
    decreases attrs.len(),
{
    if attrs.len() == 0 {
        -1
    } else {
        let r = find_attr(attrs.drop_last(), name);
        if r >= 0 {
            r
        } else if attrs.last().name@ == name {
            attrs.len() - 1
        } else {
            -1
        }
    }
}

impl Mesh {
    /// Position of the first attribute named `name`, if any.
    pub fn find_attribute(&self, name: &String) -> (r: Option<usize>)
        ensures
            match r {
                Some(k) => k == find_attr(self.attributes@, name@) && k < self.attributes@.len(),
                None => find_attr(self.attributes@, name@) < 0,
            },
    {
        let mut j: usize = 0;
        while j < self.attributes.len()
            invariant
                j <= self.attributes@.len(),
                find_attr(self.attributes@.subrange(0, j as int), name@) < 0,
            decreases self.attributes@.len() - j,
        {
            let ghost pre = self.attributes@.subrange(0, j as int);
            let ghost next = self.attributes@.subrange(0, j + 1);
            assert(next.drop_last() =~= pre);
            if self.attributes[j].name == *name {
                proof {
                    lemma_find_attr_prefix(self.attributes@, name@, (j + 1) as nat);
                }
                return Some(j);
            }
            j = j + 1;
        }
        assert(self.attributes@.subrange(0, j as int) =~= self.attributes@);
        None
    }
}

/// A match found in a prefix is the match of the whole sequence.
pub proof fn lemma_find_attr_prefix(attrs: Seq<Attribute>, name: Seq<char>, n: nat)
    requires
        n <= attrs.len(),
        find_attr(attrs.subrange(0, n as int), name) >= 0,
    ensures
        find_attr(attrs, name) == find_attr(attrs.subrange(0, n as int), name),
    decreases attrs.len(),
{
    if n < attrs.len() {
        assert(attrs.drop_last().subrange(0, n as int) =~= attrs.subrange(0, n as int));
        lemma_find_attr_prefix(attrs.drop_last(), name, n);
    } else {
        assert(attrs.subrange(0, n as int) =~= attrs);
    }
}

} // verus!
