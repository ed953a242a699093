//! From the inputs that a vertex entry point declares to the layout of one
//! vertex in a buffer.
//!
//! Inputs bound to a numbered location are laid out in the order in which they
//! are declared, each right behind the one before it. Inputs bound to a
//! built-in take no room.

use vstd::prelude::*;
use crate::error::ResourceError;

verus! {

/// How the bits of a scalar are read.
#[derive(Clone, Copy, Debug, PartialEq, Eq, Structural)]
pub enum ScalarKind {
    Sint,
    Uint,
    Float,
    Bool,
    AbstractInt,
    AbstractFloat,
}

/// A scalar: its kind and its width in bytes.
#[derive(Clone, Copy, Debug, PartialEq, Eq, Structural)]
pub struct ScalarType {
    pub kind: ScalarKind,
    pub width: u8,
}

/// How many components a vector has.
#[derive(Clone, Copy, Debug, PartialEq, Eq, Structural)]
pub enum VectorCount {
    Bi,
    Tri,
    Quad,
}

/// What is read of the type of a shader input.
#[derive(Clone, Copy, Debug, PartialEq, Eq, Structural)]
pub enum TypeShape {
    Scalar(ScalarType),
    Vector(VectorCount, ScalarType),
    Matrix,
    Atomic,
    Pointer,
    ValuePointer,
    Array,
    Struct,
    Image,
    Sampler,
    AccelerationStructure,
    RayQuery,
    BindingArray,
    /// The module holds no type for the input.
    Unknown,
}

/// Which kind of type the type of a shader input is.
#[derive(Clone, Copy, Debug, PartialEq, Eq, Structural)]
pub enum TypeClass {
    Scalar,
    Vector,
    Matrix,
    Atomic,
    Pointer,
    ValuePointer,
    Array,
    Struct,
    Image,
    Sampler,
    AccelerationStructure,
    RayQuery,
    BindingArray,
    /// The module holds no type for the input.
    Unknown,
}

/// What a shader input is bound to.
#[derive(Clone, Copy, Debug, PartialEq, Eq, Structural)]
pub enum ArgumentBinding {
    /// Nothing: the input is a structure whose members carry the bindings.
    Unbound,
    /// A value that the pipeline supplies.
    BuiltIn,
    /// A numbered location, fed from a vertex buffer.
    Location(u32),
}

/// One declared input of an entry point.
#[derive(Clone, Copy, Debug, PartialEq, Eq, Structural)]
pub struct Argument {
    pub binding: ArgumentBinding,
    pub ty: TypeShape,
}

/// The stage that an entry point belongs to.
#[derive(Clone, Copy, Debug, PartialEq, Eq, Structural)]
pub enum ShaderStage {
    Vertex,
    Fragment,
    Compute,
}

/// How one attribute is stored in a vertex.
#[derive(Clone, Copy, Debug, PartialEq, Eq, Structural)]
pub enum VertexFormat {
    Sint32,
    Uint32,
    Float32,
    Float32x2,
    Float32x3,
    Float32x4,
}

/// One attribute of a vertex: its format, where it starts in the vertex, and
/// the shader location that it feeds.
#[derive(Clone, Copy, Debug, PartialEq, Eq, Structural)]
pub struct LayoutAttribute {
    pub format: VertexFormat,
    pub offset: u64,
    pub shader_location: u32,
}

/// The layout of one vertex.
#[derive(Clone, Debug, PartialEq, Eq)]
pub struct VertexAttributesInfo {
    pub attributes: Vec<LayoutAttribute>,
    pub stride: u64,
}

/// The layout of one vertex, as a mathematical value.
pub struct Layout {
    pub attributes: Seq<LayoutAttribute>,
    pub stride: nat,
}

impl View for VertexAttributesInfo {
    type V = Layout;

    open spec fn view(&self) -> Layout {
        Layout { attributes: self.attributes@, stride: self.stride as nat }
    }
}

impl VertexAttributesInfo {
    /// A copy of the layout.
    pub fn clone_layout(&self) -> (copy: VertexAttributesInfo)
        ensures
            copy@ == self@,
    {
        let mut attributes: Vec<LayoutAttribute> = Vec::new();
        let mut i: usize = 0;
        while i < self.attributes.len()
            invariant
                i <= self.attributes@.len(),
                attributes@ == self.attributes@.subrange(0, i as int),
            decreases self.attributes@.len() - i,
        {
            attributes.push(self.attributes[i]);
            assert(attributes@ =~= self.attributes@.subrange(0, i + 1));
            i = i + 1;
        }
        assert(attributes@ =~= self.attributes@);
        VertexAttributesInfo { attributes, stride: self.stride }
    }
}

impl VertexFormat {
    /// Bytes that a value of the format takes.
    pub open spec fn spec_size(self) -> nat {
        match self {
            VertexFormat::Sint32 => 4,
            VertexFormat::Uint32 => 4,
            VertexFormat::Float32 => 4,
            VertexFormat::Float32x2 => 8,
            VertexFormat::Float32x3 => 12,
            VertexFormat::Float32x4 => 16,
        }
    }

    /// Bytes that a value of the format takes.
    pub fn size(self) -> (bytes: u64)
        ensures
            bytes == self.spec_size(),
    {
        match self {
            VertexFormat::Sint32 => 4,
            VertexFormat::Uint32 => 4,
            VertexFormat::Float32 => 4,
            VertexFormat::Float32x2 => 8,
            VertexFormat::Float32x3 => 12,
            VertexFormat::Float32x4 => 16,
        }
    }
}

impl TypeShape {
    /// Which kind of type it is.
    pub open spec fn class(self) -> TypeClass {
        match self {
            TypeShape::Scalar(_) => TypeClass::Scalar,
            TypeShape::Vector(_, _) => TypeClass::Vector,
            TypeShape::Matrix => TypeClass::Matrix,
            TypeShape::Atomic => TypeClass::Atomic,
            TypeShape::Pointer => TypeClass::Pointer,
            TypeShape::ValuePointer => TypeClass::ValuePointer,
            TypeShape::Array => TypeClass::Array,
            TypeShape::Struct => TypeClass::Struct,
            TypeShape::Image => TypeClass::Image,
            TypeShape::Sampler => TypeClass::Sampler,
            TypeShape::AccelerationStructure => TypeClass::AccelerationStructure,
            TypeShape::RayQuery => TypeClass::RayQuery,
            TypeShape::BindingArray => TypeClass::BindingArray,
            TypeShape::Unknown => TypeClass::Unknown,
        }
    }

    /// The scalar of a scalar type, and of a vector type that of its
    /// components.
    pub open spec fn scalar(self) -> Option<ScalarType> {
        match self {
            TypeShape::Scalar(scalar) => Some(scalar),
            TypeShape::Vector(_, scalar) => Some(scalar),
            _ => None,
        }
    }

    /// How many components a vector type has.
    pub open spec fn count(self) -> Option<VectorCount> {
        match self {
            TypeShape::Vector(count, _) => Some(count),
            _ => None,
        }
    }

    /// The type of a given kind with a given scalar and number of components,
    /// if there is one: a scalar type has a scalar, a vector type a scalar and
    /// a number of components, and every other type neither.
    pub fn compose(class: TypeClass, scalar: Option<ScalarType>, count: Option<VectorCount>) -> (shape:
        Option<TypeShape>)
        ensures
            match shape {
                Some(shape) => shape.class() == class && shape.scalar() == scalar && shape.count()
                    == count,
                None => forall|ty: TypeShape|
                    !(ty.class() == class && ty.scalar() == scalar && ty.count() == count),
            },
    {
        match (class, scalar, count) {
            (TypeClass::Scalar, Some(scalar), None) => Some(TypeShape::Scalar(scalar)),
            (TypeClass::Vector, Some(scalar), Some(count)) => Some(TypeShape::Vector(count, scalar)),
            (TypeClass::Matrix, None, None) => Some(TypeShape::Matrix),
            (TypeClass::Atomic, None, None) => Some(TypeShape::Atomic),
            (TypeClass::Pointer, None, None) => Some(TypeShape::Pointer),
            (TypeClass::ValuePointer, None, None) => Some(TypeShape::ValuePointer),
            (TypeClass::Array, None, None) => Some(TypeShape::Array),
            (TypeClass::Struct, None, None) => Some(TypeShape::Struct),
            (TypeClass::Image, None, None) => Some(TypeShape::Image),
            (TypeClass::Sampler, None, None) => Some(TypeShape::Sampler),
            (TypeClass::AccelerationStructure, None, None) => Some(
                TypeShape::AccelerationStructure,
            ),
            (TypeClass::RayQuery, None, None) => Some(TypeShape::RayQuery),
            (TypeClass::BindingArray, None, None) => Some(TypeShape::BindingArray),
            (TypeClass::Unknown, None, None) => Some(TypeShape::Unknown),
            _ => None,
        }
    }

    /// A type is told by its kind, its scalar and its number of components.
    pub proof fn lemma_parts_tell_the_type(self, other: TypeShape)
        requires
            self.class() == other.class(),
            self.scalar() == other.scalar(),
            self.count() == other.count(),
        ensures
            self == other,
    {
    }

    /// The vertex format for an input of this type, where there is one:
    /// 32-bit scalars that are signed, unsigned or floating, and vectors of
    /// two to four 32-bit floats.
    pub open spec fn spec_format(self) -> Option<VertexFormat> {
        match self {
            TypeShape::Scalar(scalar) => if scalar.width == 4 {
                match scalar.kind {
                    ScalarKind::Sint => Some(VertexFormat::Sint32),
                    ScalarKind::Uint => Some(VertexFormat::Uint32),
                    ScalarKind::Float => Some(VertexFormat::Float32),
                    _ => None,
                }
            } else {
                None
            },
            TypeShape::Vector(size, scalar) => if scalar.width == 4 && scalar.kind
                == ScalarKind::Float {
                match size {
                    VectorCount::Bi => Some(VertexFormat::Float32x2),
                    VectorCount::Tri => Some(VertexFormat::Float32x3),
                    VectorCount::Quad => Some(VertexFormat::Float32x4),
                }
            } else {
                None
            },
            _ => None,
        }
    }

    /// The vertex format for an input of this type, where there is one.
    #[verifier::when_used_as_spec(spec_format)]
    pub fn format(self) -> (format: Option<VertexFormat>)
        ensures
            format == self.spec_format(),
    {
        match self {
            TypeShape::Scalar(scalar) => {
                if scalar.width != 4 {
                    return None;
                }
                match scalar.kind {
                    ScalarKind::Sint => Some(VertexFormat::Sint32),
                    ScalarKind::Uint => Some(VertexFormat::Uint32),
                    ScalarKind::Float => Some(VertexFormat::Float32),
                    _ => None,
                }
            },
            TypeShape::Vector(size, scalar) => {
                if scalar.width != 4 {
                    return None;
                }
                match scalar.kind {
                    ScalarKind::Float => match size {
                        VectorCount::Bi => Some(VertexFormat::Float32x2),
                        VectorCount::Tri => Some(VertexFormat::Float32x3),
                        VectorCount::Quad => Some(VertexFormat::Float32x4),
                    },
                    _ => None,
                }
            },
            _ => None,
        }
    }
}

impl Layout {
    /// The layout with nothing in it.
    pub open spec fn empty() -> Layout {
        Layout { attributes: Seq::empty(), stride: 0 }
    }

    /// The layout with one more attribute behind the others.
    pub open spec fn with(self, format: VertexFormat, location: u32) -> Layout {
        Layout {
            attributes: self.attributes.push(
                LayoutAttribute {
                    format,
                    offset: self.stride as u64,
                    shader_location: location,
                },
            ),
            stride: self.stride + format.spec_size(),
        }
    }
}

/// The layout that a list of declared inputs asks for. Inputs with a location
/// are taken in order, each placed where the one before it ends; the others are
/// passed over. There is no layout where an input with a location has a type
/// without a vertex format, or where the vertex would take more bytes than a
/// 64-bit number can count.
pub open spec fn layout_of(arguments: Seq<Argument>) -> Result<Layout, ResourceError>
    decreases arguments.len(),
{
    if arguments.len() == 0 {
        Ok(Layout::empty())
    } else {
        match layout_of(arguments.drop_last()) {
            Err(e) => Err(e),
            Ok(before) => match arguments.last().binding {
                ArgumentBinding::Location(location) => match arguments.last().ty.spec_format() {
                    None => Err(ResourceError::UnsupportedVertexType),
                    Some(format) => if before.stride + format.spec_size() <= u64::MAX {
                        Ok(before.with(format, location))
                    } else {
                        Err(ResourceError::UnsupportedVertexType)
                    },
                },
                _ => Ok(before),
            },
        }
    }
}

/// Lays out the declared inputs of a vertex entry point.
pub fn layout_build(arguments: &Vec<Argument>) -> (result: Result<
    VertexAttributesInfo,
    ResourceError,
>)
    ensures
        match result {
            Ok(info) => layout_of(arguments@) == Ok::<Layout, ResourceError>(info@),
            Err(e) => layout_of(arguments@) == Err::<Layout, ResourceError>(e),
        },
{
    let mut attributes: Vec<LayoutAttribute> = Vec::new();
    let mut offset: u64 = 0;
    let mut i: usize = 0;
    assert(arguments@.subrange(0, 0) =~= Seq::<Argument>::empty());
    while i < arguments.len()
        invariant
            i <= arguments@.len(),
            layout_of(arguments@.subrange(0, i as int)) == Ok::<Layout, ResourceError>(
                Layout { attributes: attributes@, stride: offset as nat },
            ),
        decreases arguments@.len() - i,
    {
        let argument = arguments[i];
        proof {
            let next = arguments@.subrange(0, i + 1);
            assert(next.drop_last() =~= arguments@.subrange(0, i as int));
            assert(next.last() == argument);
            lemma_layout_error_stays(arguments@, i + 1);
        }
        match argument.binding {
            ArgumentBinding::Location(location) => {
                match argument.ty.format() {
                    None => {
                        return Err(ResourceError::UnsupportedVertexType);
                    },
                    Some(format) => {
                        let size = format.size();
                        if offset > u64::MAX - size {
                            return Err(ResourceError::UnsupportedVertexType);
                        }
                        attributes.push(
                            LayoutAttribute { format, offset, shader_location: location },
                        );
                        offset = offset + size;
                    },
                }
            },
            _ => {},
        }
        i = i + 1;
    }
    assert(arguments@.subrange(0, i as int) =~= arguments@);
    Ok(VertexAttributesInfo { attributes, stride: offset })
}

/// Once a prefix of the inputs has no layout, neither has the whole list, and
/// the reason is the same.
pub proof fn lemma_layout_error_stays(arguments: Seq<Argument>, n: int)
    requires
        0 <= n <= arguments.len(),
    ensures
        layout_of(arguments.subrange(0, n)) is Err ==> layout_of(arguments) == layout_of(
            arguments.subrange(0, n),
        ),
    decreases arguments.len() - n,
{
    if layout_of(arguments.subrange(0, n)) is Ok {
    } else if n == arguments.len() {
        assert(arguments.subrange(0, n) =~= arguments);
    } else {
        let next = arguments.subrange(0, n + 1);
        assert(next.drop_last() =~= arguments.subrange(0, n));
        lemma_layout_error_stays(arguments, n + 1);
    }
}

/// In a layout every attribute starts where the one before it ends, the first
/// at zero, and the stride is where the last one ends: nothing is padded.
pub proof fn lemma_layout_is_packed(arguments: Seq<Argument>)
    requires
        layout_of(arguments) is Ok,
    ensures
        ({
            let layout = layout_of(arguments).unwrap();
            &&& layout.attributes.len() > 0 ==> layout.attributes[0].offset == 0
            &&& forall|k: int|
                0 < k < layout.attributes.len() ==> (#[trigger] layout.attributes[k]).offset
                    == layout.attributes[k - 1].offset + layout.attributes[k
                    - 1].format.spec_size()
            &&& layout.attributes.len() > 0 ==> layout.stride == layout.attributes.last().offset
                + layout.attributes.last().format.spec_size()
            &&& layout.attributes.len() == 0 ==> layout.stride == 0
            &&& layout.stride <= u64::MAX
        }),
    decreases arguments.len(),
{
    if arguments.len() > 0 {
        lemma_layout_is_packed(arguments.drop_last());
    }
}

/// The layout holds one attribute for each input with a location, in the
/// order of the inputs, and none for the others.
pub proof fn lemma_layout_follows_locations(arguments: Seq<Argument>)
    requires
        layout_of(arguments) is Ok,
    ensures
        layout_of(arguments).unwrap().attributes.len() == arguments.filter(
            |a: Argument| a.binding is Location,
        ).len(),
        forall|k: int|
            0 <= k < layout_of(arguments).unwrap().attributes.len() ==> {
                let attribute = #[trigger] layout_of(arguments).unwrap().attributes[k];
                let argument = arguments.filter(|a: Argument| a.binding is Location)[k];
                &&& argument.binding == ArgumentBinding::Location(attribute.shader_location)
                &&& argument.ty.spec_format() == Some(attribute.format)
            },
    decreases arguments.len(),
{
    reveal(Seq::filter);
    if arguments.len() > 0 {
        lemma_layout_follows_locations(arguments.drop_last());
    }
}

} // verus!
