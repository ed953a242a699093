//! Shaders: reading from a module what its entry points declare.
//!
//! A module arrives parsed and validated. On bytes that a guest wrote the
//! parser may panic, and so may the validator on what the parser made of
//! them; so both are run by the host, which can contain a panic. The host
//! hands over the module with what validation found out about it, or nothing
//! where the bytes did not parse or the module did not validate. What the
//! rest of the library reads of a module is copied out of it once, into
//! values of this crate, and nothing is taken for granted of the module in
//! doing so.

use vstd::prelude::*;
use naga::TypeInner;
use crate::error::ResourceError;
use crate::marshal::le_u32;
use crate::reflect::{
    layout_build, layout_of, Argument, ArgumentBinding, Layout, ScalarKind, ScalarType, ShaderStage,
    TypeClass, TypeShape, VectorCount, VertexAttributesInfo,
};

verus! {

/// A shader module in `naga`'s representation.
#[verifier::external_type_specification]
#[verifier::external_body]
pub struct ExModule(naga::Module);

/// What `naga`'s validator has found out about a module.
#[verifier::external_type_specification]
#[verifier::external_body]
pub struct ExModuleInfo(naga::valid::ModuleInfo);

/// An entry point: its name, its stage, and the inputs that it declares.
#[derive(Clone, Debug, PartialEq, Eq)]
pub struct EntryPoint {
    pub name: String,
    pub stage: ShaderStage,
    pub arguments: Vec<Argument>,
}

/// An entry point as a mathematical value.
pub struct EntryPointView {
    pub name: Seq<char>,
    pub stage: ShaderStage,
    pub arguments: Seq<Argument>,
}

impl View for EntryPoint {
    type V = EntryPointView;

    open spec fn view(&self) -> EntryPointView {
        EntryPointView { name: self.name@, stage: self.stage, arguments: self.arguments@ }
    }
}

/// The entry points of a list, each as a mathematical value.
pub open spec fn entry_point_views(entry_points: Seq<EntryPoint>) -> Seq<EntryPointView> {
    Seq::new(entry_points.len(), |i: int| entry_points[i]@)
}

/// The entry points that `module` holds, in the order in which it holds them:
/// of each its name, its stage and the arguments of its function, and of each
/// argument its binding and its type as the module's types have it, or
/// `Unknown` where they have none for it.
pub uninterp spec fn module_entry_points(module: naga::Module) -> Seq<EntryPointView>;

/// A module with what validation found out about it, as a host hands them
/// over.
pub struct ValidatedModule {
    pub module: naga::Module,
    pub info: naga::valid::ModuleInfo,
}

/// A validated shader as a mathematical value.
pub struct ShaderView {
    /// The module.
    pub module: naga::Module,
    /// What validation found out about the module.
    pub info: naga::valid::ModuleInfo,
    /// What the entry points of the module declare.
    pub entry_points: Seq<EntryPointView>,
}

/// The shader that a validated module makes.
pub open spec fn shader_of(validated: ValidatedModule) -> ShaderView {
    ShaderView {
        module: validated.module,
        info: validated.info,
        entry_points: module_entry_points(validated.module),
    }
}

/// The length of the field `entry_points` of a module.
#[verifier::external_body]
fn entry_point_count(module: &naga::Module) -> (count: usize)
    ensures
        count == module_entry_points(*module).len(),
{
    module.entry_points.len()
}

/// The field `name` of the entry point at `entry`.
#[verifier::external_body]
fn entry_point_name(module: &naga::Module, entry: usize) -> (name: String)
    requires
        entry < module_entry_points(*module).len(),
    ensures
        name@ == module_entry_points(*module)[entry as int].name,
{
    module.entry_points[entry].name.clone()
}

/// The field `stage` of the entry point at `entry`.
#[verifier::external_body]
fn entry_point_stage(module: &naga::Module, entry: usize) -> (stage: ShaderStage)
    requires
        entry < module_entry_points(*module).len(),
    ensures
        stage == module_entry_points(*module)[entry as int].stage,
{
    match module.entry_points[entry].stage {
        naga::ShaderStage::Vertex => ShaderStage::Vertex,
        naga::ShaderStage::Fragment => ShaderStage::Fragment,
        naga::ShaderStage::Compute => ShaderStage::Compute,
    }
}

/// How many arguments the function of the entry point at `entry` takes.
#[verifier::external_body]
fn argument_count(module: &naga::Module, entry: usize) -> (count: usize)
    requires
        entry < module_entry_points(*module).len(),
    ensures
        count == module_entry_points(*module)[entry as int].arguments.len(),
{
    module.entry_points[entry].function.arguments.len()
}

/// The field `binding` of the argument at `argument` of the entry point at
/// `entry`; of a location, its number.
#[verifier::external_body]
fn argument_binding(module: &naga::Module, entry: usize, argument: usize) -> (binding:
    ArgumentBinding)
    requires
        entry < module_entry_points(*module).len(),
        argument < module_entry_points(*module)[entry as int].arguments.len(),
    ensures
        binding == module_entry_points(*module)[entry as int].arguments[argument as int].binding,
{
    match module.entry_points[entry].function.arguments[argument].binding {
        None => ArgumentBinding::Unbound,
        Some(naga::Binding::BuiltIn(_)) => ArgumentBinding::BuiltIn,
        Some(naga::Binding::Location { location, .. }) => ArgumentBinding::Location(location),
    }
}

/// Whether the types of the module hold a type for the argument at `argument`
/// of the entry point at `entry`: whether `UniqueArena::get_handle` finds one.
#[verifier::external_body]
fn argument_type_known(module: &naga::Module, entry: usize, argument: usize) -> (known: bool)
    requires
        entry < module_entry_points(*module).len(),
        argument < module_entry_points(*module)[entry as int].arguments.len(),
    ensures
        known == !(module_entry_points(*module)[entry as int].arguments[argument as int].ty
            is Unknown),
{
    module.types.get_handle(module.entry_points[entry].function.arguments[argument].ty).is_ok()
}

/// Which variant of `naga::TypeInner` the type of the same argument is. The
/// types of the module hold the type, so the lookup finds it.
#[verifier::external_body]
fn argument_type_class(module: &naga::Module, entry: usize, argument: usize) -> (class: TypeClass)
    requires
        entry < module_entry_points(*module).len(),
        argument < module_entry_points(*module)[entry as int].arguments.len(),
        !(module_entry_points(*module)[entry as int].arguments[argument as int].ty is Unknown),
    ensures
        class == module_entry_points(*module)[entry as int].arguments[argument as int].ty.class(),
{
    match &module.types[module.entry_points[entry].function.arguments[argument].ty].inner {
        TypeInner::Scalar(_) => TypeClass::Scalar,
        TypeInner::Vector { .. } => TypeClass::Vector,
        TypeInner::Matrix { .. } => TypeClass::Matrix,
        TypeInner::Atomic(_) => TypeClass::Atomic,
        TypeInner::Pointer { .. } => TypeClass::Pointer,
        TypeInner::ValuePointer { .. } => TypeClass::ValuePointer,
        TypeInner::Array { .. } => TypeClass::Array,
        TypeInner::Struct { .. } => TypeClass::Struct,
        TypeInner::Image { .. } => TypeClass::Image,
        TypeInner::Sampler { .. } => TypeClass::Sampler,
        TypeInner::AccelerationStructure => TypeClass::AccelerationStructure,
        TypeInner::RayQuery => TypeClass::RayQuery,
        TypeInner::BindingArray { .. } => TypeClass::BindingArray,
    }
}

/// The scalar of the type of the same argument: the field of the variant
/// `Scalar`, and the field `scalar` of the variant `Vector`, with its kind
/// and its width. No other variant has one, and there is none where the types
/// of the module hold no type for the argument.
#[verifier::external_body]
fn argument_scalar(module: &naga::Module, entry: usize, argument: usize) -> (scalar: Option<
    ScalarType,
>)
    requires
        entry < module_entry_points(*module).len(),
        argument < module_entry_points(*module)[entry as int].arguments.len(),
    ensures
        scalar == module_entry_points(*module)[entry as int].arguments[argument as int].ty.scalar(),
{
    let handle = module.entry_points[entry].function.arguments[argument].ty;
    let scalar = match module.types.get_handle(handle).map(|ty| &ty.inner) {
        Ok(TypeInner::Scalar(scalar)) | Ok(TypeInner::Vector { scalar, .. }) => *scalar,
        _ => return None,
    };
    let kind = match scalar.kind {
        naga::ScalarKind::Sint => ScalarKind::Sint,
        naga::ScalarKind::Uint => ScalarKind::Uint,
        naga::ScalarKind::Float => ScalarKind::Float,
        naga::ScalarKind::Bool => ScalarKind::Bool,
        naga::ScalarKind::AbstractInt => ScalarKind::AbstractInt,
        naga::ScalarKind::AbstractFloat => ScalarKind::AbstractFloat,
    };
    Some(ScalarType { kind, width: scalar.width })
}

/// The size of the type of the same argument where it is the variant
/// `Vector`. No other variant has one, and there is none where the types of
/// the module hold no type for the argument.
#[verifier::external_body]
fn argument_vector_count(module: &naga::Module, entry: usize, argument: usize) -> (count: Option<
    VectorCount,
>)
    requires
        entry < module_entry_points(*module).len(),
        argument < module_entry_points(*module)[entry as int].arguments.len(),
    ensures
        count == module_entry_points(*module)[entry as int].arguments[argument as int].ty.count(),
{
    let handle = module.entry_points[entry].function.arguments[argument].ty;
    match module.types.get_handle(handle).map(|ty| &ty.inner) {
        Ok(TypeInner::Vector { size: naga::VectorSize::Bi, .. }) => Some(VectorCount::Bi),
        Ok(TypeInner::Vector { size: naga::VectorSize::Tri, .. }) => Some(VectorCount::Tri),
        Ok(TypeInner::Vector { size: naga::VectorSize::Quad, .. }) => Some(VectorCount::Quad),
        _ => None,
    }
}

/// The type of the argument at `argument` of the entry point at `entry`.
fn argument_type(module: &naga::Module, entry: usize, argument: usize) -> (shape: TypeShape)
    requires
        entry < module_entry_points(*module).len(),
        argument < module_entry_points(*module)[entry as int].arguments.len(),
    ensures
        shape == module_entry_points(*module)[entry as int].arguments[argument as int].ty,
{
    if !argument_type_known(module, entry, argument) {
        return TypeShape::Unknown;
    }
    let class = argument_type_class(module, entry, argument);
    let scalar = argument_scalar(module, entry, argument);
    let count = argument_vector_count(module, entry, argument);
    let ghost ty = module_entry_points(*module)[entry as int].arguments[argument as int].ty;
    match TypeShape::compose(class, scalar, count) {
        Some(shape) => {
            proof {
                shape.lemma_parts_tell_the_type(ty);
            }
            shape
        },
        None => {
            assert(ty.class() == class && ty.scalar() == scalar && ty.count() == count);
            vstd::pervasive::unreached()
        },
    }
}

/// The 32-bit words that `bytes` hold, least significant byte first. Bytes
/// behind the last whole word are left out.
pub open spec fn le_words(bytes: Seq<u8>) -> Seq<u32> {
    Seq::new((bytes.len() / 4) as nat, |i: int| le_u32(bytes, 4 * i))
}

/// Decodes the words of `bytes` one by one, least significant byte first.
pub fn words_decode(bytes: &[u8]) -> (words: Vec<u32>)
    ensures
        words@ == le_words(bytes@),
{
    let size: usize = bytes.len();
    let count: usize = size / 4;
    let mut words: Vec<u32> = Vec::new();
    let mut i: usize = 0;
    while i < count
        invariant
            size == bytes@.len(),
            count == size / 4,
            i <= count,
            words@.len() == i,
            forall|k: int| 0 <= k < i ==> words@[k] == le_u32(bytes@, 4 * k),
        decreases count - i,
    {
        let at: usize = 4 * i;
        let b0: u32 = bytes[at] as u32;
        let b1: u32 = bytes[at + 1] as u32;
        let b2: u32 = bytes[at + 2] as u32;
        let b3: u32 = bytes[at + 3] as u32;
        words.push(b0 + b1 * 0x100 + b2 * 0x1_0000 + b3 * 0x100_0000);
        i = i + 1;
    }
    assert(words@ =~= le_words(bytes@));
    words
}

/// The words of a shader for the graphics device: the words that the bytes
/// hold, least significant byte first. Bytes that are no whole number of
/// words are refused.
pub fn shader_words(bytes: &[u8]) -> (result: Result<Vec<u32>, ResourceError>)
    ensures
        match result {
            Ok(words) => bytes@.len() % 4 == 0 && words@ == le_words(bytes@),
            Err(e) => e == ResourceError::ShaderInvalid && bytes@.len() % 4 != 0,
        },
{
    if bytes.len() % 4 != 0 {
        return Err(ResourceError::ShaderInvalid);
    }
    Ok(words_decode(bytes))
}

/// A shader: the module, what validation found out about it, and what the
/// entry points of the module declare.
pub struct Shader {
    module: naga::Module,
    info: naga::valid::ModuleInfo,
    entry_points: Vec<EntryPoint>,
}

impl View for Shader {
    type V = ShaderView;

    closed spec fn view(&self) -> ShaderView {
        ShaderView {
            module: self.module,
            info: self.info,
            entry_points: entry_point_views(self.entry_points@),
        }
    }
}

/// Copies out of a module what one entry point declares.
fn entry_point_read(module: &naga::Module, entry: usize) -> (entry_point: EntryPoint)
    requires
        entry < module_entry_points(*module).len(),
    ensures
        entry_point@ == module_entry_points(*module)[entry as int],
{
    let count = argument_count(module, entry);
    let mut arguments: Vec<Argument> = Vec::new();
    let mut i: usize = 0;
    while i < count
        invariant
            entry < module_entry_points(*module).len(),
            count == module_entry_points(*module)[entry as int].arguments.len(),
            i <= count,
            arguments@.len() == i,
            forall|k: int|
                0 <= k < i ==> arguments@[k] == module_entry_points(
                    *module,
                )[entry as int].arguments[k],
        decreases count - i,
    {
        let argument = Argument {
            binding: argument_binding(module, entry, i),
            ty: argument_type(module, entry, i),
        };
        arguments.push(argument);
        i = i + 1;
    }
    assert(arguments@ =~= module_entry_points(*module)[entry as int].arguments);
    EntryPoint {
        name: entry_point_name(module, entry),
        stage: entry_point_stage(module, entry),
        arguments,
    }
}

/// Copies out of a module what its entry points declare.
fn entry_points_read(module: &naga::Module) -> (entry_points: Vec<EntryPoint>)
    ensures
        entry_point_views(entry_points@) == module_entry_points(*module),
{
    let count = entry_point_count(module);
    let mut entry_points: Vec<EntryPoint> = Vec::new();
    let mut i: usize = 0;
    while i < count
        invariant
            count == module_entry_points(*module).len(),
            i <= count,
            entry_points@.len() == i,
            forall|k: int| 0 <= k < i ==> entry_points@[k]@ == module_entry_points(*module)[k],
        decreases count - i,
    {
        let entry_point = entry_point_read(module, i);
        entry_points.push(entry_point);
        i = i + 1;
    }
    assert(entry_point_views(entry_points@) =~= module_entry_points(*module));
    entry_points
}

/// The position of the first entry point called `name`, if there is one.
pub open spec fn entry_point_position(entry_points: Seq<EntryPointView>, name: Seq<char>) -> Option<
    int,
> {
    if exists|i: int| 0 <= i < entry_points.len() && entry_points[i].name == name {
        Some(choose|i: int| first_named(entry_points, name, i))
    } else {
        None
    }
}

/// Whether `i` is the position of the first entry point called `name`.
pub open spec fn first_named(entry_points: Seq<EntryPointView>, name: Seq<char>, i: int) -> bool {
    &&& 0 <= i < entry_points.len()
    &&& entry_points[i].name == name
    &&& forall|k: int| 0 <= k < i ==> entry_points[k].name != name
}

/// The vertex layout that the entry point called `name` asks for. A shader
/// without such an entry point is no shader for a pipeline.
pub open spec fn vertex_layout(entry_points: Seq<EntryPointView>, name: Seq<char>) -> Result<
    Layout,
    ResourceError,
> {
    match entry_point_position(entry_points, name) {
        None => Err(ResourceError::ShaderInvalid),
        Some(i) => layout_of(entry_points[i].arguments),
    }
}

impl Shader {
    #[verifier::type_invariant]
    spec fn belongs_together(&self) -> bool {
        entry_point_views(self.entry_points@) == module_entry_points(self.module)
    }

    /// What the entry points of the shader declare. They are those of its
    /// module.
    pub fn entry_points(&self) -> (entry_points: &Vec<EntryPoint>)
        ensures
            entry_point_views(entry_points@) == self@.entry_points,
            self@.entry_points == module_entry_points(self@.module),
    {
        proof {
            use_type_invariant(self);
        }
        &self.entry_points
    }

    /// The module of the shader and what validation found out about it, as
    /// they were handed over.
    pub fn parts(&self) -> (parts: (&naga::Module, &naga::valid::ModuleInfo))
        ensures
            *parts.0 == self@.module,
            *parts.1 == self@.info,
    {
        (&self.module, &self.info)
    }

    /// Makes a shader of a validated module: reads what its entry points
    /// declare.
    pub fn new(validated: ValidatedModule) -> (shader: Shader)
        ensures
            shader@ == shader_of(validated),
    {
        let entry_points = entry_points_read(&validated.module);
        Shader { module: validated.module, info: validated.info, entry_points }
    }

    /// Makes a shader of what a host made of bytes. There is none where the
    /// host hands over nothing: the bytes did not parse, or the module did
    /// not validate.
    pub fn parsed(validated: Option<ValidatedModule>) -> (result: Result<Shader, ResourceError>)
        ensures
            match result {
                Ok(shader) => validated matches Some(module) && shader@ == shader_of(module),
                Err(e) => validated is None && e == ResourceError::ShaderInvalid,
            },
    {
        match validated {
            Some(module) => Ok(Shader::new(module)),
            None => Err(ResourceError::ShaderInvalid),
        }
    }
}

/// Finds the first entry point called `name`.
pub fn entry_point_find(entry_points: &Vec<EntryPoint>, name: &str) -> (position: Option<usize>)
    ensures
        match position {
            Some(i) => first_named(entry_point_views(entry_points@), name@, i as int),
            None => forall|k: int| 0 <= k < entry_points@.len() ==> entry_points@[k].name@ != name@,
        },
        match position {
            Some(i) => entry_point_position(entry_point_views(entry_points@), name@) == Some(
                i as int,
            ),
            None => entry_point_position(entry_point_views(entry_points@), name@) is None,
        },
{
    let wanted = name.to_owned();
    let mut i: usize = 0;
    let ghost views = entry_point_views(entry_points@);
    while i < entry_points.len()
        invariant
            i <= entry_points@.len(),
            wanted@ == name@,
            views == entry_point_views(entry_points@),
            forall|k: int| 0 <= k < i ==> entry_points@[k].name@ != name@,
        decreases entry_points@.len() - i,
    {
        if entry_points[i].name == wanted {
            proof {
                assert(views[i as int].name == name@);
                assert(first_named(views, name@, i as int));
                let chosen = choose|j: int| first_named(views, name@, j);
                assert(first_named(views, name@, chosen));
                assert(chosen == i) by {
                    if chosen < i {
                        assert(views[chosen].name == entry_points@[chosen].name@);
                    } else if chosen > i {
                        assert(views[i as int].name != name@);
                    }
                }
            }
            return Some(i);
        }
        i = i + 1;
    }
    proof {
        assert forall|k: int| 0 <= k < views.len() implies views[k].name != name@ by {
            assert(views[k].name == entry_points@[k].name@);
        }
    }
    None
}

/// Derives the vertex layout from what the entry point called `entry_point`
/// declares. Fails with `ShaderInvalid` where the shader has no such entry
/// point, and with `UnsupportedVertexType` where an input with a location has
/// a type without a vertex format.
pub fn vertex_attributes_build(shader: &Shader, entry_point: &str) -> (result: Result<
    VertexAttributesInfo,
    ResourceError,
>)
    ensures
        match result {
            Ok(info) => vertex_layout(shader@.entry_points, entry_point@) == Ok::<
                Layout,
                ResourceError,
            >(info@),
            Err(e) => vertex_layout(shader@.entry_points, entry_point@) == Err::<
                Layout,
                ResourceError,
            >(e),
        },
{
    match entry_point_find(&shader.entry_points, entry_point) {
        None => Err(ResourceError::ShaderInvalid),
        Some(i) => layout_build(&shader.entry_points[i].arguments),
    }
}

} // verus!
