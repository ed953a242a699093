use taca::error::ResourceError;
use taca::reflect::{
    layout_build, Argument, ArgumentBinding, LayoutAttribute, ScalarKind, ScalarType, TypeClass,
    TypeShape, VectorCount, VertexAttributesInfo, VertexFormat,
};

fn float(width: u8) -> ScalarType {
    ScalarType { kind: ScalarKind::Float, width }
}

fn located(location: u32, ty: TypeShape) -> Argument {
    Argument { binding: ArgumentBinding::Location(location), ty }
}

#[test]
fn vec3_then_vec2_gives_stride_20() {
    let arguments = vec![
        located(0, TypeShape::Vector(VectorCount::Tri, float(4))),
        located(1, TypeShape::Vector(VectorCount::Bi, float(4))),
    ];
    let expected = VertexAttributesInfo {
        attributes: vec![
            LayoutAttribute { format: VertexFormat::Float32x3, offset: 0, shader_location: 0 },
            LayoutAttribute { format: VertexFormat::Float32x2, offset: 12, shader_location: 1 },
        ],
        stride: 20,
    };
    assert_eq!(layout_build(&arguments), Ok(expected));
}

#[test]
fn no_arguments_give_an_empty_layout() {
    assert_eq!(layout_build(&vec![]), Ok(VertexAttributesInfo { attributes: vec![], stride: 0 }));
}

#[test]
fn built_in_arguments_take_no_room() {
    let arguments = vec![
        Argument {
            binding: ArgumentBinding::BuiltIn,
            ty: TypeShape::Scalar(ScalarType { kind: ScalarKind::Uint, width: 4 }),
        },
        located(3, TypeShape::Scalar(float(4))),
        Argument { binding: ArgumentBinding::BuiltIn, ty: TypeShape::Struct },
        Argument { binding: ArgumentBinding::Unbound, ty: TypeShape::Struct },
        located(1, TypeShape::Vector(VectorCount::Quad, float(4))),
    ];
    let expected = VertexAttributesInfo {
        attributes: vec![
            LayoutAttribute { format: VertexFormat::Float32, offset: 0, shader_location: 3 },
            LayoutAttribute { format: VertexFormat::Float32x4, offset: 4, shader_location: 1 },
        ],
        stride: 20,
    };
    assert_eq!(layout_build(&arguments), Ok(expected));
}

#[test]
fn every_supported_type_has_its_format_and_size() {
    let cases = [
        (TypeShape::Scalar(ScalarType { kind: ScalarKind::Sint, width: 4 }), VertexFormat::Sint32, 4),
        (TypeShape::Scalar(ScalarType { kind: ScalarKind::Uint, width: 4 }), VertexFormat::Uint32, 4),
        (TypeShape::Scalar(float(4)), VertexFormat::Float32, 4),
        (TypeShape::Vector(VectorCount::Bi, float(4)), VertexFormat::Float32x2, 8),
        (TypeShape::Vector(VectorCount::Tri, float(4)), VertexFormat::Float32x3, 12),
        (TypeShape::Vector(VectorCount::Quad, float(4)), VertexFormat::Float32x4, 16),
    ];
    for (shape, format, size) in cases {
        assert_eq!(shape.format(), Some(format));
        assert_eq!(format.size(), size);
    }
}

#[test]
fn offsets_add_up_without_padding() {
    let arguments = vec![
        located(0, TypeShape::Scalar(float(4))),
        located(1, TypeShape::Vector(VectorCount::Tri, float(4))),
        located(2, TypeShape::Scalar(ScalarType { kind: ScalarKind::Sint, width: 4 })),
        located(3, TypeShape::Vector(VectorCount::Quad, float(4))),
        located(4, TypeShape::Vector(VectorCount::Bi, float(4))),
    ];
    let info = layout_build(&arguments).unwrap();
    let offsets: Vec<u64> = info.attributes.iter().map(|a| a.offset).collect();
    assert_eq!(offsets, vec![0, 4, 16, 20, 36]);
    assert_eq!(info.stride, 44);
}

#[test]
fn other_types_are_unsupported() {
    let unsupported = [
        TypeShape::Matrix,
        TypeShape::Atomic,
        TypeShape::Pointer,
        TypeShape::ValuePointer,
        TypeShape::Array,
        TypeShape::Struct,
        TypeShape::Image,
        TypeShape::Sampler,
        TypeShape::AccelerationStructure,
        TypeShape::RayQuery,
        TypeShape::BindingArray,
        TypeShape::Unknown,
        TypeShape::Scalar(ScalarType { kind: ScalarKind::Bool, width: 1 }),
        TypeShape::Scalar(float(8)),
        TypeShape::Scalar(float(2)),
        TypeShape::Scalar(ScalarType { kind: ScalarKind::AbstractInt, width: 4 }),
        TypeShape::Scalar(ScalarType { kind: ScalarKind::AbstractFloat, width: 4 }),
        TypeShape::Vector(VectorCount::Bi, ScalarType { kind: ScalarKind::Sint, width: 4 }),
        TypeShape::Vector(VectorCount::Quad, ScalarType { kind: ScalarKind::Uint, width: 4 }),
        TypeShape::Vector(VectorCount::Tri, float(8)),
    ];
    for shape in unsupported {
        assert_eq!(shape.format(), None);
        let arguments = vec![located(0, TypeShape::Scalar(float(4))), located(1, shape)];
        assert_eq!(layout_build(&arguments), Err(ResourceError::UnsupportedVertexType));
    }
}

#[test]
fn unsupported_type_without_location_is_passed_over() {
    let arguments = vec![
        Argument { binding: ArgumentBinding::BuiltIn, ty: TypeShape::Matrix },
        located(0, TypeShape::Scalar(float(4))),
    ];
    let info = layout_build(&arguments).unwrap();
    assert_eq!(info.attributes.len(), 1);
    assert_eq!(info.stride, 4);
    assert_eq!(info.clone_layout(), info);
}

#[test]
fn type_is_composed_of_its_parts() {
    let scalar = ScalarType { kind: ScalarKind::Uint, width: 4 };
    assert_eq!(
        TypeShape::compose(TypeClass::Scalar, Some(scalar), None),
        Some(TypeShape::Scalar(scalar))
    );
    assert_eq!(
        TypeShape::compose(TypeClass::Vector, Some(scalar), Some(VectorCount::Tri)),
        Some(TypeShape::Vector(VectorCount::Tri, scalar))
    );
    assert_eq!(TypeShape::compose(TypeClass::Struct, None, None), Some(TypeShape::Struct));
    assert_eq!(TypeShape::compose(TypeClass::Unknown, None, None), Some(TypeShape::Unknown));
    assert_eq!(TypeShape::compose(TypeClass::Unknown, Some(scalar), None), None);
    assert_eq!(TypeShape::compose(TypeClass::Scalar, None, None), None);
    assert_eq!(TypeShape::compose(TypeClass::Vector, Some(scalar), None), None);
    assert_eq!(TypeShape::compose(TypeClass::Image, Some(scalar), None), None);
    assert_eq!(TypeShape::compose(TypeClass::Matrix, None, Some(VectorCount::Bi)), None);
}
