use taca::error::ResourceError;
use taca::glsl::{
    shaders, stage_entry_point, stage_request, translate_request, translate_to_glsl, BoundsPolicy,
    GlslRequest, GLSL_VERSION,
};
use taca::reflect::{
    ArgumentBinding, LayoutAttribute, ScalarKind, ScalarType, ShaderStage, TypeShape, VectorCount,
    VertexAttributesInfo, VertexFormat,
};
use taca::shader::{
    entry_point_find, shader_words, vertex_attributes_build, words_decode, Shader,
    ValidatedModule,
};

/// A module with a vertex entry point `vs_main`, which takes a vec3 at
/// location 0 and a vec2 at location 1, and a fragment entry point `fs_main`.
const MODULE: [u32; 126] = [
    0x07230203, 0x00010000, 0x00000000, 0x00000017, 0x00000000, 0x00020011,
    0x00000001, 0x0003000e, 0x00000000, 0x00000001, 0x0008000f, 0x00000000,
    0x0000000d, 0x6d5f7376, 0x006e6961, 0x0000000a, 0x0000000b, 0x0000000c,
    0x0006000f, 0x00000004, 0x00000012, 0x6d5f7366, 0x006e6961, 0x00000011,
    0x00030010, 0x00000012, 0x00000007, 0x00040047, 0x0000000a, 0x0000001e,
    0x00000000, 0x00040047, 0x0000000b, 0x0000001e, 0x00000001, 0x00040047,
    0x0000000c, 0x0000000b, 0x00000000, 0x00040047, 0x00000011, 0x0000001e,
    0x00000000, 0x00020013, 0x00000001, 0x00030021, 0x00000002, 0x00000001,
    0x00030016, 0x00000003, 0x00000020, 0x00040017, 0x00000004, 0x00000003,
    0x00000002, 0x00040017, 0x00000005, 0x00000003, 0x00000003, 0x00040017,
    0x00000006, 0x00000003, 0x00000004, 0x00040020, 0x00000007, 0x00000001,
    0x00000005, 0x00040020, 0x00000008, 0x00000001, 0x00000004, 0x00040020,
    0x00000009, 0x00000003, 0x00000006, 0x0004002b, 0x00000003, 0x0000000f,
    0x3f800000, 0x0007002c, 0x00000006, 0x00000010, 0x0000000f, 0x0000000f,
    0x0000000f, 0x0000000f, 0x0004003b, 0x00000007, 0x0000000a, 0x00000001,
    0x0004003b, 0x00000008, 0x0000000b, 0x00000001, 0x0004003b, 0x00000009,
    0x0000000c, 0x00000003, 0x0004003b, 0x00000009, 0x00000011, 0x00000003,
    0x00050036, 0x00000001, 0x0000000d, 0x00000000, 0x00000002, 0x000200f8,
    0x0000000e, 0x0003003e, 0x0000000c, 0x00000010, 0x000100fd, 0x00010038,
    0x00050036, 0x00000001, 0x00000012, 0x00000000, 0x00000002, 0x000200f8,
    0x00000013, 0x0003003e, 0x00000011, 0x00000010, 0x000100fd, 0x00010038,
];

fn module_bytes() -> Vec<u8> {
    MODULE.iter().flat_map(|word| word.to_le_bytes()).collect()
}

/// What the parser makes of bytes: the module, or nothing.
fn parse(bytes: &[u8]) -> Option<naga::Module> {
    naga::front::spv::parse_u8_slice(bytes, &naga::front::spv::Options::default()).ok()
}

/// What the validator finds out about a module, or nothing.
fn validate(module: &naga::Module) -> Option<naga::valid::ModuleInfo> {
    let flags = naga::valid::ValidationFlags::all();
    let capabilities = naga::valid::Capabilities::empty();
    naga::valid::Validator::new(flags, capabilities).validate(module).ok()
}

/// What a host makes of bytes: the module, parsed and validated, or nothing.
fn load(bytes: &[u8]) -> Option<ValidatedModule> {
    let module = parse(bytes)?;
    let info = validate(&module)?;
    Some(ValidatedModule { module, info })
}

/// What the writer writes for a request, or nothing.
fn write(validated: &ValidatedModule, request: &GlslRequest) -> Option<String> {
    let policy = match request.policy {
        BoundsPolicy::Restrict => naga::proc::BoundsCheckPolicy::Restrict,
        BoundsPolicy::ReadZeroSkipWrite => naga::proc::BoundsCheckPolicy::ReadZeroSkipWrite,
        BoundsPolicy::Unchecked => naga::proc::BoundsCheckPolicy::Unchecked,
    };
    let policies = naga::proc::BoundsCheckPolicies {
        index: policy,
        buffer: policy,
        image_load: policy,
        image_store: policy,
        binding_array: policy,
    };
    let options = naga::back::glsl::Options {
        version: naga::back::glsl::Version::Embedded {
            version: request.version,
            is_webgl: request.is_webgl,
        },
        writer_flags: naga::back::glsl::WriterFlags::empty(),
        ..Default::default()
    };
    let pipeline_options = naga::back::glsl::PipelineOptions {
        shader_stage: match request.stage {
            ShaderStage::Vertex => naga::ShaderStage::Vertex,
            ShaderStage::Fragment => naga::ShaderStage::Fragment,
            ShaderStage::Compute => naga::ShaderStage::Compute,
        },
        entry_point: request.entry_point.clone(),
        multiview: None,
    };
    let mut text = String::new();
    let mut writer = naga::back::glsl::Writer::new(
        &mut text,
        &validated.module,
        &validated.info,
        &options,
        &pipeline_options,
        policies,
    )
    .ok()?;
    writer.write().ok()?;
    Some(text)
}

#[test]
fn shader_is_parsed_and_its_entry_points_read() {
    let shader = Shader::parsed(load(&module_bytes())).unwrap();
    assert_eq!(shader.entry_points().len(), 2);
    let vertex = &shader.entry_points()[0];
    assert_eq!(vertex.name, "vs_main");
    assert_eq!(vertex.stage, ShaderStage::Vertex);
    assert_eq!(vertex.arguments.len(), 2);
    let float = ScalarType { kind: ScalarKind::Float, width: 4 };
    assert_eq!(vertex.arguments[0].binding, ArgumentBinding::Location(0));
    assert_eq!(vertex.arguments[0].ty, TypeShape::Vector(VectorCount::Tri, float));
    assert_eq!(vertex.arguments[1].binding, ArgumentBinding::Location(1));
    assert_eq!(vertex.arguments[1].ty, TypeShape::Vector(VectorCount::Bi, float));
    let fragment = &shader.entry_points()[1];
    assert_eq!(fragment.name, "fs_main");
    assert_eq!(fragment.stage, ShaderStage::Fragment);
    assert_eq!(fragment.arguments.len(), 0);
}

#[test]
fn shader_reflects_to_its_vertex_layout() {
    let shader = Shader::parsed(load(&module_bytes())).unwrap();
    let expected = VertexAttributesInfo {
        attributes: vec![
            LayoutAttribute { format: VertexFormat::Float32x3, offset: 0, shader_location: 0 },
            LayoutAttribute { format: VertexFormat::Float32x2, offset: 12, shader_location: 1 },
        ],
        stride: 20,
    };
    assert_eq!(vertex_attributes_build(&shader, "vs_main"), Ok(expected));
    assert_eq!(
        vertex_attributes_build(&shader, "fs_main"),
        Ok(VertexAttributesInfo { attributes: vec![], stride: 0 })
    );
}

#[test]
fn missing_entry_point_is_refused() {
    let shader = Shader::parsed(load(&module_bytes())).unwrap();
    assert_eq!(vertex_attributes_build(&shader, "main"), Err(ResourceError::ShaderInvalid));
    assert_eq!(vertex_attributes_build(&shader, ""), Err(ResourceError::ShaderInvalid));
    assert_eq!(entry_point_find(shader.entry_points(), "vs_main"), Some(0));
    assert_eq!(entry_point_find(shader.entry_points(), "fs_main"), Some(1));
    assert_eq!(entry_point_find(shader.entry_points(), "vs_mai"), None);
    assert_eq!(entry_point_find(&vec![], "vs_main"), None);
}

#[test]
fn bytes_that_are_no_shader_are_invalid() {
    assert!(matches!(Shader::parsed(None), Err(ResourceError::ShaderInvalid)));
    assert!(matches!(Shader::parsed(load(&[])), Err(ResourceError::ShaderInvalid)));
    assert!(matches!(Shader::parsed(load(&[1, 2, 3])), Err(ResourceError::ShaderInvalid)));
    assert!(matches!(Shader::parsed(load(&[0u8; 64])), Err(ResourceError::ShaderInvalid)));
    let mut bytes = module_bytes();
    bytes.truncate(bytes.len() - 4);
    assert!(matches!(Shader::parsed(load(&bytes)), Err(ResourceError::ShaderInvalid)));
    let mut bytes = module_bytes();
    bytes.push(0);
    assert!(matches!(Shader::parsed(load(&bytes)), Err(ResourceError::ShaderInvalid)));
}

#[test]
fn module_that_parses_but_does_not_validate_is_invalid() {
    // The vertex entry point no longer names its position output.
    let mut words = MODULE.to_vec();
    assert_eq!(words[36..39], [0x0000000c, 0x0000000b, 0x00000000]);
    words[37] = 0x0000001e;
    words[38] = 0x00000005;
    let bytes: Vec<u8> = words.iter().flat_map(|word| word.to_le_bytes()).collect();
    assert!(parse(&bytes).is_some());
    assert!(load(&bytes).is_none());
    assert!(matches!(Shader::parsed(load(&bytes)), Err(ResourceError::ShaderInvalid)));
}

#[test]
fn shader_is_made_of_a_validated_module() {
    let shader = Shader::new(load(&module_bytes()).unwrap());
    let names: Vec<&str> = shader.entry_points().iter().map(|e| e.name.as_str()).collect();
    assert_eq!(names, vec!["vs_main", "fs_main"]);
    let (module, _) = shader.parts();
    assert_eq!(module.entry_points.len(), 2);
}

#[test]
fn argument_without_a_type_in_the_module_is_unknown() {
    // An entry point whose argument names a type of another module: the
    // module's own types hold none for it.
    let valid = load(&module_bytes()).unwrap();
    let foreign = valid.module.entry_points[0].function.arguments[0].clone();
    let mut function = naga::Function::default();
    function.arguments.push(foreign);
    let mut module = naga::Module::default();
    module.entry_points.push(naga::EntryPoint {
        name: "vs_main".to_string(),
        stage: naga::ShaderStage::Vertex,
        early_depth_test: None,
        workgroup_size: [0, 0, 0],
        function,
    });
    assert!(module.types.is_empty());
    let shader = Shader::new(ValidatedModule { module, info: valid.info });
    let entry = &shader.entry_points()[0];
    assert_eq!(entry.name, "vs_main");
    assert_eq!(entry.arguments.len(), 1);
    assert_eq!(entry.arguments[0].binding, ArgumentBinding::Location(0));
    assert_eq!(entry.arguments[0].ty, TypeShape::Unknown);
    assert_eq!(
        vertex_attributes_build(&shader, "vs_main"),
        Err(ResourceError::UnsupportedVertexType)
    );
}

#[test]
fn words_are_decoded_least_significant_byte_first() {
    assert_eq!(words_decode(&[0x03, 0x02, 0x23, 0x07, 0xff, 0, 0, 0x80]), vec![0x07230203, 0x800000ff]);
    assert_eq!(words_decode(&[1, 0, 0, 0, 9, 9]), vec![1]);
    assert_eq!(words_decode(&[]), Vec::<u32>::new());
    assert_eq!(words_decode(&module_bytes()), MODULE.to_vec());
}

#[test]
fn shader_words_are_those_that_the_bytes_hold() {
    // Wherever the bytes lie in memory, the words are the same.
    let bytes = module_bytes();
    assert_eq!(shader_words(&bytes), Ok(MODULE.to_vec()));
    for shift in 1..4 {
        let mut padded = vec![0u8; shift];
        padded.extend_from_slice(&bytes);
        assert_eq!(shader_words(&padded[shift..]), Ok(MODULE.to_vec()));
    }
    assert_eq!(shader_words(&[0x03, 0x02, 0x23, 0x07]), Ok(vec![0x07230203]));
    assert_eq!(shader_words(&[]), Ok(vec![]));
}

#[test]
fn bytes_that_are_no_whole_words_give_no_shader_words() {
    assert_eq!(shader_words(&[1]), Err(ResourceError::ShaderInvalid));
    assert_eq!(shader_words(&[1, 2, 3, 4, 5]), Err(ResourceError::ShaderInvalid));
    let mut bytes = module_bytes();
    bytes.pop();
    for shift in 0..4 {
        let mut padded = vec![0u8; shift];
        padded.extend_from_slice(&bytes);
        assert_eq!(shader_words(&padded[shift..]), Err(ResourceError::ShaderInvalid));
    }
}

/// Both stages of a shader as a host writes them.
fn write_shaders(source: &[u8]) -> Result<taca::glsl::GlslShaders, ResourceError> {
    let validated = load(source);
    let mut written = Vec::new();
    for stage in [ShaderStage::Vertex, ShaderStage::Fragment] {
        let request = stage_request(stage);
        written.push(match (&validated, &request) {
            (Some(validated), Some(request)) => write(validated, request),
            _ => None,
        });
    }
    let fragment = written.pop().unwrap();
    let vertex = written.pop().unwrap();
    shaders(vertex, fragment)
}

#[test]
fn shader_is_written_as_glsl() {
    let texts = write_shaders(&module_bytes()).unwrap();
    assert!(texts.vertex.starts_with("#version 300 es"));
    assert!(texts.fragment.starts_with("#version 300 es"));
    assert!(texts.vertex.contains("void main()"));
    assert!(texts.vertex.contains("gl_Position"));
    assert!(texts.fragment.contains("void main()"));
    assert_ne!(texts.vertex, texts.fragment);
    let validated = load(&module_bytes()).unwrap();
    let request = translate_request(ShaderStage::Vertex, "vs_main", BoundsPolicy::Unchecked);
    let written = write(&validated, &request.unwrap());
    assert_eq!(translate_to_glsl(ShaderStage::Vertex, written), Ok(texts.vertex.clone()));
    let request = translate_request(ShaderStage::Fragment, "fs_main", BoundsPolicy::Restrict);
    let written = write(&validated, &request.unwrap());
    assert!(translate_to_glsl(ShaderStage::Fragment, written).is_ok());
}

#[test]
fn writer_is_asked_for_glsl_es_300_for_webgl() {
    let expected = GlslRequest {
        version: 300,
        is_webgl: true,
        stage: ShaderStage::Fragment,
        entry_point: "main".to_string(),
        policy: BoundsPolicy::ReadZeroSkipWrite,
    };
    assert_eq!(
        translate_request(ShaderStage::Fragment, "main", BoundsPolicy::ReadZeroSkipWrite),
        Some(expected)
    );
    assert_eq!(GLSL_VERSION, 300);
    let vertex = stage_request(ShaderStage::Vertex).unwrap();
    assert_eq!(vertex.entry_point, "vs_main");
    assert_eq!(vertex.stage, ShaderStage::Vertex);
    assert_eq!(vertex.policy, BoundsPolicy::Unchecked);
    assert_eq!((vertex.version, vertex.is_webgl), (300, true));
    let fragment = stage_request(ShaderStage::Fragment).unwrap();
    assert_eq!(fragment.entry_point, "fs_main");
    assert_eq!(fragment.stage, ShaderStage::Fragment);
}

#[test]
fn nothing_is_asked_for_compute() {
    assert_eq!(stage_request(ShaderStage::Compute), None);
    for policy in [BoundsPolicy::Restrict, BoundsPolicy::ReadZeroSkipWrite, BoundsPolicy::Unchecked] {
        for name in ["vs_main", "fs_main", "main"] {
            assert_eq!(translate_request(ShaderStage::Compute, name, policy), None);
        }
    }
    assert_eq!(
        translate_to_glsl(ShaderStage::Compute, Some("void main() {}".to_string())),
        Err(ResourceError::ShaderInvalid)
    );
    assert_eq!(translate_to_glsl(ShaderStage::Compute, None), Err(ResourceError::ShaderInvalid));
}

#[test]
fn glsl_that_was_not_written_is_refused() {
    let validated = load(&module_bytes()).unwrap();
    // The vertex stage has no entry point of that name.
    let request = translate_request(ShaderStage::Vertex, "fs_main", BoundsPolicy::Unchecked);
    let written = write(&validated, &request.unwrap());
    assert_eq!(written, None);
    assert_eq!(translate_to_glsl(ShaderStage::Vertex, written), Err(ResourceError::ShaderInvalid));
    assert_eq!(translate_to_glsl(ShaderStage::Fragment, None), Err(ResourceError::ShaderInvalid));
    let text = "x".to_string();
    assert_eq!(shaders(None, None), Err(ResourceError::ShaderInvalid));
    assert_eq!(shaders(Some(text.clone()), None), Err(ResourceError::ShaderInvalid));
    assert_eq!(shaders(None, Some(text.clone())), Err(ResourceError::ShaderInvalid));
    assert_eq!(
        shaders(Some("v".to_string()), Some("f".to_string())),
        Ok(taca::glsl::GlslShaders { vertex: "v".to_string(), fragment: "f".to_string() })
    );
    assert_eq!(write_shaders(&[0u8; 8]), Err(ResourceError::ShaderInvalid));
}

#[test]
fn stages_have_their_entry_points() {
    assert_eq!(stage_entry_point(ShaderStage::Vertex), Some("vs_main"));
    assert_eq!(stage_entry_point(ShaderStage::Fragment), Some("fs_main"));
    assert_eq!(stage_entry_point(ShaderStage::Compute), None);
}
