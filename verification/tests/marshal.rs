use taca::error::MarshalError;
use taca::marshal::{
    read_attributes, read_span, read_string, write_bytes, BufferSlice, ExternPipelineInfo,
    ExternPipelineShaderInfo, Span, VertexAttribute, WindowState,
};

#[test]
fn read_span_copies_the_range() {
    let memory = vec![10u8, 11, 12, 13, 14, 15];
    assert_eq!(read_span(&memory, Span { ptr: 1, len: 3 }, 1), Ok(vec![11, 12, 13]));
    assert_eq!(read_span(&memory, Span { ptr: 2, len: 2 }, 2), Ok(vec![12, 13, 14, 15]));
    assert_eq!(read_span(&memory, Span { ptr: 6, len: 0 }, 4), Ok(vec![]));
}

#[test]
fn read_span_past_the_end_is_out_of_bounds() {
    let memory = vec![0u8; 8];
    assert_eq!(read_span(&memory, Span { ptr: 6, len: 3 }, 1), Err(MarshalError::OutOfBounds));
    assert_eq!(read_span(&memory, Span { ptr: 0, len: 9 }, 1), Err(MarshalError::OutOfBounds));
    assert_eq!(read_span(&memory, Span { ptr: 9, len: 0 }, 1), Err(MarshalError::OutOfBounds));
    assert_eq!(read_span(&memory, Span { ptr: 4, len: 2 }, 4), Err(MarshalError::OutOfBounds));
}

#[test]
fn read_span_does_not_wrap_around() {
    let memory = vec![7u8; 16];
    let huge = Span { ptr: u32::MAX, len: u32::MAX };
    assert_eq!(read_span(&memory, huge, u32::MAX), Err(MarshalError::OutOfBounds));
    // In 32-bit arithmetic 0xffff_fff8 + 16 would wrap to 8.
    let wrapping = Span { ptr: 0xffff_fff8, len: 16 };
    assert_eq!(read_span(&memory, wrapping, 1), Err(MarshalError::OutOfBounds));
    assert_eq!(read_string(&memory, wrapping), Err(MarshalError::OutOfBounds));
    assert_eq!(read_attributes(&memory, wrapping), Err(MarshalError::OutOfBounds));
}

#[test]
fn every_read_refuses_a_span_past_the_end() {
    let memory = vec![b'a'; 12];
    let span = Span { ptr: 8, len: 5 };
    assert_eq!(read_span(&memory, span, 1), Err(MarshalError::OutOfBounds));
    assert_eq!(read_span(&memory, span, 3), Err(MarshalError::OutOfBounds));
    assert_eq!(read_string(&memory, span), Err(MarshalError::OutOfBounds));
    assert_eq!(read_attributes(&memory, span), Err(MarshalError::OutOfBounds));
}

#[test]
fn read_string_checks_the_encoding() {
    let memory = vec![b'h', b'i', 0xff, 0xc3, 0xa9];
    assert_eq!(read_string(&memory, Span { ptr: 0, len: 2 }), Ok("hi".to_string()));
    assert_eq!(read_string(&memory, Span { ptr: 3, len: 2 }), Ok("é".to_string()));
    assert_eq!(read_string(&memory, Span { ptr: 0, len: 0 }), Ok(String::new()));
    assert_eq!(read_string(&memory, Span { ptr: 0, len: 3 }), Err(MarshalError::InvalidEncoding));
    assert_eq!(read_string(&memory, Span { ptr: 3, len: 1 }), Err(MarshalError::InvalidEncoding));
    assert_eq!(read_string(&memory, Span { ptr: 4, len: 2 }), Err(MarshalError::OutOfBounds));
}

#[test]
fn span_record_is_two_little_endian_words() {
    let memory = vec![0xaa, 0x78, 0x56, 0x34, 0x12, 0x02, 0x01, 0x00, 0x00];
    assert_eq!(Span::read(&memory, 1), Ok(Span { ptr: 0x1234_5678, len: 0x0102 }));
    assert_eq!(Span::read(&memory, 2), Err(MarshalError::OutOfBounds));
    assert_eq!(Span::read(&memory, u32::MAX), Err(MarshalError::OutOfBounds));
}

#[test]
fn record_at_an_odd_address_is_read() {
    let mut memory = vec![0u8; 3];
    memory.extend_from_slice(&7u32.to_le_bytes());
    memory.extend_from_slice(&0xffff_ffffu32.to_le_bytes());
    memory.extend_from_slice(&12u32.to_le_bytes());
    assert_eq!(
        BufferSlice::read(&memory, 3),
        Ok(BufferSlice { ptr: 7, size: 0xffff_ffff, item_size: 12 })
    );
    assert_eq!(BufferSlice::read(&memory, 4), Err(MarshalError::OutOfBounds));
}

#[test]
fn pipeline_info_record_has_eight_words() {
    let mut memory = Vec::new();
    for word in [1u32, 2, 3, 4, 5, 6, 7, 8] {
        memory.extend_from_slice(&word.to_le_bytes());
    }
    let expected = ExternPipelineInfo {
        attributes: Span { ptr: 1, len: 2 },
        fragment: ExternPipelineShaderInfo { entry_point: Span { ptr: 3, len: 4 }, shader: 5 },
        vertex: ExternPipelineShaderInfo { entry_point: Span { ptr: 6, len: 7 }, shader: 8 },
    };
    assert_eq!(ExternPipelineInfo::read(&memory, 0), Ok(expected));
    memory.pop();
    assert_eq!(ExternPipelineInfo::read(&memory, 0), Err(MarshalError::OutOfBounds));
}

#[test]
fn attributes_are_read_in_order() {
    let mut memory = vec![0u8; 2];
    for word in [10u32, 0, 11, 1, 12, 2] {
        memory.extend_from_slice(&word.to_le_bytes());
    }
    assert_eq!(
        read_attributes(&memory, Span { ptr: 2, len: 3 }),
        Ok(vec![
            VertexAttribute { format: 10, buffer_index: 0 },
            VertexAttribute { format: 11, buffer_index: 1 },
            VertexAttribute { format: 12, buffer_index: 2 },
        ])
    );
    assert_eq!(read_attributes(&memory, Span { ptr: 2, len: 0 }), Ok(vec![]));
    assert_eq!(read_attributes(&memory, Span { ptr: 3, len: 3 }), Err(MarshalError::OutOfBounds));
}

#[test]
fn window_state_is_written_as_sixteen_bytes() {
    let state = WindowState {
        pointer_x: 1.5f32.to_bits(),
        pointer_y: (-2.0f32).to_bits(),
        width: 640.0f32.to_bits(),
        height: 480.0f32.to_bits(),
    };
    let mut expected = Vec::new();
    for value in [1.5f32, -2.0, 640.0, 480.0] {
        expected.extend_from_slice(&value.to_le_bytes());
    }
    assert_eq!(state.to_bytes(), expected);
    let mut memory = vec![0xeeu8; 20];
    assert_eq!(state.write(&mut memory, 3), Ok(()));
    assert_eq!(&memory[..3], &[0xee, 0xee, 0xee]);
    assert_eq!(&memory[3..19], &expected[..]);
    assert_eq!(memory[19], 0xee);
}

#[test]
fn write_past_the_end_leaves_memory_alone() {
    let state = WindowState { pointer_x: 1, pointer_y: 2, width: 3, height: 4 };
    let mut memory = vec![9u8; 20];
    assert_eq!(state.write(&mut memory, 5), Err(MarshalError::OutOfBounds));
    assert_eq!(memory, vec![9u8; 20]);
    assert_eq!(state.write(&mut memory, u32::MAX), Err(MarshalError::OutOfBounds));
    assert_eq!(memory, vec![9u8; 20]);
    assert_eq!(state.write(&mut memory, 4), Ok(()));
    assert_eq!(&memory[4..8], &[1, 0, 0, 0]);
}

#[test]
fn write_bytes_replaces_only_its_range() {
    let mut memory = vec![0u8, 1, 2, 3, 4, 5];
    assert_eq!(write_bytes(&mut memory, 2, &vec![9, 8]), Ok(()));
    assert_eq!(memory, vec![0, 1, 9, 8, 4, 5]);
    assert_eq!(write_bytes(&mut memory, 6, &vec![]), Ok(()));
    assert_eq!(write_bytes(&mut memory, 5, &vec![1, 1]), Err(MarshalError::OutOfBounds));
    assert_eq!(write_bytes(&mut memory, 0, &vec![0; 7]), Err(MarshalError::OutOfBounds));
    assert_eq!(memory, vec![0, 1, 9, 8, 4, 5]);
}
