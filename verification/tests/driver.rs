use std::io::Write;
use taca::driver::{is_compressed, lz4_decompress, module_bytes, startup_exports, Export, TICK};
use taca::error::LoadError;

fn module() -> Vec<u8> {
    let mut bytes = vec![0x00, b'a', b's', b'm', 0x01, 0x00, 0x00, 0x00];
    for i in 0..2000u32 {
        bytes.push((i % 7) as u8);
    }
    bytes
}

fn compressed(bytes: &[u8]) -> Vec<u8> {
    let mut encoder = lz4_flex::frame::FrameEncoder::new(Vec::new());
    encoder.write_all(bytes).unwrap();
    encoder.finish().unwrap()
}

#[test]
fn compressed_fixture_decompresses_to_the_module() {
    let plain = module();
    let packed = compressed(&plain);
    assert_eq!(packed[0], 0x04);
    assert_ne!(packed, plain);
    assert!(is_compressed(&packed));
    assert_eq!(module_bytes(packed.clone()), Ok(plain.clone()));
    assert_eq!(lz4_decompress(&packed), Ok(plain));
}

#[test]
fn plain_module_is_kept_as_it_is() {
    let plain = module();
    assert!(!is_compressed(&plain));
    assert_eq!(module_bytes(plain.clone()), Ok(plain));
    assert_eq!(module_bytes(vec![0x00]), Ok(vec![0x00]));
}

#[test]
fn empty_bytes_are_no_module() {
    assert!(!is_compressed(&[]));
    assert_eq!(module_bytes(vec![]), Err(LoadError::Empty));
}

#[test]
fn malformed_stream_is_refused() {
    assert_eq!(module_bytes(vec![0x04, 0x22, 0x4d]), Err(LoadError::MalformedCompressed));
    let other = vec![0x7f, b'E', b'L', b'F', 2, 1, 1, 0, 0, 0, 0, 0, 0, 0, 0, 0];
    assert_eq!(module_bytes(other), Err(LoadError::MalformedCompressed));
    let mut packed = compressed(&module());
    packed.truncate(packed.len() / 2);
    assert_eq!(module_bytes(packed.clone()), Err(LoadError::MalformedCompressed));
    assert_eq!(lz4_decompress(&packed), Err(LoadError::MalformedCompressed));
    assert_eq!(lz4_decompress(&module()), Err(LoadError::MalformedCompressed));
}

#[test]
fn empty_frame_decompresses_to_nothing() {
    assert_eq!(lz4_decompress(&compressed(&[])), Ok(vec![]));
}

#[test]
fn load_errors_have_messages() {
    assert_eq!(LoadError::Empty.message(), "guest module is empty");
    assert_eq!(LoadError::MalformedCompressed.message(), "malformed compressed guest module");
}

#[test]
fn startup_calls_config_only_where_there_is_one() {
    assert_eq!(startup_exports(true), vec![Export::Config, Export::Start]);
    assert_eq!(startup_exports(false), vec![Export::Start]);
    assert_eq!(Export::Config.name(), "config");
    assert_eq!(Export::Start.name(), "start");
    assert_eq!(Export::Listen.name(), "listen");
    assert!(!Export::Config.mandatory());
    assert!(Export::Start.mandatory());
    assert!(Export::Listen.mandatory());
    assert_eq!(TICK, 0);
}

#[test]
fn four_lone_bytes_decode_to_nothing() {
    // The decoder takes them for a stream without content.
    assert_eq!(lz4_decompress(&[0x7f, b'E', b'L', b'F']), Ok(vec![]));
    assert_eq!(lz4_decompress(&[0x04, 0x22, 0x4d, 0x18]), Ok(vec![]));
}

#[test]
fn what_does_not_decode_to_a_module_is_refused() {
    // No content is no module.
    assert_eq!(module_bytes(vec![0x7f, b'E', b'L', b'F']), Err(LoadError::MalformedCompressed));
    assert_eq!(module_bytes(vec![0x04, 0x22, 0x4d, 0x18]), Err(LoadError::MalformedCompressed));
    assert_eq!(module_bytes(compressed(&[])), Err(LoadError::MalformedCompressed));
    // Nor is content that begins otherwise than a module.
    let other = compressed(&[0x7f, b'E', b'L', b'F', 1, 2, 3]);
    assert_eq!(lz4_decompress(&other), Ok(vec![0x7f, b'E', b'L', b'F', 1, 2, 3]));
    assert_eq!(module_bytes(other), Err(LoadError::MalformedCompressed));
    assert_eq!(module_bytes(compressed(&[0x00])), Ok(vec![0x00]));
}
