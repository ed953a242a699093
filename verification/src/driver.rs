//! Preparing the bytes of a guest module for instantiation.
//!
//! A module may arrive as it is or compressed as an LZ4 frame. Bytes that
//! begin with a zero byte, as every module does, are taken as they are. All
//! others are handed to the decoder. It reports an error on most streams
//! that are not well formed, but not on all: four lone bytes it takes for a
//! stream without content, and of a frame that was cut off between two blocks
//! it gives the blocks before the cut. So what comes out is taken for a
//! module only where it begins like one. That still lets through the
//! beginning of a module whose frame was cut off; it shows when the module is
//! instantiated.

use std::io::Read;
use vstd::prelude::*;
use crate::error::LoadError;

verus! {

/// What a host calls in a guest.
#[derive(Clone, Copy, Debug, PartialEq, Eq, Structural)]
pub enum Export {
    /// Called once before the start, where the guest has it.
    Config,
    /// Called once to start the guest.
    Start,
    /// Called once for every frame of the host.
    Listen,
}

/// What `listen` is called with on an ordinary tick.
pub const TICK: i32 = 0;

impl Export {
    /// The name under which the guest exports the function.
    pub fn name(self) -> (name: &'static str)
        ensures
            name@ == (match self {
                Export::Config => "config"@,
                Export::Start => "start"@,
                Export::Listen => "listen"@,
            }),
    {
        match self {
            Export::Config => "config",
            Export::Start => "start",
            Export::Listen => "listen",
        }
    }

    /// Whether a guest must have the function.
    pub fn mandatory(self) -> (mandatory: bool)
        ensures
            mandatory == !(self is Config),
    {
        match self {
            Export::Config => false,
            _ => true,
        }
    }
}

/// What is called when a guest starts up, in this order: the configuration
/// where the guest has one, then the start.
pub fn startup_exports(has_config: bool) -> (exports: Vec<Export>)
    ensures
        exports@ == (if has_config {
            seq![Export::Config, Export::Start]
        } else {
            seq![Export::Start]
        }),
{
    let mut exports: Vec<Export> = Vec::new();
    if has_config {
        exports.push(Export::Config);
    }
    exports.push(Export::Start);
    exports
}

/// The first byte of every module.
pub const MODULE_LEAD: u8 = 0x00;

/// The error of a reader.
#[verifier::external_type_specification]
#[verifier::external_body]
pub struct ExIoError(std::io::Error);

/// What `lz4_flex::frame::FrameDecoder` reads out of `source` up to its end,
/// or `None` where it reports an error.
pub uninterp spec fn lz4_frame_content(source: Seq<u8>) -> Option<Seq<u8>>;

/// `lz4_flex::frame::FrameDecoder` over the bytes, read to the end: what the
/// frames hold, or the decoder's error.
#[verifier::external_body]
fn frame_decode(source: &[u8]) -> (result: Result<Vec<u8>, std::io::Error>)
    ensures
        match result {
            Ok(content) => lz4_frame_content(source@) == Some(content@),
            Err(_) => lz4_frame_content(source@) is None,
        },
{
    let mut content = Vec::new();
    lz4_flex::frame::FrameDecoder::new(source).read_to_end(&mut content)?;
    Ok(content)
}

/// Decompresses an LZ4 frame: gives what the decoder reads out of the stream,
/// and fails where the decoder reports an error. The decoder reports none on
/// four lone bytes, for which it gives no content, nor on a frame that ends
/// between two blocks, of which it gives the blocks that are there.
pub fn lz4_decompress(source: &[u8]) -> (result: Result<Vec<u8>, LoadError>)
    ensures
        match result {
            Ok(content) => lz4_frame_content(source@) == Some(content@),
            Err(e) => e == LoadError::MalformedCompressed && lz4_frame_content(source@) is None,
        },
{
    match frame_decode(source) {
        Ok(content) => Ok(content),
        Err(_) => Err(LoadError::MalformedCompressed),
    }
}

/// Whether bytes begin like a module.
pub open spec fn begins_like_module(bytes: Seq<u8>) -> bool {
    bytes.len() > 0 && bytes[0] == MODULE_LEAD
}

/// The module that loaded bytes stand for, given what the decoder makes of
/// them: bytes that begin like a module are the module; of any others it is
/// what the decoder gives, where that begins like a module. There is none
/// where the decoder reports an error, nor where what it gives does not begin
/// like a module.
pub open spec fn module_of(raw: Seq<u8>, content: Option<Seq<u8>>) -> Result<Seq<u8>, LoadError> {
    if raw.len() == 0 {
        Err(LoadError::Empty)
    } else if begins_like_module(raw) {
        Ok(raw)
    } else {
        match content {
            Some(content) => if begins_like_module(content) {
                Ok(content)
            } else {
                Err(LoadError::MalformedCompressed)
            },
            None => Err(LoadError::MalformedCompressed),
        }
    }
}

/// Whether loaded bytes have to be decompressed before they are a module.
pub fn is_compressed(raw: &[u8]) -> (compressed: bool)
    ensures
        compressed == (raw@.len() > 0 && raw@[0] != MODULE_LEAD),
{
    raw.len() > 0 && raw[0] != MODULE_LEAD
}

/// The module that loaded bytes stand for, decompressed where they are not
/// a module as they are. What is given always begins like a module.
pub fn module_bytes(raw: Vec<u8>) -> (result: Result<Vec<u8>, LoadError>)
    ensures
        match result {
            Ok(module) => module_of(raw@, lz4_frame_content(raw@)) == Ok::<Seq<u8>, LoadError>(
                module@,
            ),
            Err(e) => module_of(raw@, lz4_frame_content(raw@)) == Err::<Seq<u8>, LoadError>(e),
        },
{
    if raw.len() == 0 {
        Err(LoadError::Empty)
    } else if is_compressed(raw.as_slice()) {
        match lz4_decompress(raw.as_slice()) {
            Ok(content) => if content.len() > 0 && content[0] == MODULE_LEAD {
                Ok(content)
            } else {
                Err(LoadError::MalformedCompressed)
            },
            Err(e) => Err(e),
        }
    } else {
        Ok(raw)
    }
}

/// Whatever is loaded, what is given for a module begins like one.
pub proof fn lemma_module_begins_like_one(raw: Seq<u8>, content: Option<Seq<u8>>)
    ensures
        module_of(raw, content) matches Ok(module) ==> begins_like_module(module),
{
}

/// Bytes that are a module as they are come back unchanged, whatever a
/// decoder would make of them.
pub proof fn lemma_plain_module_is_kept(raw: Seq<u8>, content: Option<Seq<u8>>)
    requires
        raw.len() > 0,
        raw[0] == MODULE_LEAD,
    ensures
        module_of(raw, content) == Ok::<Seq<u8>, LoadError>(raw),
{
}

} // verus!
