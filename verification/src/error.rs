//! The failures that the runtime reports.

use vstd::prelude::*;

verus! {

/// A read from, or a write to, guest memory that could not be performed.
#[derive(Clone, Copy, Debug, PartialEq, Eq, Structural)]
pub enum MarshalError {
    /// The range reaches past the end of guest memory.
    OutOfBounds,
    /// The bytes are not well-formed UTF-8.
    InvalidEncoding,
}

/// A resource that could not be made or found.
#[derive(Clone, Copy, Debug, PartialEq, Eq, Structural)]
pub enum ResourceError {
    /// The handle names no entry of its table, or an entry of another kind;
    /// or a table is full, so that there is no handle for a new entry.
    InvalidHandle,
    /// The shader bytes did not parse, the module did not validate, or the
    /// bytes are no whole number of words; or the shader cannot be written
    /// as the text that was asked for.
    ShaderInvalid,
    /// A vertex input has a type for which there is no vertex format.
    UnsupportedVertexType,
}

/// A failure of the graphics device while a frame is set up.
#[derive(Clone, Copy, Debug, PartialEq, Eq, Structural)]
pub enum DeviceError {
    /// No swapchain texture could be acquired.
    AcquireFailed,
    /// The device is gone.
    DeviceLost,
}

/// A call that means nothing in the state in which it was made.
#[derive(Clone, Copy, Debug, PartialEq, Eq, Structural)]
pub enum ProtocolError {
    /// A draw while there is no pipeline: no shader was created yet, or the
    /// first one has no vertex layout.
    NoPipeline,
    /// A draw while there is no vertex buffer or no index buffer.
    NoBuffers,
}

/// A guest module that could not be prepared for instantiation.
#[derive(Clone, Copy, Debug, PartialEq, Eq, Structural)]
pub enum LoadError {
    /// There are no bytes at all.
    Empty,
    /// The bytes do not begin like a module, and the decoder reported an
    /// error on them or made of them what does not begin like a module.
    MalformedCompressed,
}

impl MarshalError {
    /// A short description for diagnostics.
    pub fn message(&self) -> (text: String)
        ensures
            text@ == (match *self {
                MarshalError::OutOfBounds => "range exceeds guest memory"@,
                MarshalError::InvalidEncoding => "bytes are not valid UTF-8"@,
            }),
    {
        match self {
            MarshalError::OutOfBounds => "range exceeds guest memory".to_owned(),
            MarshalError::InvalidEncoding => "bytes are not valid UTF-8".to_owned(),
        }
    }
}

impl ResourceError {
    /// A short description for diagnostics.
    pub fn message(&self) -> (text: String)
        ensures
            text@ == (match *self {
                ResourceError::InvalidHandle => "invalid handle"@,
                ResourceError::ShaderInvalid => "shader failed validation"@,
                ResourceError::UnsupportedVertexType => "unsupported vertex input type"@,
            }),
    {
        match self {
            ResourceError::InvalidHandle => "invalid handle".to_owned(),
            ResourceError::ShaderInvalid => "shader failed validation".to_owned(),
            ResourceError::UnsupportedVertexType => "unsupported vertex input type".to_owned(),
        }
    }
}

impl DeviceError {
    /// A short description for diagnostics.
    pub fn message(&self) -> (text: String)
        ensures
            text@ == (match *self {
                DeviceError::AcquireFailed => "could not acquire a frame"@,
                DeviceError::DeviceLost => "device lost"@,
            }),
    {
        match self {
            DeviceError::AcquireFailed => "could not acquire a frame".to_owned(),
            DeviceError::DeviceLost => "device lost".to_owned(),
        }
    }
}

impl ProtocolError {
    /// A short description for diagnostics.
    pub fn message(&self) -> (text: String)
        ensures
            text@ == (match *self {
                ProtocolError::NoPipeline => "draw without a pipeline"@,
                ProtocolError::NoBuffers => "draw without buffers"@,
            }),
    {
        match self {
            ProtocolError::NoPipeline => "draw without a pipeline".to_owned(),
            ProtocolError::NoBuffers => "draw without buffers".to_owned(),
        }
    }
}

impl LoadError {
    /// A short description for diagnostics.
    pub fn message(&self) -> (text: String)
        ensures
            text@ == (match *self {
                LoadError::Empty => "guest module is empty"@,
                LoadError::MalformedCompressed => "malformed compressed guest module"@,
            }),
    {
        match self {
            LoadError::Empty => "guest module is empty".to_owned(),
            LoadError::MalformedCompressed => "malformed compressed guest module".to_owned(),
        }
    }
}

} // verus!
