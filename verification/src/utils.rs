//! Shapes and upload semantics.

use vstd::prelude::*;

use crate::raw::clone_i64s;

verus! {

/// The shape of a host upload: its dimensions and the element-type code.
#[derive(Debug)]
pub struct Shape {
    pub dims: Vec<i64>,
    pub element_type: i32,
}

impl Shape {
    pub fn new(dims: Vec<i64>, element_type: i32) -> (s: Shape)
        ensures
            s.dims@ == dims@,
            s.element_type == element_type,
    {
        Shape { dims, element_type }
    }

    /// The dimensions of the shape.
    pub fn dims(&self) -> (d: Vec<i64>)
        ensures
            d@ == self.dims@,
    {
        clone_i64s(&self.dims)
    }
}

/// How long the plugin may read the host memory of an upload.
#[derive(Clone, Copy, Debug, PartialEq, Eq, Structural)]
pub enum HostBufferSemantics {
    /// The source is immutable only during the call; the caller may reuse it
    /// the instant the done-with-host-memory event is ready.
    ImmutableOnlyDuringCalls,
    /// The source stays immutable until the transfer completes.
    ImmutableUntilTransferCompletes,
    /// The plugin may alias the immutable source without copying.
    ImmutableZeroCopy,
    /// The plugin may alias and mutate the source.
    MutableZeroCopy,
}

impl HostBufferSemantics {
    /// The value the ABI numbers this semantics with.
    pub fn type_id(&self) -> (r: i32)
        ensures
            self == HostBufferSemantics::ImmutableOnlyDuringCalls ==> r == 0,
            self == HostBufferSemantics::ImmutableUntilTransferCompletes ==> r == 1,
            self == HostBufferSemantics::ImmutableZeroCopy ==> r == 2,
            self == HostBufferSemantics::MutableZeroCopy ==> r == 3,
    {
        match self {
            HostBufferSemantics::ImmutableOnlyDuringCalls => 0,
            HostBufferSemantics::ImmutableUntilTransferCompletes => 1,
            HostBufferSemantics::ImmutableZeroCopy => 2,
            HostBufferSemantics::MutableZeroCopy => 3,
        }
    }
}

/// The options of a host upload: the target device or memory, and the
/// source-lifetime semantics.
#[derive(Debug)]
pub struct BufferFromHostOptions {
    pub device: Option<u64>,
    pub memory: Option<u64>,
    pub semantics: HostBufferSemantics,
}

} // verus!
