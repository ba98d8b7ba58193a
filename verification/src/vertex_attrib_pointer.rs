//! Vertex attribute pointers: how one attribute is read out of a buffer.

use vstd::prelude::*;
use crate::device::{AttributeState, Call, Command, Device, DeviceState};
use crate::enums::{BufferTarget, DataType};

verus! {

/// One configured attribute index of the vertex array that was bound when
/// the pointer was made.
#[derive(Debug)]
pub struct VertexAttribPointer {
    index: u32,
}

impl VertexAttribPointer {
    /// The attribute index.
    pub closed spec fn spec_index(&self) -> u32 {
        self.index
    }

    /// Points attribute `index` of the bound vertex array at the bound array
    /// buffer: `size` components of `data_type` per vertex, consecutive
    /// vertices `stride` bytes apart, starting at the buffer's first byte.
    pub fn new(
        index: u32,
        size: i32,
        data_type: DataType,
        normalized: bool,
        stride: i32,
        device: &mut Device,
    ) -> (pointer: VertexAttribPointer)
        ensures
            pointer.spec_index() == index,
            old(device).issues(
                *final(device),
                seq![Call::VertexAttribPointer { index, size, data_type, normalized, stride }],
            ),
            final(device).next_id() == old(device).next_id(),
            final(device).state().attribute(old(device).state().vertex_array, index)
                == (AttributeState {
                buffer: old(device).state().bound[BufferTarget::ArrayBuffer],
                size,
                data_type,
                normalized,
                stride,
                enabled: old(device).state().attribute(
                    old(device).state().vertex_array,
                    index,
                ).enabled,
            }),
    {
        proof {
            reveal(DeviceState::apply);
        }
        device.issue(Command::VertexAttribPointer { index, size, data_type, normalized, stride });
        VertexAttribPointer { index }
    }

    /// The attribute index.
    #[verifier::when_used_as_spec(spec_index)]
    pub fn index(&self) -> (index: u32)
        ensures
            index == self.spec_index(),
    {
        self.index
    }

    /// Turns the attribute on in the bound vertex array.
    pub fn enable(&self, device: &mut Device)
        ensures
            old(device).issues(
                *final(device),
                seq![Call::EnableVertexAttribArray { index: self.spec_index() }],
            ),
            final(device).next_id() == old(device).next_id(),
            final(device).state().attribute(old(device).state().vertex_array, self.spec_index())
                == (AttributeState {
                enabled: true,
                ..old(device).state().attribute(
                    old(device).state().vertex_array,
                    self.spec_index(),
                )
            }),
    {
        proof {
            reveal(DeviceState::apply);
        }
        device.issue(Command::EnableVertexAttribArray { index: self.index });
    }

    /// Turns the attribute off in the bound vertex array.
    pub fn disable(&self, device: &mut Device)
        ensures
            old(device).issues(
                *final(device),
                seq![Call::DisableVertexAttribArray { index: self.spec_index() }],
            ),
            final(device).next_id() == old(device).next_id(),
            final(device).state().attribute(old(device).state().vertex_array, self.spec_index())
                == (AttributeState {
                enabled: false,
                ..old(device).state().attribute(
                    old(device).state().vertex_array,
                    self.spec_index(),
                )
            }),
    {
        proof {
            reveal(DeviceState::apply);
        }
        device.issue(Command::DisableVertexAttribArray { index: self.index });
    }
}

/// A position attribute: three tightly packed floats per vertex, not
/// normalized.
#[derive(Debug)]
pub struct VertexAttribute {
    pointer: VertexAttribPointer,
}

impl VertexAttribute {
    /// Components per vertex of a position attribute.
    pub const COMPONENTS: i32 = 3;

    /// Bytes from one vertex to the next of a position attribute.
    pub const STRIDE: i32 = 12;

    /// The attribute index.
    pub closed spec fn spec_index(&self) -> u32 {
        self.pointer.spec_index()
    }

    /// Points attribute `index` of the bound vertex array at the bound array
    /// buffer, read as positions.
    pub fn new(index: u32, device: &mut Device) -> (attribute: VertexAttribute)
        ensures
            attribute.spec_index() == index,
            old(device).issues(
                *final(device),
                seq![
                    Call::VertexAttribPointer {
                        index,
                        size: 3,
                        data_type: DataType::Float,
                        normalized: false,
                        stride: 12,
                    },
                ],
            ),
            final(device).next_id() == old(device).next_id(),
    {
        let pointer = VertexAttribPointer::new(
            index,
            Self::COMPONENTS,
            DataType::Float,
            false,
            Self::STRIDE,
            device,
        );
        VertexAttribute { pointer }
    }

    /// The attribute index.
    #[verifier::when_used_as_spec(spec_index)]
    pub fn index(&self) -> (index: u32)
        ensures
            index == self.spec_index(),
    {
        self.pointer.index()
    }

    /// Turns the attribute on in the bound vertex array.
    pub fn enable(&self, device: &mut Device)
        ensures
            old(device).issues(
                *final(device),
                seq![Call::EnableVertexAttribArray { index: self.spec_index() }],
            ),
            final(device).next_id() == old(device).next_id(),
    {
        self.pointer.enable(device);
    }

    /// Turns the attribute off in the bound vertex array.
    pub fn disable(&self, device: &mut Device)
        ensures
            old(device).issues(
                *final(device),
                seq![Call::DisableVertexAttribArray { index: self.spec_index() }],
            ),
            final(device).next_id() == old(device).next_id(),
    {
        self.pointer.disable(device);
    }
}

} // verus!
