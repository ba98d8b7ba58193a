//! Buffer objects: device storage for vertex and index data.

use vstd::prelude::*;
use vstd::slice::slice_to_vec;
use crate::device::{Call, Command, Device, DeviceState};
use crate::enums::{BufferTarget, BufferUsage};
use crate::error::{EngineError, Failure};

verus! {

/// An owned buffer object. It cannot be copied; [`BufferObject::destroy`]
/// consumes it, so no call can name the buffer after it is gone.
#[derive(Debug)]
pub struct BufferObject {
    target: BufferTarget,
    usage: BufferUsage,
    id: u32,
}

impl BufferObject {
    /// The buffer's name.
    pub closed spec fn spec_id(&self) -> u32 {
        self.id
    }

    /// The target the buffer binds to.
    pub closed spec fn spec_target(&self) -> BufferTarget {
        self.target
    }

    /// The usage hint the buffer uploads with.
    pub closed spec fn spec_usage(&self) -> BufferUsage {
        self.usage
    }

    /// A buffer's name is never 0, the name of "no buffer".
    #[verifier::type_invariant]
    pub open spec fn named(&self) -> bool {
        self.spec_id() != 0
    }

    /// Creates a buffer for `target` that uploads with `usage`, under a name
    /// that was not in use. Fails, and issues nothing, exactly when the
    /// device has run out of names.
    pub fn new(
        target: BufferTarget,
        usage: BufferUsage,
        device: &mut Device,
    ) -> (buffer: Result<BufferObject, EngineError>)
        ensures
            buffer is Ok <==> old(device).spec_available() > 0,
            buffer matches Ok(b) ==> {
                &&& b.spec_id() == old(device).next_id()
                &&& b.spec_target() == target
                &&& b.spec_usage() == usage
                &&& b.named()
                &&& !old(device).state().buffers.contains(b.spec_id())
                &&& final(device).next_id() == old(device).next_id() + 1
                &&& old(device).issues(*final(device), seq![Call::GenBuffer { id: b.spec_id() }])
            },
            buffer matches Err(e) ==> e@ == Failure::DeviceAllocationFailure && *final(device)
                == *old(device),
    {
        proof {
            use_type_invariant(&*device);
            device.lemma_new_names_are_unused();
        }
        match device.allocate() {
            Some(id) => {
                device.issue(Command::GenBuffer { id });
                Ok(BufferObject { target, usage, id })
            },
            None => Err(EngineError::DeviceAllocationFailure),
        }
    }

    /// The buffer's name.
    #[verifier::when_used_as_spec(spec_id)]
    pub fn id(&self) -> (id: u32)
        ensures
            id == self.spec_id(),
            id != 0,
    {
        proof {
            use_type_invariant(self);
        }
        self.id
    }

    /// The target the buffer binds to.
    #[verifier::when_used_as_spec(spec_target)]
    pub fn target(&self) -> (target: BufferTarget)
        ensures
            target == self.spec_target(),
    {
        self.target
    }

    /// The usage hint the buffer uploads with.
    #[verifier::when_used_as_spec(spec_usage)]
    pub fn usage(&self) -> (usage: BufferUsage)
        ensures
            usage == self.spec_usage(),
    {
        self.usage
    }

    /// Makes this buffer the current one of its target.
    pub fn bind(&self, device: &mut Device)
        ensures
            old(device).issues(
                *final(device),
                seq![Call::BindBuffer { target: self.spec_target(), id: self.spec_id() }],
            ),
            final(device).next_id() == old(device).next_id(),
            final(device).state().binding(self.spec_target()) == self.spec_id(),
    {
        proof {
            reveal(DeviceState::apply);
        }
        device.issue(Command::BindBuffer { target: self.target, id: self.id });
    }

    /// Leaves the buffer's target with no buffer bound.
    pub fn unbind(&self, device: &mut Device)
        ensures
            old(device).issues(
                *final(device),
                seq![Call::BindBuffer { target: self.spec_target(), id: 0 }],
            ),
            final(device).next_id() == old(device).next_id(),
            final(device).state().binding(self.spec_target()) == 0,
    {
        proof {
            reveal(DeviceState::apply);
        }
        device.issue(Command::BindBuffer { target: self.target, id: 0 });
    }

    /// Replaces the whole contents of the buffer bound to this buffer's
    /// target with `data`, using this buffer's usage hint. Bind the buffer
    /// first: the upload goes to whatever is bound.
    pub fn data(&self, data: &[u32], device: &mut Device)
        ensures
            old(device).issues(
                *final(device),
                seq![
                    Call::BufferData {
                        target: self.spec_target(),
                        words: data@,
                        usage: self.spec_usage(),
                    },
                ],
            ),
            final(device).next_id() == old(device).next_id(),
            old(device).state().binding(self.spec_target()) == self.spec_id()
                ==> final(device).state().contents
                == old(device).state().contents.insert(self.spec_id(), data@),
    {
        proof {
            use_type_invariant(self);
            reveal(DeviceState::apply);
        }
        let words = slice_to_vec(data);
        device.issue(Command::BufferData { target: self.target, words, usage: self.usage });
    }

    /// Releases the buffer. The handle is consumed.
    pub fn destroy(self, device: &mut Device)
        ensures
            old(device).issues(*final(device), seq![Call::DeleteBuffer { id: self.spec_id() }]),
            final(device).next_id() == old(device).next_id(),
            final(device).state().buffers == old(device).state().buffers.remove(self.spec_id()),
    {
        proof {
            reveal(DeviceState::apply);
        }
        device.issue(Command::DeleteBuffer { id: self.id });
    }
}

} // verus!
