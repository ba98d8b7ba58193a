//! Vertex array objects: the record of where vertex attributes come from.

use vstd::prelude::*;
use crate::device::{Call, Command, Device, DeviceState};
use crate::error::{EngineError, Failure};

verus! {

/// An owned vertex array object. While it is bound it captures attribute
/// pointers and the element-array binding. It cannot be copied;
/// [`VertexArrayObject::destroy`] consumes it.
#[derive(Debug)]
pub struct VertexArrayObject {
    id: u32,
}

impl VertexArrayObject {
    /// The vertex array's name.
    pub closed spec fn spec_id(&self) -> u32 {
        self.id
    }

    /// A vertex array's name is never 0, the name of "no vertex array".
    #[verifier::type_invariant]
    pub open spec fn named(&self) -> bool {
        self.spec_id() != 0
    }

    /// Creates a vertex array, under a name that was not in use. Fails, and
    /// issues nothing, exactly when the device has run out of names.
    pub fn new(device: &mut Device) -> (array: Result<VertexArrayObject, EngineError>)
        ensures
            array is Ok <==> old(device).spec_available() > 0,
            array matches Ok(a) ==> {
                &&& a.spec_id() == old(device).next_id()
                &&& a.named()
                &&& !old(device).state().vertex_arrays.contains(a.spec_id())
                &&& final(device).next_id() == old(device).next_id() + 1
                &&& old(device).issues(
                    *final(device),
                    seq![Call::GenVertexArray { id: a.spec_id() }],
                )
            },
            array matches Err(e) ==> e@ == Failure::DeviceAllocationFailure && *final(device)
                == *old(device),
    {
        proof {
            use_type_invariant(&*device);
            device.lemma_new_names_are_unused();
        }
        match device.allocate() {
            Some(id) => {
                device.issue(Command::GenVertexArray { id });
                Ok(VertexArrayObject { id })
            },
            None => Err(EngineError::DeviceAllocationFailure),
        }
    }

    /// The vertex array's name.
    #[verifier::when_used_as_spec(spec_id)]
    pub fn id(&self) -> (id: u32)
        ensures
            id == self.spec_id(),
            id != 0,
    {
        proof {
            use_type_invariant(self);
        }
        self.id
    }

    /// Makes this the bound vertex array.
    pub fn bind(&self, device: &mut Device)
        ensures
            old(device).issues(*final(device), seq![Call::BindVertexArray { id: self.spec_id() }]),
            final(device).next_id() == old(device).next_id(),
            final(device).state().vertex_array == self.spec_id(),
    {
        proof {
            reveal(DeviceState::apply);
        }
        device.issue(Command::BindVertexArray { id: self.id });
    }

    /// Leaves no vertex array bound.
    pub fn unbind(&self, device: &mut Device)
        ensures
            old(device).issues(*final(device), seq![Call::BindVertexArray { id: 0 }]),
            final(device).next_id() == old(device).next_id(),
            final(device).state().vertex_array == 0,
    {
        proof {
            reveal(DeviceState::apply);
        }
        device.issue(Command::BindVertexArray { id: 0 });
    }

    /// Releases the vertex array. The handle is consumed.
    pub fn destroy(self, device: &mut Device)
        ensures
            old(device).issues(
                *final(device),
                seq![Call::DeleteVertexArray { id: self.spec_id() }],
            ),
            final(device).next_id() == old(device).next_id(),
            final(device).state().vertex_arrays == old(device).state().vertex_arrays.remove(
                self.spec_id(),
            ),
    {
        proof {
            reveal(DeviceState::apply);
        }
        device.issue(Command::DeleteVertexArray { id: self.id });
    }
}

} // verus!
