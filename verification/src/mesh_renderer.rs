//! Mesh renderers: a vertex array, its two buffers and a shader program,
//! composed into something that can be drawn.

use vstd::prelude::*;
use crate::buffer_object::BufferObject;
use crate::device::{AttributeState, Call, Command, Device, DeviceState};
use crate::enums::{BufferTarget, BufferUsage, DataType, Primitive};
use crate::error::{EngineError, Failure};
use crate::mesh::{check_mesh, valid_mesh};
use crate::shader_program::ShaderProgram;
use crate::vertex_array_object::VertexArrayObject;
use crate::vertex_attrib_pointer::VertexAttribPointer;

verus! {

/// A drawable mesh. It owns its device objects and keeps the data it last
/// uploaded, so that the data on the device always mirrors the data here.
#[derive(Debug)]
pub struct MeshRenderer {
    vertex_array: VertexArrayObject,
    shader_program: ShaderProgram,
    element_buffer: BufferObject,
    vertex_buffer: BufferObject,
    vertices: Vec<u32>,
    indices: Vec<u32>,
}

/// A mesh renderer that was not made: the reason, and the shader program
/// that was offered for it, which is still the caller's to use or release.
#[derive(Debug)]
pub struct MeshRejected {
    pub error: EngineError,
    pub shaders: ShaderProgram,
}

impl MeshRenderer {
    /// The name of the vertex array.
    pub closed spec fn vertex_array(&self) -> u32 {
        self.vertex_array.spec_id()
    }

    /// The name of the vertex buffer.
    pub closed spec fn vertex_buffer(&self) -> u32 {
        self.vertex_buffer.spec_id()
    }

    /// The name of the index buffer.
    pub closed spec fn element_buffer(&self) -> u32 {
        self.element_buffer.spec_id()
    }

    /// The shader program the mesh is drawn with.
    pub closed spec fn shader_program(&self) -> ShaderProgram {
        self.shader_program
    }

    /// The vertex components last uploaded.
    pub closed spec fn spec_vertices(&self) -> Seq<u32> {
        self.vertices@
    }

    /// The indices last uploaded.
    pub closed spec fn spec_indices(&self) -> Seq<u32> {
        self.indices@
    }

    /// The data meets the mesh invariant, the three objects have three
    /// different names, none of them 0, and each buffer binds to its own
    /// target.
    #[verifier::type_invariant]
    pub closed spec fn sound(&self) -> bool {
        &&& valid_mesh(self.vertices@, self.indices@)
        &&& self.vertex_array.spec_id() != 0
        &&& self.vertex_buffer.spec_id() != 0
        &&& self.element_buffer.spec_id() != 0
        &&& self.vertex_buffer.spec_id() != self.element_buffer.spec_id()
        &&& self.vertex_buffer.spec_target() == BufferTarget::ArrayBuffer
        &&& self.vertex_buffer.spec_usage() == BufferUsage::StaticDraw
        &&& self.element_buffer.spec_target() == BufferTarget::ElementArrayBuffer
        &&& self.element_buffer.spec_usage() == BufferUsage::StaticDraw
    }

    /// The one attribute of a mesh: positions at index 0, three tightly
    /// packed floats per vertex read from `buffer`, not normalized, enabled.
    pub open spec fn position_attribute(buffer: u32) -> AttributeState {
        AttributeState {
            buffer,
            size: 3,
            data_type: DataType::Float,
            normalized: false,
            stride: 12,
            enabled: true,
        }
    }

    /// The calls that set a mesh up on the device.
    pub open spec fn setup_calls(
        vertex_array: u32,
        vertex_buffer: u32,
        element_buffer: u32,
        vertices: Seq<u32>,
        indices: Seq<u32>,
    ) -> Seq<Call> {
        seq![
            Call::GenVertexArray { id: vertex_array },
            Call::GenBuffer { id: vertex_buffer },
            Call::GenBuffer { id: element_buffer },
            Call::BindVertexArray { id: vertex_array },
            Call::BindBuffer { target: BufferTarget::ArrayBuffer, id: vertex_buffer },
            Call::BufferData {
                target: BufferTarget::ArrayBuffer,
                words: vertices,
                usage: BufferUsage::StaticDraw,
            },
            Call::BindBuffer { target: BufferTarget::ElementArrayBuffer, id: element_buffer },
            Call::BufferData {
                target: BufferTarget::ElementArrayBuffer,
                words: indices,
                usage: BufferUsage::StaticDraw,
            },
            Call::VertexAttribPointer {
                index: 0,
                size: 3,
                data_type: DataType::Float,
                normalized: false,
                stride: 12,
            },
            Call::EnableVertexAttribArray { index: 0 },
            Call::BindBuffer { target: BufferTarget::ArrayBuffer, id: 0 },
            Call::BindVertexArray { id: 0 },
            Call::BindBuffer { target: BufferTarget::ElementArrayBuffer, id: 0 },
        ]
    }

    /// The calls that replace the contents of buffer `id` through `target`.
    pub open spec fn upload_calls(target: BufferTarget, id: u32, words: Seq<u32>) -> Seq<Call> {
        seq![
            Call::BindBuffer { target, id },
            Call::BufferData { target, words, usage: BufferUsage::StaticDraw },
            Call::BindBuffer { target, id: 0 },
        ]
    }

    /// The calls that draw the mesh: one indexed draw of triangles, as many
    /// indices as the mesh has.
    pub open spec fn draw_calls(&self) -> Seq<Call> {
        seq![
            Call::UseProgram { id: self.shader_program().spec_id() },
            Call::BindVertexArray { id: self.vertex_array() },
            Call::DrawElements {
                mode: Primitive::Triangles,
                count: self.spec_indices().len() as i32,
                index_type: DataType::UnsignedInt,
            },
        ]
    }

    /// The calls that release the mesh's objects.
    pub open spec fn release_calls(&self) -> Seq<Call> {
        seq![
            Call::DeleteProgram { id: self.shader_program().spec_id() },
            Call::DeleteVertexArray { id: self.vertex_array() },
            Call::DeleteBuffer { id: self.element_buffer() },
            Call::DeleteBuffer { id: self.vertex_buffer() },
        ]
    }

    /// The device holds the mesh as this renderer knows it: both buffers
    /// hold the data last uploaded, and the vertex array reads positions
    /// from the vertex buffer and indices from the index buffer.
    pub open spec fn resident(&self, state: DeviceState) -> bool {
        &&& state.contents.contains_key(self.vertex_buffer())
        &&& state.contents[self.vertex_buffer()] == self.spec_vertices()
        &&& state.contents.contains_key(self.element_buffer())
        &&& state.contents[self.element_buffer()] == self.spec_indices()
        &&& state.layouts[self.vertex_array()].elements == self.element_buffer()
        &&& state.attribute(self.vertex_array(), 0) == Self::position_attribute(
            self.vertex_buffer(),
        )
    }

    /// What setting a mesh up does to the device, whatever state it was in.
    pub proof fn lemma_setup(
        state: DeviceState,
        vertex_array: u32,
        vertex_buffer: u32,
        element_buffer: u32,
        vertices: Seq<u32>,
        indices: Seq<u32>,
    )
        requires
            vertex_array != 0,
            vertex_buffer != 0,
            element_buffer != 0,
            vertex_buffer != element_buffer,
        ensures
            ({
                let after = state.apply_all(
                    Self::setup_calls(vertex_array, vertex_buffer, element_buffer, vertices, indices),
                );
                &&& after.contents == state.contents.insert(vertex_buffer, vertices).insert(
                    element_buffer,
                    indices,
                )
                &&& after.layouts[vertex_array].elements == element_buffer
                &&& after.attribute(vertex_array, 0) == Self::position_attribute(vertex_buffer)
                &&& after.vertex_array == 0
                &&& after.bound == state.bound.insert(BufferTarget::ArrayBuffer, 0)
                &&& after.buffers == state.buffers.insert(vertex_buffer).insert(element_buffer)
                &&& after.vertex_arrays == state.vertex_arrays.insert(vertex_array)
                &&& after.shaders == state.shaders
                &&& after.programs == state.programs
                &&& after.program == state.program
            }),
    {
        reveal(DeviceState::apply);
        let calls = Self::setup_calls(vertex_array, vertex_buffer, element_buffer, vertices, indices);
        let after = |n: int| state.apply_all(calls.take(n));
        state.lemma_apply_next(calls, 0);
        state.lemma_apply_next(calls, 1);
        state.lemma_apply_next(calls, 2);
        state.lemma_apply_next(calls, 3);
        state.lemma_apply_next(calls, 4);
        state.lemma_apply_next(calls, 5);
        state.lemma_apply_next(calls, 6);
        state.lemma_apply_next(calls, 7);
        assert(after(8).layouts[vertex_array].elements == element_buffer);
        assert(after(8).contents == state.contents.insert(vertex_buffer, vertices).insert(
            element_buffer,
            indices,
        ));
        state.lemma_apply_next(calls, 8);
        state.lemma_apply_next(calls, 9);
        assert(after(10).attribute(vertex_array, 0) == Self::position_attribute(vertex_buffer));
        state.lemma_apply_next(calls, 10);
        state.lemma_apply_next(calls, 11);
        state.lemma_apply_next(calls, 12);
        assert(after(13).layouts[vertex_array] == after(10).layouts[vertex_array]);
    }

    /// Sets a mesh up on the device: creates the vertex array and the two
    /// buffers, under names that were not in use, uploads `vertices` and
    /// `indices`, points attribute 0 at the vertices as positions, and
    /// leaves nothing of its own bound.
    ///
    /// Data that breaks the mesh invariant is rejected with
    /// `InvalidMeshData`; a device with fewer than three names left, with
    /// `DeviceAllocationFailure`. A rejection issues nothing.
    pub fn new(
        vertices: Vec<u32>,
        indices: Vec<u32>,
        shaders: ShaderProgram,
        device: &mut Device,
    ) -> (made: Result<MeshRenderer, MeshRejected>)
        ensures
            made is Ok <==> valid_mesh(vertices@, indices@) && old(device).spec_available() >= 3,
            made matches Ok(renderer) ==> {
                &&& renderer.spec_vertices() == vertices@
                &&& renderer.spec_indices() == indices@
                &&& renderer.shader_program() == shaders
                &&& renderer.vertex_array() == old(device).next_id()
                &&& renderer.vertex_buffer() == old(device).next_id() + 1
                &&& renderer.element_buffer() == old(device).next_id() + 2
                &&& !old(device).state().vertex_arrays.contains(renderer.vertex_array())
                &&& !old(device).state().buffers.contains(renderer.vertex_buffer())
                &&& !old(device).state().buffers.contains(renderer.element_buffer())
                &&& final(device).next_id() == old(device).next_id() + 3
                &&& old(device).issues(
                    *final(device),
                    Self::setup_calls(
                        renderer.vertex_array(),
                        renderer.vertex_buffer(),
                        renderer.element_buffer(),
                        vertices@,
                        indices@,
                    ),
                )
                &&& renderer.resident(final(device).state())
                &&& final(device).state().vertex_array == 0
                &&& final(device).state().binding(BufferTarget::ArrayBuffer) == 0
            },
            made matches Err(rejected) ==> {
                &&& rejected.shaders == shaders
                &&& *final(device) == *old(device)
                &&& rejected.error@ == if !valid_mesh(vertices@, indices@) {
                    Failure::InvalidMeshData
                } else {
                    Failure::DeviceAllocationFailure
                }
            },
    {
        if !check_mesh(vertices.as_slice(), indices.as_slice()) {
            return Err(MeshRejected { error: EngineError::InvalidMeshData, shaders });
        }
        if device.available() < 3 {
            return Err(MeshRejected { error: EngineError::DeviceAllocationFailure, shaders });
        }
        proof {
            use_type_invariant(&*device);
            device.lemma_new_names_are_unused();
        }
        let ghost d0 = *device;
        let vertex_array = VertexArrayObject::new(device).unwrap();
        let ghost d1 = *device;
        let vertex_buffer = BufferObject::new(
            BufferTarget::ArrayBuffer,
            BufferUsage::StaticDraw,
            device,
        ).unwrap();
        let ghost d2 = *device;
        let element_buffer = BufferObject::new(
            BufferTarget::ElementArrayBuffer,
            BufferUsage::StaticDraw,
            device,
        ).unwrap();
        let ghost d3 = *device;
        let ghost calls = Self::setup_calls(
            vertex_array.spec_id(),
            vertex_buffer.spec_id(),
            element_buffer.spec_id(),
            vertices@,
            indices@,
        );

        vertex_array.bind(device);
        let ghost d4 = *device;

        vertex_buffer.bind(device);
        let ghost d5 = *device;
        vertex_buffer.data(vertices.as_slice(), device);
        let ghost d6 = *device;

        element_buffer.bind(device);
        let ghost d7 = *device;
        element_buffer.data(indices.as_slice(), device);
        let ghost d8 = *device;

        let vertex_attrib_pointer = VertexAttribPointer::new(0, 3, DataType::Float, false, 12, device);
        let ghost d9 = *device;
        vertex_attrib_pointer.enable(device);
        let ghost d10 = *device;

        vertex_buffer.unbind(device);
        let ghost d11 = *device;
        vertex_array.unbind(device);
        let ghost d12 = *device;
        element_buffer.unbind(device);

        proof {
            d0.lemma_issues_none(calls);
            d0.lemma_issues_next(d0, d1, calls, 0);
            d0.lemma_issues_next(d1, d2, calls, 1);
            d0.lemma_issues_next(d2, d3, calls, 2);
            d0.lemma_issues_next(d3, d4, calls, 3);
            d0.lemma_issues_next(d4, d5, calls, 4);
            d0.lemma_issues_next(d5, d6, calls, 5);
            d0.lemma_issues_next(d6, d7, calls, 6);
            d0.lemma_issues_next(d7, d8, calls, 7);
            d0.lemma_issues_next(d8, d9, calls, 8);
            d0.lemma_issues_next(d9, d10, calls, 9);
            d0.lemma_issues_next(d10, d11, calls, 10);
            d0.lemma_issues_next(d11, d12, calls, 11);
            d0.lemma_issues_next(d12, *device, calls, 12);
            assert(calls.take(13) =~= calls);
            Self::lemma_setup(
                d0.state(),
                vertex_array.spec_id(),
                vertex_buffer.spec_id(),
                element_buffer.spec_id(),
                vertices@,
                indices@,
            );
        }
        Ok(
            MeshRenderer {
                vertex_array,
                shader_program: shaders,
                element_buffer,
                vertex_buffer,
                vertices,
                indices,
            },
        )
    }

    /// The vertex components last uploaded.
    pub fn vertices(&self) -> (vertices: &Vec<u32>)
        ensures
            vertices@ == self.spec_vertices(),
    {
        &self.vertices
    }

    /// The indices last uploaded.
    pub fn indices(&self) -> (indices: &Vec<u32>)
        ensures
            indices@ == self.spec_indices(),
            valid_mesh(self.spec_vertices(), indices@),
    {
        proof {
            use_type_invariant(self);
        }
        &self.indices
    }

    /// Replaces the vertex data, on the device and here. Vertices that
    /// leave an index of the mesh without its vertex are rejected with
    /// `InvalidMeshData`, and nothing changes. The vertex array's attribute
    /// configuration is not touched.
    pub fn set_vertices(
        &mut self,
        vertices: Vec<u32>,
        device: &mut Device,
    ) -> (set: Result<(), EngineError>)
        ensures
            set is Ok <==> valid_mesh(vertices@, old(self).spec_indices()),
            set matches Err(e) ==> (e@ == Failure::InvalidMeshData),
            set is Err ==> *final(self) == *old(self) && *final(device) == *old(device),
            set is Ok ==> {
                let id = old(self).vertex_buffer();
                &&& final(self).spec_vertices() == vertices@
                &&& final(self).spec_indices() == old(self).spec_indices()
                &&& final(self).same_objects(*old(self))
                &&& old(device).issues(
                    *final(device),
                    Self::upload_calls(BufferTarget::ArrayBuffer, id, vertices@),
                )
                &&& final(device).next_id() == old(device).next_id()
                &&& final(device).state().contents == old(device).state().contents.insert(
                    id,
                    vertices@,
                )
                &&& final(device).state().layouts == old(device).state().layouts
                &&& old(self).resident(old(device).state()) ==> final(self).resident(
                    final(device).state(),
                )
            },
    {
        proof {
            use_type_invariant(&*self);
        }
        if !check_mesh(vertices.as_slice(), self.indices.as_slice()) {
            return Err(EngineError::InvalidMeshData);
        }
        let ghost d0 = *device;
        let ghost calls = Self::upload_calls(
            BufferTarget::ArrayBuffer,
            self.vertex_buffer.spec_id(),
            vertices@,
        );
        self.vertex_buffer.bind(device);
        let ghost d1 = *device;
        self.vertex_buffer.data(vertices.as_slice(), device);
        let ghost d2 = *device;
        self.vertex_buffer.unbind(device);
        proof {
            reveal(DeviceState::apply);
            d0.lemma_issues_none(calls);
            d0.lemma_issues_next(d0, d1, calls, 0);
            d0.lemma_issues_next(d1, d2, calls, 1);
            d0.lemma_issues_next(d2, *device, calls, 2);
            assert(calls.take(3) =~= calls);
            d0.state().lemma_apply_one(calls[0]);
            d1.state().lemma_apply_one(calls[1]);
            d2.state().lemma_apply_one(calls[2]);
        }
        self.vertices = vertices;
        Ok(())
    }

    /// Replaces the index data, on the device and here. Indices that name
    /// a vertex the mesh does not have are rejected with `InvalidMeshData`,
    /// and nothing changes.
    ///
    /// The upload goes through the element-array target, whose binding
    /// belongs to the bound vertex array: that vertex array is left without
    /// an index buffer. The device goes on holding this mesh as long as the
    /// bound vertex array is not the mesh's own.
    pub fn set_indices(
        &mut self,
        indices: Vec<u32>,
        device: &mut Device,
    ) -> (set: Result<(), EngineError>)
        ensures
            set is Ok <==> valid_mesh(old(self).spec_vertices(), indices@),
            set matches Err(e) ==> (e@ == Failure::InvalidMeshData),
            set is Err ==> *final(self) == *old(self) && *final(device) == *old(device),
            set is Ok ==> {
                let id = old(self).element_buffer();
                &&& final(self).spec_indices() == indices@
                &&& final(self).spec_vertices() == old(self).spec_vertices()
                &&& final(self).same_objects(*old(self))
                &&& old(device).issues(
                    *final(device),
                    Self::upload_calls(BufferTarget::ElementArrayBuffer, id, indices@),
                )
                &&& final(device).next_id() == old(device).next_id()
                &&& final(device).state().contents == old(device).state().contents.insert(
                    id,
                    indices@,
                )
                &&& old(self).resident(old(device).state()) && old(device).state().vertex_array
                    != old(self).vertex_array() ==> final(self).resident(final(device).state())
            },
    {
        proof {
            use_type_invariant(&*self);
        }
        if !check_mesh(self.vertices.as_slice(), indices.as_slice()) {
            return Err(EngineError::InvalidMeshData);
        }
        let ghost d0 = *device;
        let ghost calls = Self::upload_calls(
            BufferTarget::ElementArrayBuffer,
            self.element_buffer.spec_id(),
            indices@,
        );
        self.element_buffer.bind(device);
        let ghost d1 = *device;
        self.element_buffer.data(indices.as_slice(), device);
        let ghost d2 = *device;
        self.element_buffer.unbind(device);
        proof {
            reveal(DeviceState::apply);
            d0.lemma_issues_none(calls);
            d0.lemma_issues_next(d0, d1, calls, 0);
            d0.lemma_issues_next(d1, d2, calls, 1);
            d0.lemma_issues_next(d2, *device, calls, 2);
            assert(calls.take(3) =~= calls);
            d0.state().lemma_apply_one(calls[0]);
            d1.state().lemma_apply_one(calls[1]);
            d2.state().lemma_apply_one(calls[2]);
        }
        self.indices = indices;
        Ok(())
    }

    /// `self` and `other` own the same device objects.
    pub open spec fn same_objects(&self, other: MeshRenderer) -> bool {
        &&& self.vertex_array() == other.vertex_array()
        &&& self.vertex_buffer() == other.vertex_buffer()
        &&& self.element_buffer() == other.element_buffer()
        &&& self.shader_program() == other.shader_program()
    }

    /// What is uploaded is what is drawn: after new vertices are uploaded
    /// and the mesh is drawn, the vertex buffer holds exactly those vertices,
    /// and where the device held the mesh before, the draw happens with the
    /// mesh's program in use and its vertex array bound, reading positions
    /// from that buffer and indices from the index buffer.
    pub proof fn lemma_draws_what_was_uploaded(
        &self,
        state: DeviceState,
        vertices: Seq<u32>,
        uploaded: MeshRenderer,
    )
        requires
            self.sound(),
            uploaded.same_objects(*self),
            uploaded.spec_vertices() == vertices,
            uploaded.spec_indices() == self.spec_indices(),
        ensures
            ({
                let after = state.apply_all(
                    Self::upload_calls(BufferTarget::ArrayBuffer, self.vertex_buffer(), vertices)
                        + uploaded.draw_calls(),
                );
                &&& after.contents.contains_key(self.vertex_buffer())
                &&& after.contents[self.vertex_buffer()] == vertices
                &&& after.program == self.shader_program().spec_id()
                &&& after.vertex_array == self.vertex_array()
                &&& self.resident(state) ==> uploaded.resident(after)
            }),
    {
        reveal(DeviceState::apply);
        let upload = Self::upload_calls(BufferTarget::ArrayBuffer, self.vertex_buffer(), vertices);
        let draw = uploaded.draw_calls();
        let uploaded_state = state.apply_all(upload);
        state.lemma_apply_concat(upload, draw);
        state.lemma_apply_next(upload, 0);
        state.lemma_apply_next(upload, 1);
        state.lemma_apply_next(upload, 2);
        assert(uploaded_state.contents == state.contents.insert(self.vertex_buffer(), vertices));
        assert(uploaded_state.layouts == state.layouts);
        uploaded_state.lemma_apply_next(draw, 0);
        uploaded_state.lemma_apply_next(draw, 1);
        uploaded_state.lemma_apply_next(draw, 2);
    }

    /// Draws the mesh: puts its program in use, binds its vertex array, and
    /// issues one indexed draw of triangles over all of its indices. No
    /// buffer is bound for the draw: the vertex array remembers them. A mesh
    /// without indices draws nothing.
    pub fn render(&self, device: &mut Device)
        ensures
            old(device).issues(*final(device), self.draw_calls()),
            final(device).next_id() == old(device).next_id(),
            final(device).state().program == self.shader_program().spec_id(),
            final(device).state().vertex_array == self.vertex_array(),
            final(device).state().contents == old(device).state().contents,
            final(device).state().layouts == old(device).state().layouts,
    {
        proof {
            use_type_invariant(self);
        }
        let ghost d0 = *device;
        let ghost calls = self.draw_calls();
        self.shader_program.bind(device);
        let ghost d1 = *device;
        self.vertex_array.bind(device);
        let ghost d2 = *device;
        let count = self.indices.len() as i32;
        device.issue(
            Command::DrawElements {
                mode: Primitive::Triangles,
                count,
                index_type: DataType::UnsignedInt,
            },
        );
        proof {
            reveal(DeviceState::apply);
            d0.lemma_issues_none(calls);
            d0.lemma_issues_next(d0, d1, calls, 0);
            d0.lemma_issues_next(d1, d2, calls, 1);
            d0.lemma_issues_next(d2, *device, calls, 2);
            assert(calls.take(3) =~= calls);
            d0.state().lemma_apply_one(calls[0]);
            d1.state().lemma_apply_one(calls[1]);
        }
    }

    /// Releases the program, the vertex array and both buffers. The renderer
    /// is consumed.
    pub fn destroy(self, device: &mut Device)
        ensures
            old(device).issues(*final(device), self.release_calls()),
            final(device).next_id() == old(device).next_id(),
    {
        let ghost d0 = *device;
        let ghost calls = self.release_calls();
        let MeshRenderer {
            vertex_array,
            shader_program,
            element_buffer,
            vertex_buffer,
            vertices: _,
            indices: _,
        } = self;
        shader_program.destroy(device);
        let ghost d1 = *device;
        vertex_array.destroy(device);
        let ghost d2 = *device;
        element_buffer.destroy(device);
        let ghost d3 = *device;
        vertex_buffer.destroy(device);
        proof {
            d0.lemma_issues_none(calls);
            d0.lemma_issues_next(d0, d1, calls, 0);
            d0.lemma_issues_next(d1, d2, calls, 1);
            d0.lemma_issues_next(d2, d3, calls, 2);
            d0.lemma_issues_next(d3, *device, calls, 3);
            assert(calls.take(4) =~= calls);
        }
    }
}

} // verus!
