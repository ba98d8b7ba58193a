//! The command stream the engine emits, and what the commands mean.
//!
//! [`Command`] is one request to the graphics driver or the surface. The
//! engine appends commands to a [`Device`]; the host drains them with
//! [`Device::take_commands`] and carries them out in order. Object names in
//! commands are the engine's own: the host keeps the table from these names
//! to whatever the driver hands out.
//!
//! [`DeviceState`] describes the effect of a command on a context-bound,
//! stateful graphics API: binding one kind of object leaves the other kinds
//! alone, attribute pointers capture the array buffer bound when they are
//! configured, the element-array binding belongs to the bound vertex array,
//! and a buffer or vertex array that is deleted while bound is unbound.

use vstd::prelude::*;
use crate::enums::{BufferTarget, BufferUsage, DataType, Primitive, ShaderStage};

verus! {

/// One request to the driver or the surface. Floating-point arguments are
/// carried as their IEEE-754 bit patterns.
#[derive(Debug, PartialEq, Eq)]
pub enum Command {
    GenBuffer { id: u32 },
    DeleteBuffer { id: u32 },
    BindBuffer { target: BufferTarget, id: u32 },
    BufferData { target: BufferTarget, words: Vec<u32>, usage: BufferUsage },
    GenVertexArray { id: u32 },
    DeleteVertexArray { id: u32 },
    BindVertexArray { id: u32 },
    VertexAttribPointer { index: u32, size: i32, data_type: DataType, normalized: bool, stride: i32 },
    EnableVertexAttribArray { index: u32 },
    DisableVertexAttribArray { index: u32 },
    CreateShader { id: u32, stage: ShaderStage },
    ShaderSource { id: u32, source: String },
    CompileShader { id: u32 },
    /// Asks the host for the compile status and info log of a shader.
    GetCompileStatus { id: u32 },
    DeleteShader { id: u32 },
    CreateProgram { id: u32 },
    AttachShader { program: u32, shader: u32 },
    DetachShader { program: u32, shader: u32 },
    LinkProgram { id: u32 },
    /// Asks the host for the link status and info log of a program.
    GetLinkStatus { id: u32 },
    UseProgram { id: u32 },
    DeleteProgram { id: u32 },
    /// Asks the host for the location of a uniform of a linked program.
    GetUniformLocation { program: u32, name: String },
    Uniform1f { location: i32, x: u32 },
    Uniform2f { location: i32, x: u32, y: u32 },
    Uniform3f { location: i32, x: u32, y: u32, z: u32 },
    UniformMatrix4fv { location: i32, transpose: bool, matrix: [u32; 16] },
    DrawElements { mode: Primitive, count: i32, index_type: DataType },
    ClearColor { red: u32, green: u32, blue: u32, alpha: u32 },
    /// Clears the colour buffer.
    Clear,
    SwapBuffers,
    PollEvents,
    SetTitle { title: String },
    SetShouldClose { value: bool },
}

/// The mathematical value of a [`Command`].
pub ghost enum Call {
    GenBuffer { id: u32 },
    DeleteBuffer { id: u32 },
    BindBuffer { target: BufferTarget, id: u32 },
    BufferData { target: BufferTarget, words: Seq<u32>, usage: BufferUsage },
    GenVertexArray { id: u32 },
    DeleteVertexArray { id: u32 },
    BindVertexArray { id: u32 },
    VertexAttribPointer { index: u32, size: i32, data_type: DataType, normalized: bool, stride: i32 },
    EnableVertexAttribArray { index: u32 },
    DisableVertexAttribArray { index: u32 },
    CreateShader { id: u32, stage: ShaderStage },
    ShaderSource { id: u32, source: Seq<char> },
    CompileShader { id: u32 },
    GetCompileStatus { id: u32 },
    DeleteShader { id: u32 },
    CreateProgram { id: u32 },
    AttachShader { program: u32, shader: u32 },
    DetachShader { program: u32, shader: u32 },
    LinkProgram { id: u32 },
    GetLinkStatus { id: u32 },
    UseProgram { id: u32 },
    DeleteProgram { id: u32 },
    GetUniformLocation { program: u32, name: Seq<char> },
    Uniform1f { location: i32, x: u32 },
    Uniform2f { location: i32, x: u32, y: u32 },
    Uniform3f { location: i32, x: u32, y: u32, z: u32 },
    UniformMatrix4fv { location: i32, transpose: bool, matrix: Seq<u32> },
    DrawElements { mode: Primitive, count: i32, index_type: DataType },
    ClearColor { red: u32, green: u32, blue: u32, alpha: u32 },
    Clear,
    SwapBuffers,
    PollEvents,
    SetTitle { title: Seq<char> },
    SetShouldClose { value: bool },
}

impl View for Command {
    type V = Call;

    open spec fn view(&self) -> Call {
        match *self {
            Command::GenBuffer { id } => Call::GenBuffer { id },
            Command::DeleteBuffer { id } => Call::DeleteBuffer { id },
            Command::BindBuffer { target, id } => Call::BindBuffer { target, id },
            Command::BufferData { target, words, usage } => Call::BufferData {
                target,
                words: words@,
                usage,
            },
            Command::GenVertexArray { id } => Call::GenVertexArray { id },
            Command::DeleteVertexArray { id } => Call::DeleteVertexArray { id },
            Command::BindVertexArray { id } => Call::BindVertexArray { id },
            Command::VertexAttribPointer { index, size, data_type, normalized, stride } =>
                Call::VertexAttribPointer { index, size, data_type, normalized, stride },
            Command::EnableVertexAttribArray { index } => Call::EnableVertexAttribArray { index },
            Command::DisableVertexAttribArray { index } => Call::DisableVertexAttribArray { index },
            Command::CreateShader { id, stage } => Call::CreateShader { id, stage },
            Command::ShaderSource { id, source } => Call::ShaderSource { id, source: source@ },
            Command::CompileShader { id } => Call::CompileShader { id },
            Command::GetCompileStatus { id } => Call::GetCompileStatus { id },
            Command::DeleteShader { id } => Call::DeleteShader { id },
            Command::CreateProgram { id } => Call::CreateProgram { id },
            Command::AttachShader { program, shader } => Call::AttachShader { program, shader },
            Command::DetachShader { program, shader } => Call::DetachShader { program, shader },
            Command::LinkProgram { id } => Call::LinkProgram { id },
            Command::GetLinkStatus { id } => Call::GetLinkStatus { id },
            Command::UseProgram { id } => Call::UseProgram { id },
            Command::DeleteProgram { id } => Call::DeleteProgram { id },
            Command::GetUniformLocation { program, name } => Call::GetUniformLocation {
                program,
                name: name@,
            },
            Command::Uniform1f { location, x } => Call::Uniform1f { location, x },
            Command::Uniform2f { location, x, y } => Call::Uniform2f { location, x, y },
            Command::Uniform3f { location, x, y, z } => Call::Uniform3f { location, x, y, z },
            Command::UniformMatrix4fv { location, transpose, matrix } => Call::UniformMatrix4fv {
                location,
                transpose,
                matrix: matrix@,
            },
            Command::DrawElements { mode, count, index_type } => Call::DrawElements {
                mode,
                count,
                index_type,
            },
            Command::ClearColor { red, green, blue, alpha } => Call::ClearColor {
                red,
                green,
                blue,
                alpha,
            },
            Command::Clear => Call::Clear,
            Command::SwapBuffers => Call::SwapBuffers,
            Command::PollEvents => Call::PollEvents,
            Command::SetTitle { title } => Call::SetTitle { title: title@ },
            Command::SetShouldClose { value } => Call::SetShouldClose { value },
        }
    }
}

impl Call {
    /// The name this call creates an object under, if it creates one.
    pub open spec fn created(self) -> Option<u32> {
        match self {
            Call::GenBuffer { id } => Some(id),
            Call::GenVertexArray { id } => Some(id),
            Call::CreateShader { id, stage } => Some(id),
            Call::CreateProgram { id } => Some(id),
            _ => None,
        }
    }
}

/// Every object that `calls` create gets a name below `bound`.
pub open spec fn creates_below(calls: Seq<Call>, bound: int) -> bool {
    forall|i: int|
        0 <= i < calls.len() && (#[trigger] calls[i]).created() is Some ==> calls[i].created()->0
            < bound
}

/// The values of a sequence of commands.
pub open spec fn calls_of(commands: Seq<Command>) -> Seq<Call> {
    commands.map_values(|c: Command| c@)
}

/// What a vertex array remembers about one attribute index.
pub ghost struct AttributeState {
    /// The array buffer that was bound when the pointer was configured.
    pub buffer: u32,
    pub size: i32,
    pub data_type: DataType,
    pub normalized: bool,
    pub stride: i32,
    pub enabled: bool,
}

impl AttributeState {
    /// An attribute nobody has configured.
    pub open spec fn unset() -> AttributeState {
        AttributeState {
            buffer: 0,
            size: 4,
            data_type: DataType::Float,
            normalized: false,
            stride: 0,
            enabled: false,
        }
    }
}

/// The state a vertex array captures while it is bound.
pub ghost struct VertexArrayState {
    /// The buffer bound to the element-array target.
    pub elements: u32,
    pub attributes: Map<u32, AttributeState>,
}

impl VertexArrayState {
    /// A vertex array nothing has been recorded into.
    pub open spec fn unset() -> VertexArrayState {
        VertexArrayState {
            elements: 0,
            attributes: Map::total(|index: u32| AttributeState::unset()),
        }
    }
}

/// The part of the device's state that the engine's commands act on.
/// Name 0 stands for "no object" in every binding.
pub ghost struct DeviceState {
    /// Names of the buffers created and not deleted.
    pub buffers: Set<u32>,
    /// The 32-bit words last uploaded to each buffer.
    pub contents: Map<u32, Seq<u32>>,
    /// The buffer bound to each target other than the element-array target.
    pub bound: Map<BufferTarget, u32>,
    /// Names of the vertex arrays created and not deleted.
    pub vertex_arrays: Set<u32>,
    /// What each vertex array has captured. Entry 0 is the state that is
    /// current while no vertex array is bound.
    pub layouts: Map<u32, VertexArrayState>,
    /// The bound vertex array.
    pub vertex_array: u32,
    /// Names of the shader objects created and not deleted.
    pub shaders: Set<u32>,
    /// Names of the programs created and not deleted.
    pub programs: Set<u32>,
    /// The program in use.
    pub program: u32,
}

impl DeviceState {
    /// The state of a context on which nothing has been called.
    pub open spec fn initial() -> DeviceState {
        DeviceState {
            buffers: Set::empty(),
            contents: Map::empty(),
            bound: Map::total(|target: BufferTarget| 0u32),
            vertex_arrays: Set::empty(),
            layouts: Map::total(|id: u32| VertexArrayState::unset()),
            vertex_array: 0,
            shaders: Set::empty(),
            programs: Set::empty(),
            program: 0,
        }
    }

    /// Every name in use is below `bound`.
    pub open spec fn names_below(self, bound: int) -> bool {
        forall|id: u32|
            #![trigger self.buffers.contains(id)]
            #![trigger self.vertex_arrays.contains(id)]
            #![trigger self.shaders.contains(id)]
            #![trigger self.programs.contains(id)]
            {
                ||| self.buffers.contains(id)
                ||| self.vertex_arrays.contains(id)
                ||| self.shaders.contains(id)
                ||| self.programs.contains(id)
            } ==> id < bound
    }

    /// Calls that create nothing at or above `bound` leave every name in use
    /// below `bound`.
    pub proof fn lemma_names_below(calls: Seq<Call>, bound: int)
        requires
            creates_below(calls, bound),
        ensures
            Self::initial().apply_all(calls).names_below(bound),
        decreases calls.len(),
    {
        reveal(DeviceState::apply);
        if calls.len() > 0 {
            let front = calls.drop_last();
            assert forall|i: int| 0 <= i < front.len() && (#[trigger] front[i]).created() is Some
                implies front[i].created()->0 < bound by {
                assert(front[i] == calls[i]);
            }
            Self::lemma_names_below(front, bound);
            assert(calls.last() == calls[calls.len() - 1]);
        }
    }

    /// The buffer that calls naming `target` act on.
    pub open spec fn binding(self, target: BufferTarget) -> u32 {
        if target == BufferTarget::ElementArrayBuffer {
            self.layouts[self.vertex_array].elements
        } else {
            self.bound[target]
        }
    }

    /// What vertex array `id` holds for attribute `index`.
    pub open spec fn attribute(self, id: u32, index: u32) -> AttributeState {
        self.layouts[id].attributes[index]
    }

    /// The state with attribute `index` of the bound vertex array replaced.
    pub open spec fn with_attribute(self, index: u32, attribute: AttributeState) -> DeviceState {
        let layout = self.layouts[self.vertex_array];
        DeviceState {
            layouts: self.layouts.insert(
                self.vertex_array,
                VertexArrayState { attributes: layout.attributes.insert(index, attribute), ..layout },
            ),
            ..self
        }
    }

    /// The state after one call.
    #[verifier::opaque]
    pub open spec fn apply(self, call: Call) -> DeviceState {
        match call {
            Call::GenBuffer { id } => DeviceState { buffers: self.buffers.insert(id), ..self },
            Call::DeleteBuffer { id } => {
                let layout = self.layouts[self.vertex_array];
                DeviceState {
                    buffers: self.buffers.remove(id),
                    contents: self.contents.remove(id),
                    bound: Map::total(
                        |target: BufferTarget|
                            if self.bound[target] == id {
                                0
                            } else {
                                self.bound[target]
                            },
                    ),
                    layouts: if layout.elements == id {
                        self.layouts.insert(
                            self.vertex_array,
                            VertexArrayState { elements: 0, ..layout },
                        )
                    } else {
                        self.layouts
                    },
                    ..self
                }
            },
            Call::BindBuffer { target, id } => if target == BufferTarget::ElementArrayBuffer {
                DeviceState {
                    layouts: self.layouts.insert(
                        self.vertex_array,
                        VertexArrayState { elements: id, ..self.layouts[self.vertex_array] },
                    ),
                    ..self
                }
            } else {
                DeviceState { bound: self.bound.insert(target, id), ..self }
            },
            Call::BufferData { target, words, usage } => if self.binding(target) != 0 {
                DeviceState { contents: self.contents.insert(self.binding(target), words), ..self }
            } else {
                self
            },
            Call::GenVertexArray { id } => DeviceState {
                vertex_arrays: self.vertex_arrays.insert(id),
                ..self
            },
            Call::DeleteVertexArray { id } => DeviceState {
                vertex_arrays: self.vertex_arrays.remove(id),
                layouts: self.layouts.insert(id, VertexArrayState::unset()),
                vertex_array: if self.vertex_array == id {
                    0
                } else {
                    self.vertex_array
                },
                ..self
            },
            Call::BindVertexArray { id } => DeviceState { vertex_array: id, ..self },
            Call::VertexAttribPointer { index, size, data_type, normalized, stride } =>
                self.with_attribute(
                    index,
                    AttributeState {
                        buffer: self.bound[BufferTarget::ArrayBuffer],
                        size,
                        data_type,
                        normalized,
                        stride,
                        enabled: self.attribute(self.vertex_array, index).enabled,
                    },
                ),
            Call::EnableVertexAttribArray { index } => self.with_attribute(
                index,
                AttributeState { enabled: true, ..self.attribute(self.vertex_array, index) },
            ),
            Call::DisableVertexAttribArray { index } => self.with_attribute(
                index,
                AttributeState { enabled: false, ..self.attribute(self.vertex_array, index) },
            ),
            Call::CreateShader { id, stage } => DeviceState {
                shaders: self.shaders.insert(id),
                ..self
            },
            Call::DeleteShader { id } => DeviceState { shaders: self.shaders.remove(id), ..self },
            Call::CreateProgram { id } => DeviceState {
                programs: self.programs.insert(id),
                ..self
            },
            Call::DeleteProgram { id } => DeviceState {
                programs: self.programs.remove(id),
                ..self
            },
            Call::UseProgram { id } => DeviceState { program: id, ..self },
            _ => self,
        }
    }

    /// Binding is idempotent: binding what is bound changes nothing.
    pub proof fn lemma_bind_is_idempotent(self, call: Call)
        requires
            call is BindBuffer || call is BindVertexArray || call is UseProgram,
        ensures
            self.apply(call).apply(call) == self.apply(call),
    {
        reveal(DeviceState::apply);
        let once = self.apply(call);
        let twice = once.apply(call);
        assert(twice.bound =~= once.bound);
        assert(twice.layouts =~= once.layouts);
    }

    /// The state after a sequence of calls, first to last.
    pub open spec fn apply_all(self, calls: Seq<Call>) -> DeviceState
        decreases calls.len(),
    {
        if calls.len() == 0 {
            self
        } else {
            self.apply_all(calls.drop_last()).apply(calls.last())
        }
    }

    /// Applying `calls` and then `call` is applying `calls` with `call`
    /// appended.
    pub proof fn lemma_apply_push(self, calls: Seq<Call>, call: Call)
        ensures
            self.apply_all(calls.push(call)) == self.apply_all(calls).apply(call),
    {
        assert(calls.push(call).drop_last() =~= calls);
    }

    /// Applying the first `n + 1` of `calls` is applying the first `n` and
    /// then the next.
    pub proof fn lemma_apply_next(self, calls: Seq<Call>, n: int)
        requires
            0 <= n < calls.len(),
        ensures
            self.apply_all(calls.take(n + 1)) == self.apply_all(calls.take(n)).apply(calls[n]),
            self.apply_all(calls.take(0)) == self,
            n + 1 == calls.len() ==> calls.take(n + 1) == calls,
    {
        assert(calls.take(n + 1).drop_last() =~= calls.take(n));
        assert(calls.take(calls.len() as int) =~= calls);
    }

    /// Applying a single call is applying the sequence made of it.
    pub proof fn lemma_apply_one(self, call: Call)
        ensures
            self.apply_all(seq![call]) == self.apply(call),
    {
        assert(seq![call] =~= Seq::<Call>::empty().push(call));
        self.lemma_apply_push(Seq::<Call>::empty(), call);
    }

    /// Applying `first` and then `second` is applying their concatenation.
    pub proof fn lemma_apply_concat(self, first: Seq<Call>, second: Seq<Call>)
        ensures
            self.apply_all(first + second) == self.apply_all(first).apply_all(second),
        decreases second.len(),
    {
        if second.len() == 0 {
            assert(first + second =~= first);
        } else {
            self.lemma_apply_concat(first, second.drop_last());
            assert((first + second).drop_last() =~= first + second.drop_last());
        }
    }
}

/// The recorder the engine issues its commands to.
pub struct Device {
    pending: Vec<Command>,
    last_id: u32,
    flushed: Ghost<Seq<Call>>,
}

impl Device {
    /// Every call issued so far, first to last.
    pub closed spec fn issued(&self) -> Seq<Call> {
        self.flushed@ + calls_of(self.pending@)
    }

    /// The calls the host has not taken yet.
    pub closed spec fn pending(&self) -> Seq<Call> {
        calls_of(self.pending@)
    }

    /// How many names are left.
    pub closed spec fn spec_available(&self) -> u32 {
        (u32::MAX - self.last_id) as u32
    }

    /// The name the next object gets. Names count up and are never handed
    /// out twice; the name after the last is one the device cannot hand out.
    pub open spec fn next_id(&self) -> int {
        u32::MAX + 1 - self.spec_available()
    }

    /// No call has created an object under a name the device has not handed
    /// out yet.
    #[verifier::type_invariant]
    pub closed spec fn sound(&self) -> bool {
        &&& creates_below(self.flushed@, self.last_id + 1)
        &&& creates_below(calls_of(self.pending@), self.last_id + 1)
    }

    /// Names are unique: a name the device has not handed out yet is the
    /// name of no object.
    pub proof fn lemma_new_names_are_unused(&self)
        requires
            self.sound(),
        ensures
            self.state().names_below(self.next_id()),
    {
        assert(creates_below(self.issued(), self.next_id())) by {
            assert forall|i: int|
                0 <= i < self.issued().len() && (#[trigger] self.issued()[i]).created() is Some
                implies self.issued()[i].created()->0 < self.next_id() by {
                if i < self.flushed@.len() {
                    assert(self.issued()[i] == self.flushed@[i]);
                } else {
                    assert(self.issued()[i] == calls_of(self.pending@)[i - self.flushed@.len()]);
                }
            }
        }
        DeviceState::lemma_names_below(self.issued(), self.next_id());
    }

    /// The state the host's context is in once it has carried out everything
    /// issued so far.
    pub open spec fn state(&self) -> DeviceState {
        DeviceState::initial().apply_all(self.issued())
    }

    /// `after` has `calls` issued on top of what `self` has.
    pub open spec fn issues(&self, after: Device, calls: Seq<Call>) -> bool {
        &&& after.issued() == self.issued() + calls
        &&& after.pending() == self.pending() + calls
        &&& after.state() == self.state().apply_all(calls)
    }

    /// Issuing `calls` and then `more` is issuing `calls + more`.
    pub proof fn lemma_issues_more(&self, mid: Device, after: Device, calls: Seq<Call>, more: Seq<Call>)
        requires
            self.issues(mid, calls),
            mid.issues(after, more),
        ensures
            self.issues(after, calls + more),
    {
        assert(self.issued() + (calls + more) =~= self.issued() + calls + more);
        assert(self.pending() + (calls + more) =~= self.pending() + calls + more);
        self.state().lemma_apply_concat(calls, more);
    }

    /// Nothing issued is the empty prefix of any sequence issued.
    pub proof fn lemma_issues_none(&self, calls: Seq<Call>)
        ensures
            self.issues(*self, calls.take(0)),
    {
        assert(calls.take(0) =~= Seq::<Call>::empty());
        assert(self.issued() + calls.take(0) =~= self.issued());
        assert(self.pending() + calls.take(0) =~= self.pending());
    }

    /// Issuing the first `n` of `calls` and then the next one is issuing the
    /// first `n + 1`.
    pub proof fn lemma_issues_next(&self, mid: Device, after: Device, calls: Seq<Call>, n: int)
        requires
            0 <= n < calls.len(),
            self.issues(mid, calls.take(n)),
            mid.issues(after, seq![calls[n]]),
        ensures
            self.issues(after, calls.take(n + 1)),
    {
        self.lemma_issues_more(mid, after, calls.take(n), seq![calls[n]]);
        assert(calls.take(n) + seq![calls[n]] =~= calls.take(n + 1));
    }

    /// A device on which nothing has been issued.
    pub fn new() -> (device: Device)
        ensures
            device.issued() == Seq::<Call>::empty(),
            device.pending() == Seq::<Call>::empty(),
            device.next_id() == 1,
            device.state() == DeviceState::initial(),
    {
        let device = Device { pending: Vec::new(), last_id: 0, flushed: Ghost(Seq::empty()) };
        assert(device.issued() =~= Seq::<Call>::empty());
        assert(device.pending() =~= Seq::<Call>::empty());
        device
    }

    /// A device on which nothing has been issued and whose names count up
    /// from `first`, for a host that has taken the names below for its own.
    /// No device starts at 0, the name of "no object".
    pub fn starting_at(first: u32) -> (device: Option<Device>)
        ensures
            device is Some <==> first != 0,
            device matches Some(d) ==> {
                &&& d.issued() == Seq::<Call>::empty()
                &&& d.pending() == Seq::<Call>::empty()
                &&& d.next_id() == first
                &&& d.state() == DeviceState::initial()
            },
    {
        if first == 0 {
            None
        } else {
            let device = Device {
                pending: Vec::new(),
                last_id: first - 1,
                flushed: Ghost(Seq::empty()),
            };
            assert(device.issued() =~= Seq::<Call>::empty());
            assert(device.pending() =~= Seq::<Call>::empty());
            Some(device)
        }
    }

    /// How many names are left.
    #[verifier::when_used_as_spec(spec_available)]
    pub fn available(&self) -> (n: u32)
        ensures
            n == self.spec_available(),
    {
        u32::MAX - self.last_id
    }

    /// Hands the pending commands to the host, in the order they were issued.
    pub fn take_commands(&mut self) -> (commands: Vec<Command>)
        ensures
            calls_of(commands@) == old(self).pending(),
            final(self).pending() == Seq::<Call>::empty(),
            final(self).issued() == old(self).issued(),
            final(self).next_id() == old(self).next_id(),
    {
        proof {
            use_type_invariant(&*self);
        }
        let mut commands: Vec<Command> = Vec::new();
        core::mem::swap(&mut commands, &mut self.pending);
        proof {
            let bound = self.last_id + 1;
            let taken = calls_of(commands@);
            assert(creates_below(self.flushed@ + taken, bound)) by {
                assert forall|i: int|
                    0 <= i < (self.flushed@ + taken).len() && (#[trigger] (self.flushed@
                        + taken)[i]).created() is Some implies (self.flushed@
                    + taken)[i].created()->0 < bound by {
                    if i < self.flushed@.len() {
                        assert((self.flushed@ + taken)[i] == self.flushed@[i]);
                    } else {
                        assert((self.flushed@ + taken)[i] == taken[i - self.flushed@.len()]);
                    }
                }
            }
            self.flushed@ = self.flushed@ + taken;
            assert(calls_of(self.pending@) =~= Seq::<Call>::empty());
            assert(self.issued() =~= old(self).issued());
        }
        commands
    }

    /// Records one command. A command that creates an object names it with a
    /// name the device has handed out.
    pub(crate) fn issue(&mut self, command: Command)
        requires
            command@.created() is Some ==> command@.created()->0 < old(self).next_id(),
        ensures
            old(self).issues(*final(self), seq![command@]),
            final(self).issued() == old(self).issued().push(command@),
            final(self).state() == old(self).state().apply(command@),
            final(self).next_id() == old(self).next_id(),
    {
        proof {
            use_type_invariant(&*self);
        }
        let ghost call = command@;
        let mut pending: Vec<Command> = Vec::new();
        core::mem::swap(&mut pending, &mut self.pending);
        pending.push(command);
        proof {
            assert(calls_of(pending@) =~= calls_of(old(self).pending@).push(call));
        }
        core::mem::swap(&mut pending, &mut self.pending);
        proof {
            assert(self.issued() =~= old(self).issued().push(call));
            assert(old(self).issued() + seq![call] =~= old(self).issued().push(call));
            assert(old(self).pending() + seq![call] =~= old(self).pending().push(call));
            DeviceState::initial().lemma_apply_push(old(self).issued(), call);
            old(self).state().lemma_apply_one(call);
        }
    }

    /// Records `commands`, first to last. The commands that create objects
    /// name them with names the device has handed out.
    pub(crate) fn issue_all(&mut self, commands: Vec<Command>)
        requires
            creates_below(calls_of(commands@), old(self).next_id()),
        ensures
            old(self).issues(*final(self), calls_of(commands@)),
            final(self).next_id() == old(self).next_id(),
    {
        proof {
            use_type_invariant(&*self);
        }
        let mut commands = commands;
        let ghost calls = calls_of(commands@);
        let mut pending: Vec<Command> = Vec::new();
        core::mem::swap(&mut pending, &mut self.pending);
        pending.append(&mut commands);
        proof {
            assert(calls_of(pending@) =~= calls_of(old(self).pending@) + calls);
            assert forall|i: int|
                0 <= i < calls_of(pending@).len() && (#[trigger] calls_of(
                    pending@,
                )[i]).created() is Some implies calls_of(pending@)[i].created()->0
                < self.last_id + 1 by {
                if i < old(self).pending@.len() {
                    assert(calls_of(pending@)[i] == calls_of(old(self).pending@)[i]);
                } else {
                    assert(calls_of(pending@)[i] == calls[i - old(self).pending@.len()]);
                }
            }
        }
        core::mem::swap(&mut pending, &mut self.pending);
        proof {
            assert(self.issued() =~= old(self).issued() + calls);
            DeviceState::initial().lemma_apply_concat(old(self).issued(), calls);
        }
    }

    /// Hands out the next name, if one is left.
    pub(crate) fn allocate(&mut self) -> (id: Option<u32>)
        ensures
            id is Some <==> old(self).spec_available() > 0,
            id is Some ==> id->0 != 0 && id->0 == old(self).next_id() && final(self).next_id()
                == old(self).next_id() + 1,
            id is None ==> *final(self) == *old(self),
            final(self).issued() == old(self).issued(),
            final(self).pending() == old(self).pending(),
    {
        proof {
            use_type_invariant(&*self);
        }
        if self.last_id < u32::MAX {
            self.last_id = self.last_id + 1;
            Some(self.last_id)
        } else {
            None
        }
    }
}

} // verus!
