//! Shader programs: building one from two stages, and setting its uniforms.
//!
//! Compiling and linking happen in the driver, so a program is built in
//! steps. [`ShaderProgram::new`] creates the objects of the build, issues
//! the first compile and returns a [`ShaderBuild`]; the host reports each
//! status the build asks for to [`ShaderBuild::advance`] until the build is
//! linked or has failed. However a build ends, its two stage objects are
//! released; a build that failed releases its program object too.
//!
//! Uniform locations are asked of the driver once per name and remembered.

use vstd::prelude::*;
use vstd::string::StringExecFns;
use crate::device::{calls_of, Call, Command, Device, DeviceState};
use crate::enums::ShaderStage;
use crate::error::{EngineError, Failure};

verus! {

/// The driver's answer to a compile-status or link-status request.
#[derive(Debug, PartialEq, Eq)]
pub struct BuildStatus {
    /// Whether the compile or link succeeded.
    pub success: bool,
    /// The driver's info log.
    pub log: String,
}

/// A value for a uniform, as IEEE-754 bit patterns. A matrix is given
/// column by column.
#[derive(Clone, Copy, Debug, PartialEq, Eq)]
pub enum UniformValue {
    Float(u32),
    Vec2([u32; 2]),
    Vec3([u32; 3]),
    Mat4([u32; 16]),
}

impl UniformValue {
    /// The call that stores this value at `location`.
    pub open spec fn call(self, location: i32) -> Call {
        match self {
            UniformValue::Float(x) => Call::Uniform1f { location, x },
            UniformValue::Vec2(v) => Call::Uniform2f { location, x: v[0], y: v[1] },
            UniformValue::Vec3(v) => Call::Uniform3f { location, x: v[0], y: v[1], z: v[2] },
            UniformValue::Mat4(m) => Call::UniformMatrix4fv {
                location,
                transpose: false,
                matrix: m@,
            },
        }
    }
}

/// What became of a request that needs a uniform's location.
#[derive(Clone, Copy, Debug, PartialEq, Eq, Structural)]
pub enum UniformLookup {
    /// The location was known; the request was carried out with it.
    Known(i32),
    /// The location was not known. The driver has been asked for it; hand the
    /// answer to [`ShaderProgram::create_uniform`] and repeat the request.
    Asked,
}

/// One remembered uniform location.
#[derive(Debug)]
struct UniformEntry {
    name: String,
    location: i32,
}

/// The locations a list of entries remembers; a later entry wins.
spec fn cache_of(entries: Seq<UniformEntry>) -> Map<Seq<char>, i32>
    decreases entries.len(),
{
    if entries.len() == 0 {
        Map::empty()
    } else {
        cache_of(entries.drop_last()).insert(entries.last().name@, entries.last().location)
    }
}

/// A linked shader program with its remembered uniform locations. It cannot
/// be copied; [`ShaderProgram::destroy`] consumes it.
#[derive(Debug)]
pub struct ShaderProgram {
    uniforms: Vec<UniformEntry>,
    program: u32,
}

/// Where a build stands: which status it is waiting for.
#[derive(Clone, Copy, Debug, PartialEq, Eq, Structural)]
pub enum BuildStage {
    /// Waiting for the vertex stage's compile status.
    Vertex,
    /// Waiting for the fragment stage's compile status.
    Fragment,
    /// Waiting for the program's link status.
    Link,
}

/// A shader program in the making.
#[derive(Debug)]
pub struct ShaderBuild {
    stage: BuildStage,
    vertex: u32,
    fragment: u32,
    program: u32,
    fragment_source: String,
}

/// The outcome of handing a status to a build.
#[derive(Debug)]
pub enum BuildStep {
    /// The build goes on and waits for the next status.
    Pending(ShaderBuild),
    /// The program is linked; both stage objects are detached and released.
    Linked(ShaderProgram),
    /// The build failed; its three objects are released.
    Failed(EngineError),
}

impl ShaderBuild {
    /// The status the build is waiting for.
    pub closed spec fn spec_stage(&self) -> BuildStage {
        self.stage
    }

    /// The name of the vertex stage's shader object.
    pub closed spec fn vertex(&self) -> u32 {
        self.vertex
    }

    /// The name of the fragment stage's shader object.
    pub closed spec fn fragment(&self) -> u32 {
        self.fragment
    }

    /// The name of the program object.
    pub closed spec fn program(&self) -> u32 {
        self.program
    }

    /// The source text of the fragment stage, until it has gone to the
    /// compiler.
    pub closed spec fn fragment_source(&self) -> Seq<char> {
        self.fragment_source@
    }

    /// The three names of a build are distinct and none is 0.
    #[verifier::type_invariant]
    pub open spec fn named(&self) -> bool {
        &&& self.vertex() != 0
        &&& self.fragment() != 0
        &&& self.program() != 0
        &&& self.vertex() != self.fragment()
        &&& self.vertex() != self.program()
        &&& self.fragment() != self.program()
    }

    /// The calls that open a build: create the two shader objects and the
    /// program object, source and compile the vertex stage, and ask for its
    /// status.
    pub open spec fn opening_calls(
        vertex: u32,
        fragment: u32,
        program: u32,
        vertex_src: Seq<char>,
    ) -> Seq<Call> {
        seq![
            Call::CreateShader { id: vertex, stage: ShaderStage::Vertex },
            Call::CreateShader { id: fragment, stage: ShaderStage::Fragment },
            Call::CreateProgram { id: program },
            Call::ShaderSource { id: vertex, source: vertex_src },
            Call::CompileShader { id: vertex },
            Call::GetCompileStatus { id: vertex },
        ]
    }

    /// The calls that release the three objects of a build.
    pub open spec fn release_calls(vertex: u32, fragment: u32, program: u32) -> Seq<Call> {
        seq![
            Call::DeleteShader { id: vertex },
            Call::DeleteShader { id: fragment },
            Call::DeleteProgram { id: program },
        ]
    }

    /// The calls a build of the given objects issues when, at `stage`, it is
    /// handed a status saying `success`.
    pub open spec fn calls_at(
        stage: BuildStage,
        vertex: u32,
        fragment: u32,
        program: u32,
        fragment_source: Seq<char>,
        success: bool,
    ) -> Seq<Call> {
        match stage {
            BuildStage::Vertex => if success {
                seq![
                    Call::ShaderSource { id: fragment, source: fragment_source },
                    Call::CompileShader { id: fragment },
                    Call::GetCompileStatus { id: fragment },
                ]
            } else {
                Self::release_calls(vertex, fragment, program)
            },
            BuildStage::Fragment => if success {
                seq![
                    Call::AttachShader { program, shader: vertex },
                    Call::AttachShader { program, shader: fragment },
                    Call::LinkProgram { id: program },
                    Call::GetLinkStatus { id: program },
                ]
            } else {
                Self::release_calls(vertex, fragment, program)
            },
            BuildStage::Link => if success {
                seq![
                    Call::DetachShader { program, shader: vertex },
                    Call::DetachShader { program, shader: fragment },
                    Call::DeleteShader { id: vertex },
                    Call::DeleteShader { id: fragment },
                ]
            } else {
                seq![
                    Call::DetachShader { program, shader: vertex },
                    Call::DetachShader { program, shader: fragment },
                    Call::DeleteShader { id: vertex },
                    Call::DeleteShader { id: fragment },
                    Call::DeleteProgram { id: program },
                ]
            },
        }
    }

    /// The calls the build issues when it is handed a status saying
    /// `success`.
    pub open spec fn step_calls(&self, success: bool) -> Seq<Call> {
        Self::calls_at(
            self.spec_stage(),
            self.vertex(),
            self.fragment(),
            self.program(),
            self.fragment_source(),
            success,
        )
    }

    /// The calls of a whole build: its opening, and the steps taken on the
    /// three statuses, up to the first that reports failure.
    pub open spec fn build_calls(
        vertex: u32,
        fragment: u32,
        program: u32,
        vertex_src: Seq<char>,
        fragment_src: Seq<char>,
        vertex_ok: bool,
        fragment_ok: bool,
        link_ok: bool,
    ) -> Seq<Call> {
        let opening = Self::opening_calls(vertex, fragment, program, vertex_src);
        let compile = Self::calls_at(
            BuildStage::Vertex,
            vertex,
            fragment,
            program,
            fragment_src,
            vertex_ok,
        );
        let attach = Self::calls_at(
            BuildStage::Fragment,
            vertex,
            fragment,
            program,
            fragment_src,
            fragment_ok,
        );
        let link = Self::calls_at(BuildStage::Link, vertex, fragment, program, fragment_src, link_ok);
        if !vertex_ok {
            opening + compile
        } else if !fragment_ok {
            opening + compile + attach
        } else {
            opening + compile + attach + link
        }
    }

    /// A build leaves nothing behind but a linked program: where the names
    /// of the build were not in use, the shader objects there are once the
    /// build is over are the ones there were before it, however it ended,
    /// and so are the programs, but for the program of a build that ended
    /// linked. Buffers and vertex arrays are not touched.
    pub proof fn lemma_build_releases_its_stages(
        state: DeviceState,
        vertex: u32,
        fragment: u32,
        program: u32,
        vertex_src: Seq<char>,
        fragment_src: Seq<char>,
        vertex_ok: bool,
        fragment_ok: bool,
        link_ok: bool,
    )
        requires
            !state.shaders.contains(vertex),
            !state.shaders.contains(fragment),
            !state.programs.contains(program),
        ensures
            ({
                let after = state.apply_all(
                    Self::build_calls(
                        vertex,
                        fragment,
                        program,
                        vertex_src,
                        fragment_src,
                        vertex_ok,
                        fragment_ok,
                        link_ok,
                    ),
                );
                &&& after.shaders == state.shaders
                &&& after.programs == if vertex_ok && fragment_ok && link_ok {
                    state.programs.insert(program)
                } else {
                    state.programs
                }
                &&& after.buffers == state.buffers
                &&& after.contents == state.contents
                &&& after.bound == state.bound
                &&& after.vertex_arrays == state.vertex_arrays
                &&& after.layouts == state.layouts
            }),
    {
        reveal(DeviceState::apply);
        let opening = Self::opening_calls(vertex, fragment, program, vertex_src);
        let compile = Self::calls_at(
            BuildStage::Vertex,
            vertex,
            fragment,
            program,
            fragment_src,
            vertex_ok,
        );
        let attach = Self::calls_at(
            BuildStage::Fragment,
            vertex,
            fragment,
            program,
            fragment_src,
            fragment_ok,
        );
        let link = Self::calls_at(BuildStage::Link, vertex, fragment, program, fragment_src, link_ok);
        let opened = state.apply_all(opening);
        lemma_apply_short(state, opening);
        assert(opened.shaders =~= state.shaders.insert(vertex).insert(fragment));
        assert(opened.programs =~= state.programs.insert(program));
        let compiled = opened.apply_all(compile);
        lemma_apply_short(opened, compile);
        state.lemma_apply_concat(opening, compile);
        if !vertex_ok {
            assert(compiled.shaders =~= state.shaders);
            assert(compiled.programs =~= state.programs);
        } else {
            let attached = compiled.apply_all(attach);
            lemma_apply_short(compiled, attach);
            state.lemma_apply_concat(opening + compile, attach);
            if !fragment_ok {
                assert(attached.shaders =~= state.shaders);
                assert(attached.programs =~= state.programs);
            } else {
                let linked = attached.apply_all(link);
                lemma_apply_short(attached, link);
                state.lemma_apply_concat(opening + compile + attach, link);
                assert(linked.shaders =~= state.shaders);
                if link_ok {
                    assert(linked.programs =~= state.programs.insert(program));
                } else {
                    assert(linked.programs =~= state.programs);
                }
            }
        }
    }

    /// The status the build is waiting for.
    #[verifier::when_used_as_spec(spec_stage)]
    pub fn stage(&self) -> (stage: BuildStage)
        ensures
            stage == self.spec_stage(),
    {
        self.stage
    }

    /// Takes the build one step on with the status the driver reported for
    /// the request the build issued last.
    ///
    /// A stage that did not compile ends the build with `ShaderCompile`,
    /// naming the stage and carrying the log; a program that did not link
    /// ends it with `ShaderLink`. On every ending the stage objects are
    /// released, and on a failed one the program object too.
    pub fn advance(self, status: BuildStatus, device: &mut Device) -> (step: BuildStep)
        ensures
            old(device).issues(*final(device), self.step_calls(status.success)),
            final(device).next_id() == old(device).next_id(),
            match self.spec_stage() {
                BuildStage::Vertex => if status.success {
                    &&& step matches BuildStep::Pending(next)
                    &&& next.spec_stage() == BuildStage::Fragment
                    &&& next.same_objects(self)
                } else {
                    &&& step matches BuildStep::Failed(e)
                    &&& e@ == Failure::ShaderCompile {
                        stage: ShaderStage::Vertex,
                        diagnostic: status.log@,
                    }
                },
                BuildStage::Fragment => if status.success {
                    &&& step matches BuildStep::Pending(next)
                    &&& next.spec_stage() == BuildStage::Link
                    &&& next.same_objects(self)
                } else {
                    &&& step matches BuildStep::Failed(e)
                    &&& e@ == Failure::ShaderCompile {
                        stage: ShaderStage::Fragment,
                        diagnostic: status.log@,
                    }
                },
                BuildStage::Link => if status.success {
                    &&& step matches BuildStep::Linked(program)
                    &&& program.spec_id() == self.program()
                    &&& program.cache() == Map::<Seq<char>, i32>::empty()
                } else {
                    &&& step matches BuildStep::Failed(e)
                    &&& e@ == Failure::ShaderLink { diagnostic: status.log@ }
                },
            },
    {
        match self.stage {
            BuildStage::Vertex => self.check_shader_compile_status(status, device),
            BuildStage::Fragment => self.check_shader_compile_status(status, device),
            BuildStage::Link => self.check_program_link_status(status, device),
        }
    }

    /// `self` and `other` name the same objects.
    pub open spec fn same_objects(&self, other: ShaderBuild) -> bool {
        &&& self.vertex() == other.vertex()
        &&& self.fragment() == other.fragment()
        &&& self.program() == other.program()
    }

    /// Acts on the compile status of the stage the build is waiting for.
    fn check_shader_compile_status(
        self,
        status: BuildStatus,
        device: &mut Device,
    ) -> (step: BuildStep)
        requires
            self.spec_stage() != BuildStage::Link,
        ensures
            old(device).issues(*final(device), self.step_calls(status.success)),
            final(device).next_id() == old(device).next_id(),
            status.success ==> {
                &&& step matches BuildStep::Pending(next)
                &&& next.same_objects(self)
                &&& next.spec_stage() == if self.spec_stage() == BuildStage::Vertex {
                    BuildStage::Fragment
                } else {
                    BuildStage::Link
                }
            },
            !status.success ==> {
                &&& step matches BuildStep::Failed(e)
                &&& e@ == Failure::ShaderCompile {
                    stage: if self.spec_stage() == BuildStage::Vertex {
                        ShaderStage::Vertex
                    } else {
                        ShaderStage::Fragment
                    },
                    diagnostic: status.log@,
                }
            },
    {
        proof {
            use_type_invariant(&self);
        }
        let ghost calls = self.step_calls(status.success);
        let ShaderBuild { stage, vertex, fragment, program, fragment_source } = self;
        if !status.success {
            let release = vec![
                Command::DeleteShader { id: vertex },
                Command::DeleteShader { id: fragment },
                Command::DeleteProgram { id: program },
            ];
            assert(calls_of(release@) =~= calls);
            device.issue_all(release);
            let failed = match stage {
                BuildStage::Vertex => ShaderStage::Vertex,
                _ => ShaderStage::Fragment,
            };
            return BuildStep::Failed(
                EngineError::ShaderCompile { stage: failed, diagnostic: status.log },
            );
        }
        match stage {
            BuildStage::Vertex => {
                let batch = vec![
                    Command::ShaderSource { id: fragment, source: fragment_source },
                    Command::CompileShader { id: fragment },
                    Command::GetCompileStatus { id: fragment },
                ];
                assert(calls_of(batch@) =~= calls);
                device.issue_all(batch);
                BuildStep::Pending(
                    ShaderBuild {
                        stage: BuildStage::Fragment,
                        vertex,
                        fragment,
                        program,
                        fragment_source: String::new(),
                    },
                )
            },
            _ => {
                let batch = vec![
                    Command::AttachShader { program, shader: vertex },
                    Command::AttachShader { program, shader: fragment },
                    Command::LinkProgram { id: program },
                    Command::GetLinkStatus { id: program },
                ];
                assert(calls_of(batch@) =~= calls);
                device.issue_all(batch);
                BuildStep::Pending(
                    ShaderBuild { stage: BuildStage::Link, vertex, fragment, program, fragment_source },
                )
            },
        }
    }

    /// Acts on the link status of the program.
    fn check_program_link_status(
        self,
        status: BuildStatus,
        device: &mut Device,
    ) -> (step: BuildStep)
        requires
            self.spec_stage() == BuildStage::Link,
        ensures
            old(device).issues(*final(device), self.step_calls(status.success)),
            final(device).next_id() == old(device).next_id(),
            status.success ==> {
                &&& step matches BuildStep::Linked(program)
                &&& program.spec_id() == self.program()
                &&& program.cache() == Map::<Seq<char>, i32>::empty()
            },
            !status.success ==> {
                &&& step matches BuildStep::Failed(e)
                &&& e@ == Failure::ShaderLink { diagnostic: status.log@ }
            },
    {
        proof {
            use_type_invariant(&self);
        }
        let mut batch = vec![
            Command::DetachShader { program: self.program, shader: self.vertex },
            Command::DetachShader { program: self.program, shader: self.fragment },
            Command::DeleteShader { id: self.vertex },
            Command::DeleteShader { id: self.fragment },
        ];
        if status.success {
            assert(calls_of(batch@) =~= self.step_calls(true));
            device.issue_all(batch);
            BuildStep::Linked(ShaderProgram { uniforms: Vec::new(), program: self.program })
        } else {
            batch.push(Command::DeleteProgram { id: self.program });
            assert(calls_of(batch@) =~= self.step_calls(false));
            device.issue_all(batch);
            BuildStep::Failed(EngineError::ShaderLink { diagnostic: status.log })
        }
    }
}

/// Applying up to six calls is applying them one by one.
proof fn lemma_apply_short(state: DeviceState, calls: Seq<Call>)
    requires
        3 <= calls.len() <= 6,
    ensures
        ({
            let three = state.apply(calls[0]).apply(calls[1]).apply(calls[2]);
            &&& calls.len() == 3 ==> state.apply_all(calls) == three
            &&& calls.len() == 4 ==> state.apply_all(calls) == three.apply(calls[3])
            &&& calls.len() == 5 ==> state.apply_all(calls) == three.apply(calls[3]).apply(calls[4])
            &&& calls.len() == 6 ==> state.apply_all(calls) == three.apply(calls[3]).apply(
                calls[4],
            ).apply(calls[5])
        }),
{
    state.lemma_apply_next(calls, 0);
    state.lemma_apply_next(calls, 1);
    state.lemma_apply_next(calls, 2);
    if calls.len() >= 4 {
        state.lemma_apply_next(calls, 3);
    }
    if calls.len() >= 5 {
        state.lemma_apply_next(calls, 4);
    }
    if calls.len() >= 6 {
        state.lemma_apply_next(calls, 5);
    }
}

impl ShaderProgram {
    /// The program's name.
    pub closed spec fn spec_id(&self) -> u32 {
        self.program
    }

    /// The uniform locations remembered so far, by name.
    pub closed spec fn cache(&self) -> Map<Seq<char>, i32> {
        cache_of(self.uniforms@)
    }

    /// The program's name is never 0, and no remembered location is negative.
    #[verifier::type_invariant]
    pub closed spec fn sound(&self) -> bool {
        &&& self.program != 0
        &&& forall|i: int| 0 <= i < self.uniforms@.len() ==> #[trigger] self.uniforms@[i].location >= 0
    }

    /// Starts building a program from the sources of its two stages. Fails,
    /// and issues nothing, exactly when the device has fewer than three names
    /// left; otherwise the three objects of the build are created under
    /// names that were not in use, the vertex stage is on its way to the
    /// compiler, and the build waits for its status.
    pub fn new(
        vertex_src: &str,
        fragment_src: &str,
        device: &mut Device,
    ) -> (build: Result<ShaderBuild, EngineError>)
        ensures
            build is Ok <==> old(device).spec_available() >= 3,
            build matches Ok(b) ==> {
                &&& b.spec_stage() == BuildStage::Vertex
                &&& b.vertex() == old(device).next_id()
                &&& b.fragment() == old(device).next_id() + 1
                &&& b.program() == old(device).next_id() + 2
                &&& b.fragment_source() == fragment_src@
                &&& b.named()
                &&& !old(device).state().shaders.contains(b.vertex())
                &&& !old(device).state().shaders.contains(b.fragment())
                &&& !old(device).state().programs.contains(b.program())
                &&& final(device).next_id() == old(device).next_id() + 3
                &&& old(device).issues(
                    *final(device),
                    ShaderBuild::opening_calls(b.vertex(), b.fragment(), b.program(), vertex_src@),
                )
            },
            build matches Err(e) ==> e@ == Failure::DeviceAllocationFailure && *final(device)
                == *old(device),
    {
        if device.available() < 3 {
            return Err(EngineError::DeviceAllocationFailure);
        }
        proof {
            use_type_invariant(&*device);
            device.lemma_new_names_are_unused();
        }
        let vertex = device.allocate().unwrap();
        let fragment = device.allocate().unwrap();
        let program = device.allocate().unwrap();
        let batch = vec![
            Command::CreateShader { id: vertex, stage: ShaderStage::Vertex },
            Command::CreateShader { id: fragment, stage: ShaderStage::Fragment },
            Command::CreateProgram { id: program },
            Command::ShaderSource { id: vertex, source: String::from_str(vertex_src) },
            Command::CompileShader { id: vertex },
            Command::GetCompileStatus { id: vertex },
        ];
        assert(calls_of(batch@) =~= ShaderBuild::opening_calls(
            vertex,
            fragment,
            program,
            vertex_src@,
        ));
        device.issue_all(batch);
        Ok(
            ShaderBuild {
                stage: BuildStage::Vertex,
                vertex,
                fragment,
                program,
                fragment_source: String::from_str(fragment_src),
            },
        )
    }

    /// The program's name.
    #[verifier::when_used_as_spec(spec_id)]
    pub fn id(&self) -> (id: u32)
        ensures
            id == self.spec_id(),
            id != 0,
    {
        proof {
            use_type_invariant(self);
        }
        self.program
    }

    /// The remembered location of `name`, if there is one. Asks the driver
    /// nothing.
    pub fn location(&self, name: &str) -> (location: Option<i32>)
        ensures
            location is Some <==> self.cache().contains_key(name@),
            location matches Some(l) ==> l == self.cache()[name@] && l >= 0,
    {
        proof {
            use_type_invariant(self);
        }
        let wanted = String::from_str(name);
        let mut i: usize = self.uniforms.len();
        assert(self.uniforms@.take(i as int) =~= self.uniforms@);
        while i > 0
            invariant
                i <= self.uniforms@.len(),
                wanted@ == name@,
                cache_of(self.uniforms@).contains_key(name@) <==> cache_of(
                    self.uniforms@.take(i as int),
                ).contains_key(name@),
                cache_of(self.uniforms@).contains_key(name@) ==> cache_of(self.uniforms@)[name@]
                    == cache_of(self.uniforms@.take(i as int))[name@],
                forall|j: int|
                    0 <= j < self.uniforms@.len() ==> #[trigger] self.uniforms@[j].location >= 0,
            decreases i,
        {
            let ghost prefix = self.uniforms@.take(i as int);
            assert(prefix.drop_last() =~= self.uniforms@.take(i - 1));
            assert(prefix.last() == self.uniforms@[i - 1]);
            i = i - 1;
            if self.uniforms[i].name == wanted {
                return Some(self.uniforms[i].location);
            }
        }
        assert(self.uniforms@.take(0) =~= Seq::<UniformEntry>::empty());
        None
    }

    /// Records the driver's answer to a request for the location of
    /// `uniform_name`, and returns the location that is remembered for the
    /// name from now on. A negative answer means the program has no active
    /// uniform of that name: the call fails with `UniformNotFound` and
    /// nothing is remembered. A location that is already remembered is never
    /// replaced.
    pub fn create_uniform(
        &mut self,
        uniform_name: &str,
        location: i32,
    ) -> (created: Result<i32, EngineError>)
        ensures
            created is Ok <==> location >= 0,
            created matches Err(e) ==> (e@ == Failure::UniformNotFound { name: uniform_name@ }),
            created is Err ==> *final(self) == *old(self),
            created is Ok ==> final(self).spec_id() == old(self).spec_id(),
            created matches Ok(l) ==> final(self).cache() == old(self).resolved(uniform_name@, location)
                && l == final(self).cache()[uniform_name@],
    {
        proof {
            use_type_invariant(&*self);
        }
        if location < 0 {
            return Err(EngineError::UniformNotFound { name: String::from_str(uniform_name) });
        }
        match self.location(uniform_name) {
            Some(known) => Ok(known),
            None => {
                let ghost known = self.uniforms@;
                let mut entries: Vec<UniformEntry> = Vec::new();
                core::mem::swap(&mut entries, &mut self.uniforms);
                entries.push(UniformEntry { name: String::from_str(uniform_name), location });
                core::mem::swap(&mut entries, &mut self.uniforms);
                assert(self.uniforms@.drop_last() =~= known);
                Ok(location)
            },
        }
    }

    /// The cache after the driver answered `location >= 0` for `name`.
    pub open spec fn resolved(&self, name: Seq<char>, location: i32) -> Map<Seq<char>, i32> {
        if self.cache().contains_key(name) {
            self.cache()
        } else {
            self.cache().insert(name, location)
        }
    }

    /// A location is asked for at most once: once the driver has answered
    /// for `name` with a location, setting the uniform stores the value with
    /// the remembered location and asks nothing, and no answer for any name
    /// changes what is remembered for `name`.
    pub proof fn lemma_resolved_is_not_asked_again(
        &self,
        name: Seq<char>,
        location: i32,
        resolved: ShaderProgram,
        value: UniformValue,
        other: Seq<char>,
        other_location: i32,
    )
        requires
            resolved.cache() == self.resolved(name, location),
        ensures
            resolved.cache().contains_key(name),
            !self.cache().contains_key(name) ==> resolved.cache()[name] == location,
            self.cache().contains_key(name) ==> resolved.cache()[name] == self.cache()[name],
            resolved.set_uniform_calls(name, value) == seq![value.call(resolved.cache()[name])],
            resolved.resolved(other, other_location).contains_key(name),
            resolved.resolved(other, other_location)[name] == resolved.cache()[name],
    {
    }

    /// The calls [`ShaderProgram::set_uniform`] issues: the typed store when
    /// the location is remembered, a request for the location when not.
    pub open spec fn set_uniform_calls(&self, name: Seq<char>, value: UniformValue) -> Seq<Call> {
        if self.cache().contains_key(name) {
            seq![value.call(self.cache()[name])]
        } else {
            seq![Call::GetUniformLocation { program: self.spec_id(), name }]
        }
    }

    /// Looks the location of `name` up. A remembered location is returned
    /// and the driver is asked nothing; for any other name the driver is
    /// asked.
    pub fn lookup_uniform(&self, name: &str, device: &mut Device) -> (lookup: UniformLookup)
        ensures
            self.cache().contains_key(name@) ==> {
                &&& lookup == UniformLookup::Known(self.cache()[name@])
                &&& *final(device) == *old(device)
            },
            !self.cache().contains_key(name@) ==> {
                &&& lookup == UniformLookup::Asked
                &&& old(device).issues(
                    *final(device),
                    seq![Call::GetUniformLocation { program: self.spec_id(), name: name@ }],
                )
            },
            final(device).next_id() == old(device).next_id(),
    {
        match self.location(name) {
            Some(location) => UniformLookup::Known(location),
            None => {
                device.issue(
                    Command::GetUniformLocation {
                        program: self.program,
                        name: String::from_str(name),
                    },
                );
                UniformLookup::Asked
            },
        }
    }

    /// Sets uniform `name` of the program in use to `value`. When the
    /// location of `name` is remembered the value is stored with it and the
    /// driver is asked nothing; when not, the driver is asked for it and the
    /// value is not stored.
    pub fn set_uniform(&self, name: &str, value: UniformValue, device: &mut Device) -> (lookup:
        UniformLookup)
        ensures
            old(device).issues(*final(device), self.set_uniform_calls(name@, value)),
            final(device).next_id() == old(device).next_id(),
            lookup == if self.cache().contains_key(name@) {
                UniformLookup::Known(self.cache()[name@])
            } else {
                UniformLookup::Asked
            },
    {
        match self.location(name) {
            Some(location) => {
                match value {
                    UniformValue::Float(x) => device.issue(Command::Uniform1f { location, x }),
                    UniformValue::Vec2(v) => device.issue(
                        Command::Uniform2f { location, x: v[0], y: v[1] },
                    ),
                    UniformValue::Vec3(v) => device.issue(
                        Command::Uniform3f { location, x: v[0], y: v[1], z: v[2] },
                    ),
                    UniformValue::Mat4(matrix) => device.issue(
                        Command::UniformMatrix4fv { location, transpose: false, matrix },
                    ),
                }
                UniformLookup::Known(location)
            },
            None => {
                device.issue(
                    Command::GetUniformLocation {
                        program: self.program,
                        name: String::from_str(name),
                    },
                );
                UniformLookup::Asked
            },
        }
    }

    /// Sets the 4x4 matrix uniform `uniform_name` of the program in use,
    /// as [`ShaderProgram::set_uniform`] does.
    pub fn set_matrix4fv_uniform(
        &self,
        uniform_name: &str,
        matrix: &[u32; 16],
        device: &mut Device,
    ) -> (lookup: UniformLookup)
        ensures
            old(device).issues(
                *final(device),
                self.set_uniform_calls(uniform_name@, UniformValue::Mat4(*matrix)),
            ),
            final(device).next_id() == old(device).next_id(),
            lookup == if self.cache().contains_key(uniform_name@) {
                UniformLookup::Known(self.cache()[uniform_name@])
            } else {
                UniformLookup::Asked
            },
    {
        self.set_uniform(uniform_name, UniformValue::Mat4(*matrix), device)
    }

    /// Makes this the program in use.
    pub fn bind(&self, device: &mut Device)
        ensures
            old(device).issues(*final(device), seq![Call::UseProgram { id: self.spec_id() }]),
            final(device).next_id() == old(device).next_id(),
            final(device).state().program == self.spec_id(),
    {
        proof {
            reveal(DeviceState::apply);
        }
        device.issue(Command::UseProgram { id: self.program });
    }

    /// Leaves no program in use.
    pub fn unbind(&self, device: &mut Device)
        ensures
            old(device).issues(*final(device), seq![Call::UseProgram { id: 0 }]),
            final(device).next_id() == old(device).next_id(),
            final(device).state().program == 0,
    {
        proof {
            reveal(DeviceState::apply);
        }
        device.issue(Command::UseProgram { id: 0 });
    }

    /// Releases the program. The handle is consumed.
    pub fn destroy(self, device: &mut Device)
        ensures
            old(device).issues(*final(device), seq![Call::DeleteProgram { id: self.spec_id() }]),
            final(device).next_id() == old(device).next_id(),
            final(device).state().programs == old(device).state().programs.remove(self.spec_id()),
    {
        proof {
            reveal(DeviceState::apply);
        }
        device.issue(Command::DeleteProgram { id: self.program });
    }
}

} // verus!
