use foux_engine::{
    BuildStage, BuildStatus, BuildStep, Command, Device, EngineError, ShaderBuild, ShaderProgram,
    ShaderStage, UniformLookup, UniformValue,
};

const VERTEX_SRC: &str = "#version 330\nin vec3 position;\nvoid main() { gl_Position = vec4(position, 1.0); }";
const FRAGMENT_SRC: &str = "#version 330 core\nout vec4 FragColor;\nuniform vec3 color;\nvoid main() { FragColor = vec4(color, 1.0); }";

fn ok() -> BuildStatus {
    BuildStatus { success: true, log: String::new() }
}

fn failed(log: &str) -> BuildStatus {
    BuildStatus { success: false, log: String::from(log) }
}

fn pending(step: BuildStep) -> ShaderBuild {
    match step {
        BuildStep::Pending(build) => build,
        _ => panic!("the build should go on"),
    }
}

fn failure(step: BuildStep) -> EngineError {
    match step {
        BuildStep::Failed(error) => error,
        _ => panic!("the build should have failed"),
    }
}

fn linked(device: &mut Device) -> ShaderProgram {
    let build = ShaderProgram::new(VERTEX_SRC, FRAGMENT_SRC, device).unwrap();
    let build = pending(build.advance(ok(), device));
    let build = pending(build.advance(ok(), device));
    match build.advance(ok(), device) {
        BuildStep::Linked(program) => program,
        _ => panic!("the build should have linked"),
    }
}

#[test]
fn build_opens_with_the_vertex_stage() {
    let mut device = Device::new();
    let build = ShaderProgram::new(VERTEX_SRC, FRAGMENT_SRC, &mut device).unwrap();
    assert_eq!(build.stage(), BuildStage::Vertex);
    assert_eq!(device.available(), u32::MAX - 3);
    assert_eq!(
        device.take_commands(),
        vec![
            Command::CreateShader { id: 1, stage: ShaderStage::Vertex },
            Command::CreateShader { id: 2, stage: ShaderStage::Fragment },
            Command::CreateProgram { id: 3 },
            Command::ShaderSource { id: 1, source: String::from(VERTEX_SRC) },
            Command::CompileShader { id: 1 },
            Command::GetCompileStatus { id: 1 },
        ]
    );
}

#[test]
fn build_links_after_three_good_statuses() {
    let mut device = Device::new();
    let build = ShaderProgram::new(VERTEX_SRC, FRAGMENT_SRC, &mut device).unwrap();
    device.take_commands();

    let build = pending(build.advance(ok(), &mut device));
    assert_eq!(build.stage(), BuildStage::Fragment);
    assert_eq!(
        device.take_commands(),
        vec![
            Command::ShaderSource { id: 2, source: String::from(FRAGMENT_SRC) },
            Command::CompileShader { id: 2 },
            Command::GetCompileStatus { id: 2 },
        ]
    );

    let build = pending(build.advance(ok(), &mut device));
    assert_eq!(build.stage(), BuildStage::Link);
    assert_eq!(
        device.take_commands(),
        vec![
            Command::AttachShader { program: 3, shader: 1 },
            Command::AttachShader { program: 3, shader: 2 },
            Command::LinkProgram { id: 3 },
            Command::GetLinkStatus { id: 3 },
        ]
    );

    let program = match build.advance(ok(), &mut device) {
        BuildStep::Linked(program) => program,
        _ => panic!("the build should have linked"),
    };
    assert_eq!(program.id(), 3);
    assert_eq!(program.location("color"), None);
    assert_eq!(
        device.take_commands(),
        vec![
            Command::DetachShader { program: 3, shader: 1 },
            Command::DetachShader { program: 3, shader: 2 },
            Command::DeleteShader { id: 1 },
            Command::DeleteShader { id: 2 },
        ]
    );
}

#[test]
fn vertex_stage_that_does_not_compile_fails_the_build() {
    let mut device = Device::new();
    let build = ShaderProgram::new("garbage", FRAGMENT_SRC, &mut device).unwrap();
    device.take_commands();
    let error = failure(build.advance(failed("0:1: syntax error"), &mut device));
    assert_eq!(
        error,
        EngineError::ShaderCompile {
            stage: ShaderStage::Vertex,
            diagnostic: String::from("0:1: syntax error"),
        }
    );
    assert_eq!(error.message(), "vertex shader failed to compile: 0:1: syntax error");
    assert_eq!(
        device.take_commands(),
        vec![
            Command::DeleteShader { id: 1 },
            Command::DeleteShader { id: 2 },
            Command::DeleteProgram { id: 3 },
        ]
    );
}

#[test]
fn fragment_stage_that_does_not_compile_fails_the_build() {
    let mut device = Device::new();
    let build = ShaderProgram::new(VERTEX_SRC, "garbage", &mut device).unwrap();
    let build = pending(build.advance(ok(), &mut device));
    device.take_commands();
    let error = failure(build.advance(failed("0:1: unexpected token"), &mut device));
    assert_eq!(
        error,
        EngineError::ShaderCompile {
            stage: ShaderStage::Fragment,
            diagnostic: String::from("0:1: unexpected token"),
        }
    );
    assert_eq!(error.message(), "fragment shader failed to compile: 0:1: unexpected token");
    assert_eq!(
        device.take_commands(),
        vec![
            Command::DeleteShader { id: 1 },
            Command::DeleteShader { id: 2 },
            Command::DeleteProgram { id: 3 },
        ]
    );
}

#[test]
fn program_that_does_not_link_fails_the_build() {
    let mut device = Device::new();
    let build = ShaderProgram::new(VERTEX_SRC, FRAGMENT_SRC, &mut device).unwrap();
    let build = pending(build.advance(ok(), &mut device));
    let build = pending(build.advance(ok(), &mut device));
    device.take_commands();
    let error = failure(build.advance(failed("varying mismatch"), &mut device));
    assert_eq!(error, EngineError::ShaderLink { diagnostic: String::from("varying mismatch") });
    assert_eq!(error.message(), "shader program failed to link: varying mismatch");
    assert_eq!(
        device.take_commands(),
        vec![
            Command::DetachShader { program: 3, shader: 1 },
            Command::DetachShader { program: 3, shader: 2 },
            Command::DeleteShader { id: 1 },
            Command::DeleteShader { id: 2 },
            Command::DeleteProgram { id: 3 },
        ]
    );
}

#[test]
fn log_of_a_good_status_is_ignored() {
    let mut device = Device::new();
    let build = ShaderProgram::new(VERTEX_SRC, FRAGMENT_SRC, &mut device).unwrap();
    let status = BuildStatus { success: true, log: String::from("warning: unused variable") };
    let build = pending(build.advance(status, &mut device));
    assert_eq!(build.stage(), BuildStage::Fragment);
}

#[test]
fn build_needs_three_names() {
    let mut device = Device::starting_at(u32::MAX - 1).unwrap();
    assert_eq!(device.available(), 2);
    assert!(matches!(
        ShaderProgram::new(VERTEX_SRC, FRAGMENT_SRC, &mut device),
        Err(EngineError::DeviceAllocationFailure)
    ));
    assert_eq!(device.available(), 2);
    assert!(device.take_commands().is_empty());

    let mut device = Device::starting_at(u32::MAX - 2).unwrap();
    assert!(ShaderProgram::new(VERTEX_SRC, FRAGMENT_SRC, &mut device).is_ok());
    assert_eq!(device.available(), 0);
}

#[test]
fn uniform_location_is_asked_for_once() {
    let mut device = Device::new();
    let mut program = linked(&mut device);
    device.take_commands();
    let magenta = UniformValue::Vec3([1.0f32.to_bits(), 0.5f32.to_bits(), 1.0f32.to_bits()]);
    let white = UniformValue::Vec3([1.0f32.to_bits(), 1.0f32.to_bits(), 1.0f32.to_bits()]);

    assert_eq!(program.set_uniform("color", magenta, &mut device), UniformLookup::Asked);
    assert_eq!(
        device.take_commands(),
        vec![Command::GetUniformLocation { program: 3, name: String::from("color") }]
    );
    assert_eq!(program.create_uniform("color", 4), Ok(4));

    assert_eq!(program.set_uniform("color", magenta, &mut device), UniformLookup::Known(4));
    assert_eq!(program.set_uniform("color", white, &mut device), UniformLookup::Known(4));
    let commands = device.take_commands();
    assert_eq!(
        commands,
        vec![
            Command::Uniform3f {
                location: 4,
                x: 1.0f32.to_bits(),
                y: 0.5f32.to_bits(),
                z: 1.0f32.to_bits(),
            },
            Command::Uniform3f {
                location: 4,
                x: 1.0f32.to_bits(),
                y: 1.0f32.to_bits(),
                z: 1.0f32.to_bits(),
            },
        ]
    );
    let lookups = commands
        .iter()
        .filter(|command| matches!(command, Command::GetUniformLocation { .. }))
        .count();
    assert_eq!(lookups, 0);
}

#[test]
fn two_devices_are_each_asked_once() {
    let mut first = Device::new();
    let mut second = Device::starting_at(100).unwrap();
    let mut on_first = linked(&mut first);
    let mut on_second = linked(&mut second);
    first.take_commands();
    second.take_commands();
    let value = UniformValue::Float(0.25f32.to_bits());

    let mut asked_first = 0;
    let mut asked_second = 0;
    for _ in 0..2 {
        if on_first.set_uniform("color", value, &mut first) == UniformLookup::Asked {
            asked_first += 1;
            on_first.create_uniform("color", 1).unwrap();
            on_first.set_uniform("color", value, &mut first);
        }
        if on_second.set_uniform("color", value, &mut second) == UniformLookup::Asked {
            asked_second += 1;
            on_second.create_uniform("color", 9).unwrap();
            on_second.set_uniform("color", value, &mut second);
        }
    }
    assert_eq!(asked_first, 1);
    assert_eq!(asked_second, 1);
    let count = |commands: Vec<Command>| {
        commands
            .iter()
            .filter(|command| matches!(command, Command::GetUniformLocation { .. }))
            .count()
    };
    assert_eq!(count(first.take_commands()), 1);
    assert_eq!(count(second.take_commands()), 1);
    assert_eq!(on_first.location("color"), Some(1));
    assert_eq!(on_second.location("color"), Some(9));
}

#[test]
fn uniform_the_driver_does_not_know_is_not_found() {
    let mut device = Device::new();
    let mut program = linked(&mut device);
    device.take_commands();
    let error = program.create_uniform("colour", -1).unwrap_err();
    assert_eq!(error, EngineError::UniformNotFound { name: String::from("colour") });
    assert_eq!(error.message(), "cannot locate uniform: colour");
    assert_eq!(program.location("colour"), None);
    assert_eq!(
        program.set_uniform("colour", UniformValue::Float(0), &mut device),
        UniformLookup::Asked
    );
    assert_eq!(
        device.take_commands(),
        vec![Command::GetUniformLocation { program: 3, name: String::from("colour") }]
    );
}

#[test]
fn remembered_location_is_never_replaced() {
    let mut device = Device::new();
    let mut program = linked(&mut device);
    assert_eq!(program.create_uniform("color", 0), Ok(0));
    assert_eq!(program.create_uniform("color", 7), Ok(0));
    assert_eq!(program.create_uniform("model", 7), Ok(7));
    assert_eq!(program.location("color"), Some(0));
    assert_eq!(program.location("model"), Some(7));
    assert_eq!(program.location("view"), None);
    let error = program.create_uniform("color", -1).unwrap_err();
    assert_eq!(error, EngineError::UniformNotFound { name: String::from("color") });
    assert_eq!(program.location("color"), Some(0));
}

#[test]
fn each_kind_of_value_has_its_call() {
    let mut device = Device::new();
    let mut program = linked(&mut device);
    device.take_commands();
    program.create_uniform("u", 2).unwrap();
    let mut matrix = [0u32; 16];
    for (i, cell) in matrix.iter_mut().enumerate() {
        *cell = (i as f32).to_bits();
    }
    program.set_uniform("u", UniformValue::Float(1.5f32.to_bits()), &mut device);
    program.set_uniform("u", UniformValue::Vec2([1.0f32.to_bits(), 2.0f32.to_bits()]), &mut device);
    program.set_uniform(
        "u",
        UniformValue::Vec3([1.0f32.to_bits(), 2.0f32.to_bits(), 3.0f32.to_bits()]),
        &mut device,
    );
    program.set_uniform("u", UniformValue::Mat4(matrix), &mut device);
    assert_eq!(
        device.take_commands(),
        vec![
            Command::Uniform1f { location: 2, x: 1.5f32.to_bits() },
            Command::Uniform2f { location: 2, x: 1.0f32.to_bits(), y: 2.0f32.to_bits() },
            Command::Uniform3f {
                location: 2,
                x: 1.0f32.to_bits(),
                y: 2.0f32.to_bits(),
                z: 3.0f32.to_bits(),
            },
            Command::UniformMatrix4fv { location: 2, transpose: false, matrix },
        ]
    );
}

#[test]
fn matrix_uniform_goes_through_the_cache() {
    let mut device = Device::new();
    let mut program = linked(&mut device);
    device.take_commands();
    let mut identity = [0u32; 16];
    for i in 0..4 {
        identity[i * 5] = 1.0f32.to_bits();
    }
    assert_eq!(
        program.set_matrix4fv_uniform("model", &identity, &mut device),
        UniformLookup::Asked
    );
    program.create_uniform("model", 5).unwrap();
    assert_eq!(
        program.set_matrix4fv_uniform("model", &identity, &mut device),
        UniformLookup::Known(5)
    );
    assert_eq!(
        device.take_commands(),
        vec![
            Command::GetUniformLocation { program: 3, name: String::from("model") },
            Command::UniformMatrix4fv { location: 5, transpose: false, matrix: identity },
        ]
    );
}

#[test]
fn program_bind_unbind_destroy() {
    let mut device = Device::new();
    let program = linked(&mut device);
    device.take_commands();
    program.bind(&mut device);
    program.unbind(&mut device);
    program.destroy(&mut device);
    assert_eq!(
        device.take_commands(),
        vec![
            Command::UseProgram { id: 3 },
            Command::UseProgram { id: 0 },
            Command::DeleteProgram { id: 3 },
        ]
    );
}

#[test]
fn other_failures_have_messages_too() {
    assert_eq!(
        EngineError::DeviceAllocationFailure.message(),
        "the device has no object names left"
    );
    assert_eq!(EngineError::InvalidMeshData.message(), "mesh index out of range of its vertices");
}
