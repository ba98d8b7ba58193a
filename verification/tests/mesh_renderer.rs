use foux_engine::{
    check_mesh, BufferTarget, BufferUsage, BuildStatus, BuildStep, Command, DataType, Device,
    EngineError, Mesh, MeshRenderer, Primitive, ShaderProgram, COMPONENTS_PER_VERTEX,
};

fn bits(values: &[f32]) -> Vec<u32> {
    values.iter().map(|value| value.to_bits()).collect()
}

fn program(device: &mut Device) -> ShaderProgram {
    let good = || BuildStatus { success: true, log: String::new() };
    let mut step = BuildStep::Pending(ShaderProgram::new("v", "f", device).unwrap());
    loop {
        step = match step {
            BuildStep::Pending(build) => build.advance(good(), device),
            BuildStep::Linked(program) => {
                device.take_commands();
                return program;
            }
            BuildStep::Failed(_) => panic!("the build should have linked"),
        };
    }
}

fn square() -> Vec<u32> {
    bits(&[-0.5, -0.5, 0.0, 0.5, -0.5, 0.0, 0.5, 0.5, 0.0, -0.5, 0.5, 0.0])
}

fn triangle() -> Vec<u32> {
    bits(&[0.0, 0.5, 0.0, -0.5, -0.5, 0.0, 0.5, -0.5, 0.0])
}

fn rejected(made: Result<MeshRenderer, foux_engine::MeshRejected>) -> foux_engine::MeshRejected {
    match made {
        Err(rejected) => rejected,
        Ok(_) => panic!("the mesh should have been rejected"),
    }
}

fn made(made: Result<MeshRenderer, foux_engine::MeshRejected>) -> MeshRenderer {
    match made {
        Ok(renderer) => renderer,
        Err(_) => panic!("the mesh should have been made"),
    }
}

#[test]
fn mesh_keeps_its_data() {
    let mesh = Mesh::new(triangle(), vec![0, 1, 2]);
    assert_eq!(mesh.vertices(), &triangle());
    assert_eq!(mesh.indices(), &vec![0, 1, 2]);
    assert!(mesh.is_valid());
    assert!(!Mesh::new(triangle(), vec![0, 1, 3]).is_valid());
}

#[test]
fn mesh_invariant_counts_whole_vertices() {
    assert_eq!(COMPONENTS_PER_VERTEX, 3);
    assert!(check_mesh(&[], &[]));
    assert!(!check_mesh(&[], &[0]));
    assert!(!check_mesh(&[0, 0], &[0]));
    assert!(check_mesh(&[0, 0, 0], &[0]));
    assert!(!check_mesh(&[0, 0, 0], &[1]));
    assert!(!check_mesh(&[0, 0, 0, 0, 0], &[0, 1]));
    assert!(check_mesh(&[0, 0, 0, 0, 0, 0], &[0, 1]));
    assert!(check_mesh(&[0, 0, 0, 0, 0, 0], &[1, 1, 0, 0]));
    assert!(!check_mesh(&[0, 0, 0, 0, 0, 0], &[1, u32::MAX]));
}

#[test]
fn setup_issues_the_whole_protocol_in_order() {
    let mut device = Device::new();
    let shaders = program(&mut device);
    let renderer = made(MeshRenderer::new(triangle(), vec![0, 1, 2], shaders, &mut device));
    assert_eq!(renderer.vertices(), &triangle());
    assert_eq!(renderer.indices(), &vec![0, 1, 2]);
    assert_eq!(
        device.take_commands(),
        vec![
            Command::GenVertexArray { id: 4 },
            Command::GenBuffer { id: 5 },
            Command::GenBuffer { id: 6 },
            Command::BindVertexArray { id: 4 },
            Command::BindBuffer { target: BufferTarget::ArrayBuffer, id: 5 },
            Command::BufferData {
                target: BufferTarget::ArrayBuffer,
                words: triangle(),
                usage: BufferUsage::StaticDraw,
            },
            Command::BindBuffer { target: BufferTarget::ElementArrayBuffer, id: 6 },
            Command::BufferData {
                target: BufferTarget::ElementArrayBuffer,
                words: vec![0, 1, 2],
                usage: BufferUsage::StaticDraw,
            },
            Command::VertexAttribPointer {
                index: 0,
                size: 3,
                data_type: DataType::Float,
                normalized: false,
                stride: 12,
            },
            Command::EnableVertexAttribArray { index: 0 },
            Command::BindBuffer { target: BufferTarget::ArrayBuffer, id: 0 },
            Command::BindVertexArray { id: 0 },
            Command::BindBuffer { target: BufferTarget::ElementArrayBuffer, id: 0 },
        ]
    );
}

#[test]
fn square_is_drawn_with_one_indexed_draw_of_six() {
    let mut device = Device::new();
    let shaders = program(&mut device);
    let renderer = made(MeshRenderer::new(square(), vec![0, 1, 2, 0, 2, 3], shaders, &mut device));
    device.take_commands();
    renderer.render(&mut device);
    let commands = device.take_commands();
    assert_eq!(
        commands,
        vec![
            Command::UseProgram { id: 3 },
            Command::BindVertexArray { id: 4 },
            Command::DrawElements {
                mode: Primitive::Triangles,
                count: 6,
                index_type: DataType::UnsignedInt,
            },
        ]
    );
    let draws = commands
        .iter()
        .filter(|command| matches!(command, Command::DrawElements { .. }))
        .count();
    assert_eq!(draws, 1);
    assert!(!commands.iter().any(|command| matches!(command, Command::BindBuffer { .. })));
}

#[test]
fn eight_floats_are_two_vertices_and_cannot_carry_a_square() {
    let mut device = Device::new();
    let shaders = program(&mut device);
    let eight = bits(&[-0.5, -0.5, 0.5, -0.5, 0.5, 0.5, -0.5, 0.5]);
    let rejected = rejected(MeshRenderer::new(eight, vec![0, 1, 2, 0, 2, 3], shaders, &mut device));
    assert_eq!(rejected.error, EngineError::InvalidMeshData);
    assert!(device.take_commands().is_empty());
}

#[test]
fn mesh_without_indices_draws_nothing() {
    let mut device = Device::new();
    let shaders = program(&mut device);
    let renderer = made(MeshRenderer::new(vec![], vec![], shaders, &mut device));
    device.take_commands();
    renderer.render(&mut device);
    assert_eq!(
        device.take_commands(),
        vec![
            Command::UseProgram { id: 3 },
            Command::BindVertexArray { id: 4 },
            Command::DrawElements {
                mode: Primitive::Triangles,
                count: 0,
                index_type: DataType::UnsignedInt,
            },
        ]
    );
}

#[test]
fn uploaded_vertices_are_exactly_the_vertices_given() {
    let mut device = Device::new();
    let shaders = program(&mut device);
    let mut renderer = made(MeshRenderer::new(triangle(), vec![0, 1, 2], shaders, &mut device));
    device.take_commands();
    let moved = bits(&[0.0, 1.0, 0.0, -1.0, -1.0, 0.0, 1.0, -1.0, 0.0, f32::NAN, -0.0, f32::MAX]);
    assert_eq!(renderer.set_vertices(moved.clone(), &mut device), Ok(()));
    renderer.render(&mut device);
    let commands = device.take_commands();
    assert_eq!(
        commands,
        vec![
            Command::BindBuffer { target: BufferTarget::ArrayBuffer, id: 5 },
            Command::BufferData {
                target: BufferTarget::ArrayBuffer,
                words: moved.clone(),
                usage: BufferUsage::StaticDraw,
            },
            Command::BindBuffer { target: BufferTarget::ArrayBuffer, id: 0 },
            Command::UseProgram { id: 3 },
            Command::BindVertexArray { id: 4 },
            Command::DrawElements {
                mode: Primitive::Triangles,
                count: 3,
                index_type: DataType::UnsignedInt,
            },
        ]
    );
    assert_eq!(renderer.vertices(), &moved);
    assert_eq!(renderer.indices(), &vec![0, 1, 2]);
}

#[test]
fn uploaded_indices_are_exactly_the_indices_given() {
    let mut device = Device::new();
    let shaders = program(&mut device);
    let mut renderer = made(MeshRenderer::new(square(), vec![0, 1, 2], shaders, &mut device));
    device.take_commands();
    assert_eq!(renderer.set_indices(vec![0, 1, 2, 0, 2, 3], &mut device), Ok(()));
    assert_eq!(
        device.take_commands(),
        vec![
            Command::BindBuffer { target: BufferTarget::ElementArrayBuffer, id: 6 },
            Command::BufferData {
                target: BufferTarget::ElementArrayBuffer,
                words: vec![0, 1, 2, 0, 2, 3],
                usage: BufferUsage::StaticDraw,
            },
            Command::BindBuffer { target: BufferTarget::ElementArrayBuffer, id: 0 },
        ]
    );
    assert_eq!(renderer.indices(), &vec![0, 1, 2, 0, 2, 3]);
    renderer.render(&mut device);
    assert!(device.take_commands().contains(&Command::DrawElements {
        mode: Primitive::Triangles,
        count: 6,
        index_type: DataType::UnsignedInt,
    }));
}

#[test]
fn index_past_the_vertices_is_rejected_at_setup() {
    let mut device = Device::new();
    let shaders = program(&mut device);
    let rejected = rejected(MeshRenderer::new(triangle(), vec![0, 1, 3], shaders, &mut device));
    assert_eq!(rejected.error, EngineError::InvalidMeshData);
    assert_eq!(rejected.shaders.id(), 3);
    assert!(device.take_commands().is_empty());
    assert_eq!(device.available(), u32::MAX - 3);
    let renderer = MeshRenderer::new(triangle(), vec![0, 1, 2], rejected.shaders, &mut device);
    assert!(renderer.is_ok());
}

#[test]
fn index_past_the_vertices_is_rejected_on_update() {
    let mut device = Device::new();
    let shaders = program(&mut device);
    let mut renderer = made(MeshRenderer::new(square(), vec![0, 1, 2, 0, 2, 3], shaders, &mut device));
    device.take_commands();

    assert_eq!(renderer.set_indices(vec![0, 1, 4], &mut device), Err(EngineError::InvalidMeshData));
    assert!(device.take_commands().is_empty());
    assert_eq!(renderer.indices(), &vec![0, 1, 2, 0, 2, 3]);

    assert_eq!(renderer.set_vertices(triangle(), &mut device), Err(EngineError::InvalidMeshData));
    assert!(device.take_commands().is_empty());
    assert_eq!(renderer.vertices(), &square());

    renderer.render(&mut device);
    assert!(device.take_commands().contains(&Command::DrawElements {
        mode: Primitive::Triangles,
        count: 6,
        index_type: DataType::UnsignedInt,
    }));
}

#[test]
fn setup_needs_three_names() {
    let mut device = Device::starting_at(u32::MAX - 4).unwrap();
    let shaders = program(&mut device);
    assert_eq!(device.available(), 2);
    let rejected = rejected(MeshRenderer::new(triangle(), vec![0, 1, 2], shaders, &mut device));
    assert_eq!(rejected.error, EngineError::DeviceAllocationFailure);
    assert!(device.take_commands().is_empty());
    assert_eq!(device.available(), 2);
}

#[test]
fn invalid_data_is_reported_before_a_full_device() {
    let mut device = Device::starting_at(u32::MAX - 4).unwrap();
    let shaders = program(&mut device);
    let rejected = rejected(MeshRenderer::new(triangle(), vec![9], shaders, &mut device));
    assert_eq!(rejected.error, EngineError::InvalidMeshData);
}

#[test]
fn destroy_releases_program_array_and_buffers() {
    let mut device = Device::new();
    let shaders = program(&mut device);
    let renderer = made(MeshRenderer::new(triangle(), vec![0, 1, 2], shaders, &mut device));
    device.take_commands();
    renderer.destroy(&mut device);
    assert_eq!(
        device.take_commands(),
        vec![
            Command::DeleteProgram { id: 3 },
            Command::DeleteVertexArray { id: 4 },
            Command::DeleteBuffer { id: 6 },
            Command::DeleteBuffer { id: 5 },
        ]
    );
}
