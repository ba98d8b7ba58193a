use foux_engine::{
    BuildStatus, BuildStep, Command, DataType, Engine, EngineState, MeshRenderer, Primitive,
    ShaderProgram, Step, System, SystemType, Window, CLEAR_ALPHA, CLEAR_BLUE, CLEAR_GREEN,
    CLEAR_RED, ENGINE_NAME, WINDOW_HEIGHT, WINDOW_WIDTH,
};

const MS: u64 = 1_000_000;

/// What the systems of these tests can be.
enum Script {
    /// Adds a triangle to the renderers.
    AddTriangle,
    /// Retitles the window.
    Title(&'static str),
    /// Asks the window to close after this many runs.
    CloseAfter(u32),
    /// Does nothing.
    Idle,
}

impl System for Script {
    fn run(&mut self, window: &mut Window, renders: &mut Vec<MeshRenderer>) {
        match self {
            Script::AddTriangle => {
                let device = window.device_mut();
                let good = || BuildStatus { success: true, log: String::new() };
                let mut step = BuildStep::Pending(ShaderProgram::new("v", "f", device).unwrap());
                let shaders = loop {
                    step = match step {
                        BuildStep::Pending(build) => build.advance(good(), device),
                        BuildStep::Linked(program) => break program,
                        BuildStep::Failed(_) => panic!("the build should have linked"),
                    };
                };
                let vertices: Vec<u32> = [0.0f32, 0.5, 0.0, -0.5, -0.5, 0.0, 0.5, -0.5, 0.0]
                    .iter()
                    .map(|value| value.to_bits())
                    .collect();
                match MeshRenderer::new(vertices, vec![0, 1, 2], shaders, device) {
                    Ok(renderer) => renders.push(renderer),
                    Err(_) => panic!("the triangle should have been made"),
                }
            }
            Script::Title(title) => window.set_title(title),
            Script::CloseAfter(runs) => {
                if *runs == 0 {
                    window.set_should_close(true);
                } else {
                    *runs -= 1;
                }
            }
            Script::Idle => {}
        }
    }
}

fn engine(target: u64) -> Engine<Script> {
    match Engine::new(target) {
        Some(engine) => engine,
        None => panic!("there should be an engine"),
    }
}

fn draw(program: u32, array: u32) -> Vec<Command> {
    vec![
        Command::UseProgram { id: program },
        Command::BindVertexArray { id: array },
        Command::DrawElements {
            mode: Primitive::Triangles,
            count: 3,
            index_type: DataType::UnsignedInt,
        },
    ]
}

fn clear() -> Vec<Command> {
    vec![
        Command::ClearColor {
            red: CLEAR_RED,
            green: CLEAR_GREEN,
            blue: CLEAR_BLUE,
            alpha: CLEAR_ALPHA,
        },
        Command::Clear,
    ]
}

fn present() -> Vec<Command> {
    vec![Command::SwapBuffers, Command::PollEvents]
}

#[test]
fn engine_constants_are_the_engines() {
    assert_eq!(ENGINE_NAME, "Foux Engine");
    assert_eq!(WINDOW_WIDTH, 800);
    assert_eq!(WINDOW_HEIGHT, 480);
    assert_eq!(f32::from_bits(CLEAR_RED), 0.07);
    assert_eq!(f32::from_bits(CLEAR_GREEN), 0.17);
    assert_eq!(f32::from_bits(CLEAR_BLUE), 0.07);
    assert_eq!(f32::from_bits(CLEAR_ALPHA), 1.0);
}

#[test]
fn no_engine_for_frames_of_no_time() {
    assert!(Engine::<Script>::new(0).is_none());
    assert!(Engine::<Script>::new(1).is_some());
}

#[test]
fn new_engine_has_not_started() {
    let engine = engine(16 * MS);
    assert_eq!(engine.state(), EngineState::Uninitialized);
    assert_eq!(engine.window().get_title(), "Foux Engine");
    assert_eq!(engine.window().width(), 800);
    assert_eq!(engine.window().height(), 480);
    assert!(!engine.window().should_close());
}

#[test]
fn startup_runs_once_and_update_every_frame() {
    let mut engine = engine(16 * MS);
    engine.add_system(SystemType::Startup, Script::AddTriangle);
    engine.add_system(SystemType::Update, Script::Idle);

    assert_eq!(engine.run(0), Step::Execute);
    assert_eq!(engine.state(), EngineState::Ready);
    let startup = engine.window_mut().take_commands();
    assert_eq!(startup.len(), 6 + 3 + 4 + 4 + 13);
    assert_eq!(startup[0], Command::CreateShader { id: 1, stage: foux_engine::ShaderStage::Vertex });
    assert_eq!(startup[17], Command::GenVertexArray { id: 4 });

    for frame in 0..3u64 {
        let now = frame * 16 * MS;
        assert_eq!(engine.run(now), Step::Execute);
        assert_eq!(engine.state(), EngineState::Presenting);
        let mut expected = clear();
        expected.extend(draw(3, 4));
        expected.extend(present());
        assert_eq!(engine.window_mut().take_commands(), expected);
        assert_eq!(engine.run(now + 4 * MS), Step::Sleep(12 * MS));
        assert_eq!(engine.state(), EngineState::Ready);
        assert!(engine.window_mut().take_commands().is_empty());
    }
}

#[test]
fn frame_is_clear_then_update_then_draws_then_present() {
    let mut engine = engine(16 * MS);
    engine.add_system(SystemType::Startup, Script::AddTriangle);
    engine.add_system(SystemType::Startup, Script::AddTriangle);
    engine.add_system(SystemType::Update, Script::Title("one"));
    engine.add_system(SystemType::Update, Script::Title("two"));
    engine.run(0);
    engine.window_mut().take_commands();

    assert_eq!(engine.run(0), Step::Execute);
    let mut expected = clear();
    expected.push(Command::SetTitle { title: String::from("one") });
    expected.push(Command::SetTitle { title: String::from("two") });
    expected.extend(draw(3, 4));
    expected.extend(draw(9, 10));
    expected.extend(present());
    assert_eq!(engine.window_mut().take_commands(), expected);
    assert_eq!(engine.window().get_title(), "two");
}

#[test]
fn renderer_added_by_update_is_drawn_in_the_same_frame() {
    let mut engine = engine(16 * MS);
    engine.add_system(SystemType::Update, Script::AddTriangle);
    engine.run(0);
    assert!(engine.window_mut().take_commands().is_empty());

    engine.run(0);
    let first = engine.window_mut().take_commands();
    assert_eq!(first[..2], clear()[..]);
    assert_eq!(first[first.len() - 5..first.len() - 2], draw(3, 4)[..]);
    assert_eq!(first[first.len() - 2..], present()[..]);
    engine.run(1);

    engine.run(2);
    let second = engine.window_mut().take_commands();
    let mut tail = draw(3, 4);
    tail.extend(draw(9, 10));
    tail.extend(present());
    assert_eq!(second[second.len() - 8..], tail[..]);
}

#[test]
fn engine_without_systems_still_clears_and_presents() {
    let mut engine = engine(10 * MS);
    assert_eq!(engine.run(0), Step::Execute);
    assert!(engine.window_mut().take_commands().is_empty());
    assert_eq!(engine.run(0), Step::Execute);
    let mut expected = clear();
    expected.extend(present());
    assert_eq!(engine.window_mut().take_commands(), expected);
}

#[test]
fn close_request_is_honoured_at_the_top_of_the_next_iteration() {
    let mut engine = engine(16 * MS);
    engine.add_system(SystemType::Update, Script::CloseAfter(1));
    assert_eq!(engine.run(0), Step::Execute);

    assert_eq!(engine.run(0), Step::Execute);
    assert_eq!(engine.run(1), Step::Sleep(16 * MS - 1));
    assert!(!engine.window().should_close());

    assert_eq!(engine.run(2), Step::Execute);
    assert!(engine.window().should_close());
    let commands = engine.window_mut().take_commands();
    assert!(commands.contains(&Command::SetShouldClose { value: true }));
    assert_eq!(commands[commands.len() - 2..], present()[..]);
    assert_eq!(engine.run(3), Step::Sleep(16 * MS - 1));
    assert_eq!(engine.state(), EngineState::Ready);

    assert_eq!(engine.run(4), Step::Stop);
    assert_eq!(engine.state(), EngineState::Closed);
    assert!(engine.window_mut().take_commands().is_empty());
    assert_eq!(engine.run(5), Step::Stop);
    assert_eq!(engine.state(), EngineState::Closed);
}

#[test]
fn closing_releases_the_renderers_last_to_first() {
    let mut engine = engine(16 * MS);
    engine.add_system(SystemType::Startup, Script::AddTriangle);
    engine.add_system(SystemType::Startup, Script::AddTriangle);
    engine.run(0);
    engine.run(0);
    engine.run(1);
    engine.window_mut().take_commands();
    engine.window_mut().observe_should_close(true);
    assert_eq!(engine.run(2), Step::Stop);
    assert_eq!(
        engine.window_mut().take_commands(),
        vec![
            Command::DeleteProgram { id: 9 },
            Command::DeleteVertexArray { id: 10 },
            Command::DeleteBuffer { id: 12 },
            Command::DeleteBuffer { id: 11 },
            Command::DeleteProgram { id: 3 },
            Command::DeleteVertexArray { id: 4 },
            Command::DeleteBuffer { id: 6 },
            Command::DeleteBuffer { id: 5 },
        ]
    );
    assert_eq!(engine.run(3), Step::Stop);
    assert!(engine.window_mut().take_commands().is_empty());
}

#[test]
fn close_request_from_the_host_ends_the_loop() {
    let mut engine = engine(16 * MS);
    engine.run(0);
    engine.run(0);
    engine.window_mut().take_commands();
    engine.window_mut().observe_should_close(true);
    assert_eq!(engine.run(5 * MS), Step::Sleep(11 * MS));
    assert_eq!(engine.run(16 * MS), Step::Stop);
    assert_eq!(engine.state(), EngineState::Closed);
}

#[test]
fn frame_that_overruns_is_not_slept_after() {
    let mut engine = engine(16_670_000);
    engine.run(0);
    engine.run(100 * MS);
    assert_eq!(engine.run(105 * MS), Step::Sleep(11_670_000));
    engine.run(200 * MS);
    assert_eq!(engine.run(220 * MS), Step::Sleep(0));
}

#[test]
fn title_reports_the_frame_rate_once_a_second() {
    let mut engine = engine(10 * MS);
    engine.run(0);
    let mut titles = Vec::new();
    let mut now = 0;
    for _ in 0..250 {
        assert_eq!(engine.run(now), Step::Execute);
        engine.window_mut().take_commands();
        now += 2 * MS;
        assert_eq!(engine.run(now), Step::Sleep(8 * MS));
        for command in engine.window_mut().take_commands() {
            match command {
                Command::SetTitle { title } => titles.push((now, title)),
                other => panic!("only the title is set after a frame, not {other:?}"),
            }
        }
        now += 8 * MS;
    }
    assert_eq!(
        titles,
        vec![
            (1_002 * MS, String::from("Foux Engine fps: 100 | ftime: 10.00ms")),
            (2_002 * MS, String::from("Foux Engine fps: 100 | ftime: 10.00ms")),
        ]
    );
    assert_eq!(engine.window().get_title(), "Foux Engine fps: 100 | ftime: 10.00ms");
}
