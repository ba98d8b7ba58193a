use foux_engine::{Command, MeshRenderer, Scheduler, System, SystemType, Window};

/// Appends its mark to the window's title.
struct Mark(&'static str);

impl System for Mark {
    fn run(&mut self, window: &mut Window, _renders: &mut Vec<MeshRenderer>) {
        let title = format!("{}{}", window.get_title(), self.0);
        window.set_title(&title);
    }
}

/// Counts its own runs.
struct Counter(u32);

impl System for Counter {
    fn run(&mut self, window: &mut Window, _renders: &mut Vec<MeshRenderer>) {
        self.0 += 1;
        if self.0 >= 3 {
            window.set_should_close(true);
        }
    }
}

#[test]
fn phase_without_systems_changes_nothing() {
    let mut scheduler: Scheduler<Mark> = Scheduler::new();
    let mut window = Window::new("quiet", 640, 360);
    let mut renders: Vec<MeshRenderer> = Vec::new();
    for phase in [SystemType::Startup, SystemType::Update, SystemType::Key] {
        assert_eq!(scheduler.count(phase), 0);
        scheduler.invoke(phase, &mut window, &mut renders);
    }
    assert_eq!(window.get_title(), "quiet");
    assert_eq!(window.width(), 640);
    assert_eq!(window.height(), 360);
    assert!(!window.should_close());
    assert!(renders.is_empty());
    assert!(window.take_commands().is_empty());
}

#[test]
fn empty_phase_is_quiet_beside_a_busy_one() {
    let mut scheduler = Scheduler::new();
    scheduler.insert(SystemType::Update, Mark("u"));
    let mut window = Window::new("w", 1, 1);
    let mut renders: Vec<MeshRenderer> = Vec::new();
    scheduler.invoke(SystemType::Startup, &mut window, &mut renders);
    scheduler.invoke(SystemType::Key, &mut window, &mut renders);
    assert_eq!(window.get_title(), "w");
    assert!(window.take_commands().is_empty());
}

#[test]
fn systems_run_in_the_order_they_were_registered() {
    let mut scheduler = Scheduler::new();
    scheduler.insert(SystemType::Update, Mark("A"));
    scheduler.insert(SystemType::Update, Mark("B"));
    let mut window = Window::new("", 1, 1);
    let mut renders: Vec<MeshRenderer> = Vec::new();
    scheduler.invoke(SystemType::Update, &mut window, &mut renders);
    assert_eq!(window.get_title(), "AB");
    scheduler.invoke(SystemType::Update, &mut window, &mut renders);
    assert_eq!(window.get_title(), "ABAB");
    scheduler.insert(SystemType::Update, Mark("C"));
    scheduler.invoke(SystemType::Update, &mut window, &mut renders);
    assert_eq!(window.get_title(), "ABABABC");
    assert_eq!(
        window.take_commands(),
        vec![
            Command::SetTitle { title: String::from("A") },
            Command::SetTitle { title: String::from("AB") },
            Command::SetTitle { title: String::from("ABA") },
            Command::SetTitle { title: String::from("ABAB") },
            Command::SetTitle { title: String::from("ABABA") },
            Command::SetTitle { title: String::from("ABABAB") },
            Command::SetTitle { title: String::from("ABABABC") },
        ]
    );
}

#[test]
fn default_scheduler_has_no_systems() {
    let scheduler: Scheduler<Mark> = Scheduler::default();
    for phase in [SystemType::Startup, SystemType::Update, SystemType::Key] {
        assert_eq!(scheduler.count(phase), 0);
    }
}

#[test]
fn phases_keep_their_own_lists() {
    let mut scheduler = Scheduler::new();
    scheduler.insert(SystemType::Startup, Mark("s"));
    scheduler.insert(SystemType::Update, Mark("u"));
    scheduler.insert(SystemType::Key, Mark("k"));
    scheduler.insert(SystemType::Startup, Mark("S"));
    assert_eq!(scheduler.count(SystemType::Startup), 2);
    assert_eq!(scheduler.count(SystemType::Update), 1);
    assert_eq!(scheduler.count(SystemType::Key), 1);
    let mut window = Window::new("", 1, 1);
    let mut renders: Vec<MeshRenderer> = Vec::new();
    scheduler.invoke(SystemType::Key, &mut window, &mut renders);
    assert_eq!(window.get_title(), "k");
    scheduler.invoke(SystemType::Startup, &mut window, &mut renders);
    assert_eq!(window.get_title(), "ksS");
    scheduler.invoke(SystemType::Update, &mut window, &mut renders);
    assert_eq!(window.get_title(), "ksSu");
}

#[test]
fn systems_keep_their_state_between_runs() {
    let mut scheduler = Scheduler::new();
    scheduler.insert(SystemType::Update, Counter(0));
    let mut window = Window::new("", 1, 1);
    let mut renders: Vec<MeshRenderer> = Vec::new();
    scheduler.invoke(SystemType::Update, &mut window, &mut renders);
    scheduler.invoke(SystemType::Update, &mut window, &mut renders);
    assert!(!window.should_close());
    scheduler.invoke(SystemType::Update, &mut window, &mut renders);
    assert!(window.should_close());
}
