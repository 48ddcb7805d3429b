use glwindow::init::Refusal;
use glwindow::protocol::{Action, DisplaySettings, Placement, Reply, Resource};
use glwindow::text::wide_string;
use glwindow::types::{
    Api, BuilderAttribs, ContextHack, ContextWrapper, CreationError, Extensions, GlRequest,
    MonitorID, PixelFormatDescriptor, Rect, Window, WindowWrapper,
};
use glwindow::window_thread::{new_window, ThreadAction, WindowThread};

fn builder() -> BuilderAttribs {
    BuilderAttribs {
        title: String::from("T"),
        dimensions: Some((640, 480)),
        monitor: None,
        visible: true,
        headless: false,
        gl_version: GlRequest::Latest,
        gl_debug: false,
        vsync: false,
    }
}

fn fullscreen_builder() -> BuilderAttribs {
    BuilderAttribs {
        monitor: Some(MonitorID { position: (100, 200), adapter_name: vec![68, 49, 0] }),
        ..builder()
    }
}

fn descriptor(flags: u32) -> PixelFormatDescriptor {
    PixelFormatDescriptor {
        size: 40,
        version: 1,
        flags,
        pixel_type: 0,
        color_bits: 32,
        red_bits: 8,
        red_shift: 16,
        green_bits: 8,
        green_shift: 8,
        blue_bits: 8,
        blue_shift: 0,
        alpha_bits: 8,
        alpha_shift: 24,
        accum_bits: 0,
        accum_red_bits: 0,
        accum_green_bits: 0,
        accum_blue_bits: 0,
        accum_alpha_bits: 0,
        depth_bits: 24,
        stencil_bits: 8,
        aux_buffers: 0,
        layer_type: 0,
        reserved: 0,
        layer_mask: 0,
        visible_mask: 0,
        damage_mask: 0,
    }
}

/// The name of a call.
fn name(action: &Action) -> &'static str {
    match action {
        Action::RegisterClass(_) => "RegisterClass",
        Action::ChangeDisplaySettings { .. } => "ChangeDisplaySettings",
        Action::AdjustWindowRect { .. } => "AdjustWindowRect",
        Action::CreateWindow { .. } => "CreateWindow",
        Action::GetDc { .. } => "GetDc",
        Action::CountPixelFormats { .. } => "CountPixelFormats",
        Action::DescribeCandidate { .. } => "DescribeCandidate",
        Action::QueryAttribute { .. } => "QueryAttribute",
        Action::ChoosePixelFormat { .. } => "ChoosePixelFormat",
        Action::DescribeChosen { .. } => "DescribeChosen",
        Action::SetPixelFormat { .. } => "SetPixelFormat",
        Action::CreateContextAttribs { .. } => "CreateContextAttribs",
        Action::CreateContext { .. } => "CreateContext",
        Action::ShareLists { .. } => "ShareLists",
        Action::MakeCurrent { .. } => "MakeCurrent",
        Action::LoadExtensions => "LoadExtensions",
        Action::SetForegroundWindow { .. } => "SetForegroundWindow",
        Action::InstallCallback { .. } => "InstallCallback",
        Action::LoadLibrary { .. } => "LoadLibrary",
        Action::SwapInterval { .. } => "SwapInterval",
        Action::Release(_) => "Release",
        Action::Finish => "Finish",
    }
}

/// A system in which everything works but, if there is one, the `fail.1`-th call named `fail.0`.
struct System {
    extensions: Extensions,
    fail: Option<(&'static str, usize)>,
    next_handle: usize,
    log: Vec<Action>,
}

fn system(extensions: bool) -> System {
    System {
        extensions: Extensions {
            get_pixel_format_attribiv_arb: extensions,
            create_context_attribs_arb: extensions,
            swap_interval_ext: extensions,
        },
        fail: None,
        next_handle: 10,
        log: Vec::new(),
    }
}

impl System {
    fn count(&self, call: &str) -> usize {
        self.log.iter().filter(|action| name(action) == call).count()
    }

    fn names(&self) -> Vec<&'static str> {
        self.log.iter().map(|action| name(action)).collect()
    }

    fn reply(&mut self, action: Action) -> Reply {
        let fails = match self.fail {
            Some((call, which)) => call == name(&action) && self.count(call) == which,
            None => false,
        };
        let number = |value: i32| Reply::Code { value, os_error: String::from("why") };
        let reply = match &action {
            Action::ChangeDisplaySettings { .. } => number(if fails { -2 } else { 0 }),
            Action::AdjustWindowRect { rect, .. } => Reply::Adjusted(Rect {
                left: rect.left - 8,
                top: rect.top - 31,
                right: rect.right + 8,
                bottom: rect.bottom + 8,
            }),
            Action::CreateWindow { .. }
            | Action::GetDc { .. }
            | Action::CreateContextAttribs { .. }
            | Action::CreateContext { .. }
            | Action::LoadLibrary { .. } => {
                self.next_handle += 1;
                let value = if fails { 0 } else { self.next_handle };
                Reply::Handle { value, os_error: String::from("why") }
            }
            Action::CountPixelFormats { .. } => number(2),
            Action::DescribeCandidate { index, .. } => Reply::Described {
                value: 2,
                descriptor: descriptor(if *index == 0 { 0x20 } else { 0x25 }),
                os_error: String::new(),
            },
            Action::QueryAttribute { index, attribute, .. } => Reply::Attribute {
                value: match *attribute {
                    0x2000 => 2,
                    0x2001 => *index,
                    0x2003 => 0x2027,
                    0x2013 => 0x202B,
                    _ => 1,
                },
            },
            Action::ChoosePixelFormat { candidates } => Reply::Chosen { id: candidates[0].0 },
            Action::DescribeChosen { .. } => Reply::Described {
                value: if fails { 0 } else { 2 },
                descriptor: descriptor(0x25),
                os_error: String::from("why"),
            },
            Action::SetPixelFormat { .. } | Action::SwapInterval { .. } => {
                number(if fails { 0 } else { 1 })
            }
            Action::MakeCurrent { .. } => Reply::Current(if fails {
                Err(CreationError::OsError(String::from("not current")))
            } else {
                Ok(())
            }),
            Action::LoadExtensions => Reply::Loaded(self.extensions),
            Action::Finish => unreachable!(),
            _ => Reply::Done,
        };
        self.log.push(action);
        reply
    }

    /// Creates a window.
    fn create(
        &mut self,
        builder: BuilderAttribs,
        share: Option<ContextHack>,
    ) -> (WindowThread, Result<Window, CreationError>) {
        let mut thread = new_window(builder, share);
        loop {
            match thread.action() {
                ThreadAction::Create(action) => {
                    let reply = self.reply(action);
                    assert_eq!(thread.refusal(&reply), None);
                    thread = thread.step(reply);
                }
                ThreadAction::Report(result) => return (thread, result),
                other => panic!("{:?}", other),
            }
        }
    }

    /// The resources that were acquired and not given back.
    fn left(&self) -> (i32, i32, i32) {
        let mut left = (0, 0, 0);
        for action in &self.log {
            match action {
                Action::Release(Resource::Window(_)) => left.0 -= 1,
                Action::Release(Resource::Context(_)) => left.1 -= 1,
                Action::Release(Resource::Current(..)) => left.2 -= 1,
                Action::GetDc { .. } => left.0 += 1,
                Action::CreateContext { .. } => left.1 += 1,
                Action::CreateContextAttribs { .. } => left.1 += 1,
                Action::MakeCurrent { .. } => left.2 += 1,
                _ => {}
            }
        }
        left
    }
}

fn os_error(message: &str) -> Result<Window, CreationError> {
    Err(CreationError::OsError(String::from(message)))
}

#[test]
fn window_on_the_desktop() {
    let mut system = system(false);
    let (_, result) = system.create(builder(), None);
    assert_eq!(
        result,
        Ok(Window {
            window: WindowWrapper(14, 15),
            context: ContextWrapper(16),
            gl_library: 17,
            is_closed: false,
        })
    );
    assert_eq!(
        system.names(),
        vec![
            "RegisterClass",
            "AdjustWindowRect",
            "CreateWindow",
            "GetDc",
            "CountPixelFormats",
            "DescribeCandidate",
            "DescribeCandidate",
            "ChoosePixelFormat",
            "DescribeChosen",
            "SetPixelFormat",
            "CreateContext",
            "MakeCurrent",
            "LoadExtensions",
            "Release",
            "Release",
            "Release",
            "CreateWindow",
            "GetDc",
            "CountPixelFormats",
            "DescribeCandidate",
            "DescribeCandidate",
            "ChoosePixelFormat",
            "DescribeChosen",
            "SetPixelFormat",
            "CreateContext",
            "InstallCallback",
            "LoadLibrary",
        ]
    );
    assert_eq!(system.left(), (1, 1, 0));
}

#[test]
fn arguments_of_the_calls_for_a_window_on_the_desktop() {
    let mut system = system(false);
    system.create(builder(), None).1.unwrap();
    let log = &system.log;
    match &log[0] {
        Action::RegisterClass(class) => {
            assert_eq!((class.style, class.cls_extra, class.wnd_extra), (0x23, 0, 0));
            assert_eq!(class.class_name, wide_string("Window Class"));
        }
        other => panic!("{:?}", other),
    }
    assert_eq!(
        log[1],
        Action::AdjustWindowRect {
            rect: Rect { left: 0, top: 0, right: 640, bottom: 480 },
            style: 0x06CF_0000,
            menu: 0,
            ex_style: 0x0004_0100,
        }
    );
    let placement = Placement { x: i32::MIN, y: i32::MIN, width: 656, height: 519 };
    assert_eq!(
        log[2],
        Action::CreateWindow {
            ex_style: 0x0004_0100,
            class_name: wide_string("Window Class"),
            title: vec![84, 0],
            style: 0x06CF_0000,
            placement,
        }
    );
    assert_eq!(log[3], Action::GetDc { window: 11 });
    match &log[7] {
        Action::ChoosePixelFormat { candidates } => {
            assert_eq!(candidates.len(), 1);
            assert_eq!(candidates[0].0, 1);
            assert!(candidates[0].1.hardware_accelerated && candidates[0].1.double_buffer);
        }
        other => panic!("{:?}", other),
    }
    assert_eq!(log[8], Action::DescribeChosen { hdc: 12, id: 1 });
    assert_eq!(
        log[9],
        Action::SetPixelFormat { hdc: 12, id: 1, descriptor: descriptor(0x25) }
    );
    assert_eq!(log[10], Action::CreateContext { hdc: 12 });
    let (window, context) = (WindowWrapper(11, 12), ContextWrapper(13));
    assert_eq!(log[11], Action::MakeCurrent { window, context });
    assert_eq!(log[13], Action::Release(Resource::Current(window, context)));
    assert_eq!(log[14], Action::Release(Resource::Context(context)));
    assert_eq!(log[15], Action::Release(Resource::Window(window)));
    match &log[16] {
        Action::CreateWindow { style, placement: real, .. } => {
            assert_eq!(*style, 0x16CF_0000);
            assert_eq!(*real, placement);
        }
        other => panic!("{:?}", other),
    }
    assert_eq!(log[25], Action::InstallCallback { window: 14 });
    assert_eq!(log[26], Action::LoadLibrary { name: wide_string("opengl32.dll") });
}

#[test]
fn window_without_a_size_is_placed_by_the_system() {
    let mut system = system(false);
    system.create(BuilderAttribs { dimensions: None, ..builder() }, None).1.unwrap();
    let placements: Vec<Placement> = system
        .log
        .iter()
        .filter_map(|action| match action {
            Action::CreateWindow { placement, .. } => Some(*placement),
            _ => None,
        })
        .collect();
    let d = i32::MIN;
    assert_eq!(
        placements,
        vec![
            Placement { x: d, y: d, width: 1040, height: 807 },
            Placement { x: d, y: d, width: d, height: d },
        ]
    );
}

fn creation_styles(builder: BuilderAttribs) -> Vec<u32> {
    let mut system = system(false);
    system.create(builder, None).1.unwrap();
    system
        .log
        .iter()
        .filter_map(|action| match action {
            Action::CreateWindow { style, .. } => Some(*style),
            _ => None,
        })
        .collect()
}

#[test]
fn only_the_real_window_can_be_seen() {
    assert_eq!(creation_styles(builder()), vec![0x06CF_0000, 0x16CF_0000]);
    let hidden = BuilderAttribs { visible: false, ..builder() };
    assert_eq!(creation_styles(hidden), vec![0x06CF_0000, 0x06CF_0000]);
    let headless = BuilderAttribs { headless: true, ..builder() };
    assert_eq!(creation_styles(headless), vec![0x06CF_0000, 0x06CF_0000]);
    assert_eq!(creation_styles(fullscreen_builder()), vec![0x8600_0000, 0x9600_0000]);
}

#[test]
fn window_that_covers_a_monitor() {
    let mut system = system(true);
    let wanted = BuilderAttribs {
        vsync: true,
        gl_debug: true,
        gl_version: GlRequest::Specific(Api::OpenGl, (3, 1)),
        ..fullscreen_builder()
    };
    let (_, result) = system.create(wanted, Some(ContextHack(99)));
    let window = result.unwrap();
    assert_eq!(
        system.log[1],
        Action::ChangeDisplaySettings {
            adapter_name: vec![68, 49, 0],
            settings: DisplaySettings {
                pels_width: 640,
                pels_height: 480,
                bits_per_pel: 32,
                fields: 0x001C_0000,
            },
            flags: 4,
        }
    );
    assert_eq!(
        system.log[2],
        Action::AdjustWindowRect {
            rect: Rect { left: 100, top: 200, right: 740, bottom: 680 },
            style: 0x8600_0000,
            menu: 0,
            ex_style: 0x0004_0000,
        }
    );
    let names = system.names();
    let tail: Vec<&str> = names[names.len() - 10..].to_vec();
    assert_eq!(
        tail,
        vec![
            "ChoosePixelFormat",
            "DescribeChosen",
            "SetPixelFormat",
            "CreateContextAttribs",
            "SetForegroundWindow",
            "InstallCallback",
            "LoadLibrary",
            "MakeCurrent",
            "SwapInterval",
            "Release",
        ]
    );
    let n = system.log.len();
    assert_eq!(
        system.log[n - 7],
        Action::CreateContextAttribs {
            hdc: window.window.1,
            share: 99,
            attributes: vec![0x2091, 3, 0x2092, 1, 0x2094, 1, 0],
        }
    );
    assert_eq!(system.log[n - 6], Action::SetForegroundWindow { window: window.window.0 });
    assert_eq!(system.log[n - 2], Action::SwapInterval { interval: 1 });
    assert_eq!(
        system.log[n - 1],
        Action::Release(Resource::Current(window.window, window.context))
    );
    assert_eq!(system.left(), (1, 1, 0));
    // the dummy window asks the system for its formats, the real one the driver
    assert_eq!(system.count("CountPixelFormats"), 1);
    assert_eq!(system.count("QueryAttribute"), 1 + 1 + 12);
    match &system.log[n - 10] {
        Action::ChoosePixelFormat { candidates } => {
            assert_eq!(candidates.len(), 1);
            assert_eq!(candidates[0].0, 1);
            assert_eq!(candidates[0].1.red_bits, 1);
        }
        other => panic!("{:?}", other),
    }
    // the dummy context is shared with nothing
    assert_eq!(system.count("ShareLists"), 0);
    assert_eq!(system.count("CreateContext"), 1);
}

#[test]
fn window_on_the_desktop_leaves_the_monitor_alone() {
    let mut system = system(true);
    system.create(builder(), None).1.unwrap();
    assert_eq!(system.count("ChangeDisplaySettings"), 0);
    assert_eq!(system.count("SetForegroundWindow"), 0);
}

#[test]
fn vsync_needs_both_the_wish_and_the_driver() {
    for (wish, able, calls) in [(true, true, 1), (true, false, 0), (false, true, 0)] {
        let mut system = system(able);
        system.create(BuilderAttribs { vsync: wish, ..builder() }, None).1.unwrap();
        assert_eq!(system.count("SwapInterval"), calls);
    }
}

#[test]
fn shared_context_without_the_driver() {
    let mut system = system(false);
    let window = system.create(builder(), Some(ContextHack(99))).1.unwrap();
    let shares: Vec<&Action> =
        system.log.iter().filter(|action| name(action) == "ShareLists").collect();
    assert_eq!(shares, vec![&Action::ShareLists { share: 99, context: window.context.0 }]);
}

fn failing(call: &'static str, which: usize) -> (Result<Window, CreationError>, System) {
    let mut system = system(true);
    system.fail = Some((call, which));
    let wanted = BuilderAttribs { vsync: true, ..fullscreen_builder() };
    let (thread, result) = system.create(wanted, None);
    assert_eq!(thread.step(Reply::Done).action(), ThreadAction::Exit);
    (result, system)
}

#[test]
fn display_mode_cannot_be_changed() {
    let (result, system) = failing("ChangeDisplaySettings", 0);
    assert_eq!(result, os_error("ChangeDisplaySettings failed: -2"));
    assert_eq!(system.names(), vec!["RegisterClass", "ChangeDisplaySettings"]);
}

#[test]
fn window_cannot_be_created() {
    for which in [0, 1] {
        let (result, system) = failing("CreateWindow", which);
        assert_eq!(result, os_error("CreateWindowEx function failed: why"));
        assert_eq!(system.left(), (0, 0, 0));
    }
}

#[test]
fn device_context_cannot_be_got() {
    for which in [0, 1] {
        let (result, system) = failing("GetDc", which);
        assert_eq!(result, os_error("GetDC function failed: why"));
        // a window whose device context is missing is not given back
        assert_eq!(name(system.log.last().unwrap()), "GetDc");
    }
}

#[test]
fn chosen_format_cannot_be_described() {
    for which in [0, 1] {
        let (result, system) = failing("DescribeChosen", which);
        assert_eq!(result, os_error("DescribePixelFormat function failed: why"));
        assert_eq!(system.left(), (0, 0, 0));
    }
}

#[test]
fn chosen_format_cannot_be_set() {
    for which in [0, 1] {
        let (result, system) = failing("SetPixelFormat", which);
        assert_eq!(result, os_error("SetPixelFormat function failed: why"));
        assert_eq!(system.left(), (0, 0, 0));
    }
}

#[test]
fn context_cannot_be_created() {
    for call in ["CreateContext", "CreateContextAttribs"] {
        let (result, system) = failing(call, 0);
        assert_eq!(result, os_error("OpenGL context creation failed: why"));
        assert_eq!(name(system.log.last().unwrap()), "Release");
        assert!(matches!(system.log.last().unwrap(), Action::Release(Resource::Window(_))));
    }
}

#[test]
fn context_cannot_be_made_current() {
    for which in [0, 1] {
        let (result, system) = failing("MakeCurrent", which);
        assert_eq!(result, os_error("not current"));
        let n = system.log.len();
        assert!(matches!(system.log[n - 2], Action::Release(Resource::Context(_))));
        assert!(matches!(system.log[n - 1], Action::Release(Resource::Window(_))));
        assert_eq!((system.left().0, system.left().1), (0, 0));
    }
}

#[test]
fn library_cannot_be_loaded() {
    let (result, system) = failing("LoadLibrary", 0);
    assert_eq!(result, os_error("LoadLibrary function failed: why"));
    assert_eq!(system.left(), (0, 0, 0));
}

#[test]
fn interval_cannot_be_set() {
    let (result, system) = failing("SwapInterval", 0);
    assert_eq!(result, os_error("wglSwapIntervalEXT failed"));
    let n = system.log.len();
    assert!(matches!(system.log[n - 3], Action::Release(Resource::Current(..))));
    assert!(matches!(system.log[n - 2], Action::Release(Resource::Context(_))));
    assert!(matches!(system.log[n - 1], Action::Release(Resource::Window(_))));
    assert_eq!(system.left(), (0, 0, 0));
}

#[test]
fn monitor_outside_the_coordinates_is_refused() {
    let wanted = BuilderAttribs {
        monitor: Some(MonitorID { position: (0x7FFF_FFFF, 0), adapter_name: vec![0] }),
        ..builder()
    };
    let thread = new_window(wanted, None);
    assert_eq!(thread.refusal(&Reply::Done), Some(Refusal::Overflow));
}

#[test]
fn rect_too_large_for_the_coordinates_is_refused() {
    let thread = new_window(builder(), None).step(Reply::Done);
    let rect = Rect { left: -10, top: 0, right: i32::MAX, bottom: 1 };
    assert_eq!(thread.refusal(&Reply::Adjusted(rect)), Some(Refusal::Overflow));
}

#[test]
fn reply_to_another_call_is_refused() {
    let thread = new_window(builder(), None);
    assert_eq!(thread.refusal(&Reply::Chosen { id: 1 }), Some(Refusal::WrongReply));
    assert_eq!(WindowThread::Ended.refusal(&Reply::Done), Some(Refusal::WrongReply));
}

#[test]
fn embedded_version_is_refused_where_the_driver_would_be_told() {
    let wanted =
        || BuilderAttribs { gl_version: GlRequest::Specific(Api::OpenGlEs, (2, 0)), ..builder() };
    let mut able = system(true);
    let mut thread = new_window(wanted(), None);
    let refusal = loop {
        match thread.action() {
            ThreadAction::Create(action) => {
                let reply = able.reply(action);
                match thread.refusal(&reply) {
                    Some(refusal) => break refusal,
                    None => thread = thread.step(reply),
                }
            }
            other => panic!("{:?}", other),
        }
    };
    assert_eq!(refusal, Refusal::UnsupportedApi);
    assert_eq!(able.count("SetPixelFormat"), 2);
    assert_eq!(able.count("CreateContextAttribs"), 0);
    assert!(system(false).create(wanted(), None).1.is_ok());
}

#[test]
fn thread_reports_and_passes_messages_on() {
    let (thread, result) = system(false).create(builder(), None);
    assert_eq!(thread.action(), ThreadAction::Report(result));
    let code = |value: i32| Reply::Code { value, os_error: String::new() };
    let mut thread = thread.step(Reply::Done);
    for value in [1, -1, 7] {
        assert_eq!(
            thread.action(),
            ThreadAction::GetMessage { window: 0, filter_min: 0, filter_max: 0 }
        );
        thread = thread.step(code(value));
        assert_eq!(thread.action(), ThreadAction::TranslateMessage);
        thread = thread.step(Reply::Done);
        assert_eq!(thread.action(), ThreadAction::DispatchMessage);
        thread = thread.step(Reply::Done);
    }
    thread = thread.step(code(0));
    assert_eq!(thread.action(), ThreadAction::Exit);
}
