//! The creation of a window and its context, call by call.
//!
//! A first window and context, never seen, serve to find the driver's extra functions; a second
//! window and context, made with the help of those, are the result.

use vstd::prelude::*;

use crate::arb_formats::enumerate_arb_pixel_formats;
use crate::arb_formats::ArbEnumeration;
use crate::constants::CDS_FULLSCREEN;
use crate::constants::CS_HREDRAW;
use crate::constants::CS_OWNDC;
use crate::constants::CS_VREDRAW;
use crate::constants::DISP_CHANGE_SUCCESSFUL;
use crate::context::context_creation;
use crate::context::create_context;
use crate::context::has_attributes;
use crate::context::is_supported;
use crate::context::supported;
use crate::context::ContextCreation;
use crate::context::ContextCreationView;
use crate::geometry::can_move;
use crate::geometry::creation_style;
use crate::geometry::display_change;
use crate::geometry::dummy_placement;
use crate::geometry::ex_style_of;
use crate::geometry::initial_rect;
use crate::geometry::is_measurable;
use crate::geometry::measurable;
use crate::geometry::mode_for;
use crate::geometry::movable;
use crate::geometry::moved;
use crate::geometry::placement_anywhere;
use crate::geometry::placement_of;
use crate::geometry::real_placement;
use crate::geometry::rect_at_origin;
use crate::geometry::style_of;
use crate::geometry::switch_to_fullscreen;
use crate::geometry::window_creation_style;
use crate::geometry::window_styles;
use crate::native_formats::enumerate_native_pixel_formats;
use crate::native_formats::NativeEnumeration;
use crate::pixel_format::set_pixel_format;
use crate::pixel_format::FormatSetting;
use crate::protocol::Action;
use crate::protocol::ActionView;
use crate::protocol::DisplaySettings;
use crate::protocol::Reply;
use crate::protocol::Resource;
use crate::protocol::WindowClass;
use crate::text::wide;
use crate::text::wide_string;
use crate::types::BuilderAttribs;
use crate::types::BuilderView;
use crate::types::ContextHack;
use crate::types::ContextWrapper;
use crate::types::CreationError;
use crate::types::Extensions;
use crate::types::Failure;
use crate::types::PixelFormat;
use crate::types::Rect;
use crate::types::Window;
use crate::types::WindowWrapper;

verus! {

/// The styles of the class that all windows belong to.
pub open spec fn class_style() -> u32 {
    CS_HREDRAW | CS_VREDRAW | CS_OWNDC
}

/// The zero-terminated name of the class that all windows belong to.
pub open spec fn class_name() -> Seq<u16> {
    wide("Window Class"@)
}

/// Describes the class that all windows belong to.
///
/// A failure to register it is not looked at: to register it twice is a failure, and a class
/// that is missing shows when a window of it is created.
pub fn register_window_class() -> (class: WindowClass)
    ensures
        class.style == class_style(),
        class.cls_extra == 0,
        class.wnd_extra == 0,
        class.class_name@ == class_name(),
{
    WindowClass {
        style: CS_HREDRAW | CS_VREDRAW | CS_OWNDC,
        cls_extra: 0,
        wnd_extra: 0,
        class_name: wide_string("Window Class"),
    }
}

/// The zero-terminated name of the library that holds OpenGL.
pub fn load_opengl32_dll() -> (name: Vec<u16>)
    ensures
        name@ == wide("opengl32.dll"@),
{
    wide_string("opengl32.dll")
}

/// Which of the two windows is being made.
#[derive(Clone, Copy, Debug, PartialEq, Eq, Structural)]
pub enum Role {
    /// The one that the driver's extra functions are found through.
    Dummy,
    /// The one that the caller gets.
    Real,
}

/// What has to be given back if nothing more comes of it.
#[derive(Clone, Copy, Debug, PartialEq, Eq)]
pub struct Holding {
    pub window: Option<WindowWrapper>,
    pub context: Option<ContextWrapper>,
    /// The context is current.
    pub current: bool,
}

impl Holding {
    /// Nothing is held.
    pub open spec fn nothing() -> Holding {
        Holding { window: None, context: None, current: false }
    }

    /// A context needs a window, and only a context can be current.
    pub open spec fn wf(self) -> bool {
        &&& self.current ==> self.context is Some
        &&& self.context is Some ==> self.window is Some
        &&& self.window matches Some(window) ==> window.0 != 0 && window.1 != 0
        &&& self.context matches Some(context) ==> context.0 != 0
    }

    /// What is held, in the order in which it was acquired.
    pub open spec fn resources(self) -> Seq<Resource> {
        match (self.window, self.context) {
            (Some(window), Some(context)) => if self.current {
                seq![
                    Resource::Window(window),
                    Resource::Context(context),
                    Resource::Current(window, context),
                ]
            } else {
                seq![Resource::Window(window), Resource::Context(context)]
            },
            (Some(window), None) => seq![Resource::Window(window)],
            _ => Seq::empty(),
        }
    }

    /// What is held once the newest of it has been given back.
    pub open spec fn without_newest(self) -> Holding {
        if self.current {
            Holding { current: false, ..self }
        } else if self.context is Some {
            Holding { context: None, ..self }
        } else {
            Holding { window: None, ..self }
        }
    }

    fn newest(&self) -> (resource: Option<Resource>)
        requires
            self.wf(),
        ensures
            self.resources().len() == 0 ==> resource is None,
            self.resources().len() > 0 ==> resource == Some(self.resources().last()),
    {
        match self.window {
            None => None,
            Some(window) => match self.context {
                None => Some(Resource::Window(window)),
                Some(context) => if self.current {
                    Some(Resource::Current(window, context))
                } else {
                    Some(Resource::Context(context))
                },
            },
        }
    }

    fn give_back(&mut self)
        ensures
            *final(self) == old(self).without_newest(),
    {
        if self.current {
            self.current = false;
        } else if self.context.is_some() {
            self.context = None;
        } else {
            self.window = None;
        }
    }
}

/// The call that the creation waits for, with what is known for it alone.
#[derive(Debug, PartialEq, Eq)]
pub enum Stage {
    RegisterClass,
    ChangeDisplaySettings(DisplaySettings),
    AdjustRect,
    CreateWindow(Role),
    GetDc(Role, usize),
    NativeFormats(Role, NativeEnumeration),
    ArbFormats(ArbEnumeration),
    ChooseFormat(Role),
    SetFormat(Role, FormatSetting),
    CreateContext(Role, ContextCreation),
    MakeDummyCurrent,
    LoadExtensions,
    /// Giving the dummy window and context back, the newest first.
    ReleaseDummy,
    SetForeground,
    InstallCallback,
    LoadLibrary,
    /// The number is the handle of the OpenGL library, here and below.
    MakeCurrent(usize),
    SwapInterval(usize),
    ReleaseCurrent(usize),
    /// The window is ready.
    Ready(usize),
    /// There will be no window; what is held is given back, the newest first.
    Failed(Failure),
}

/// The content of a [`Stage`].
pub enum StageView {
    RegisterClass,
    ChangeDisplaySettings(DisplaySettings),
    AdjustRect,
    CreateWindow(Role),
    GetDc(Role, usize),
    NativeFormats(Role, NativeEnumeration),
    ArbFormats(ArbEnumeration),
    ChooseFormat(Role),
    SetFormat(Role, FormatSetting),
    CreateContext(Role, ContextCreationView),
    MakeDummyCurrent,
    LoadExtensions,
    ReleaseDummy,
    SetForeground,
    InstallCallback,
    LoadLibrary,
    MakeCurrent(usize),
    SwapInterval(usize),
    ReleaseCurrent(usize),
    Ready(usize),
    Failed(Failure),
}

impl View for Stage {
    type V = StageView;

    open spec fn view(&self) -> StageView {
        match *self {
            Stage::RegisterClass => StageView::RegisterClass,
            Stage::ChangeDisplaySettings(settings) => StageView::ChangeDisplaySettings(settings),
            Stage::AdjustRect => StageView::AdjustRect,
            Stage::CreateWindow(role) => StageView::CreateWindow(role),
            Stage::GetDc(role, handle) => StageView::GetDc(role, handle),
            Stage::NativeFormats(role, walk) => StageView::NativeFormats(role, walk),
            Stage::ArbFormats(walk) => StageView::ArbFormats(walk),
            Stage::ChooseFormat(role) => StageView::ChooseFormat(role),
            Stage::SetFormat(role, setting) => StageView::SetFormat(role, setting),
            Stage::CreateContext(role, creation) => StageView::CreateContext(role, creation@),
            Stage::MakeDummyCurrent => StageView::MakeDummyCurrent,
            Stage::LoadExtensions => StageView::LoadExtensions,
            Stage::ReleaseDummy => StageView::ReleaseDummy,
            Stage::SetForeground => StageView::SetForeground,
            Stage::InstallCallback => StageView::InstallCallback,
            Stage::LoadLibrary => StageView::LoadLibrary,
            Stage::MakeCurrent(library) => StageView::MakeCurrent(library),
            Stage::SwapInterval(library) => StageView::SwapInterval(library),
            Stage::ReleaseCurrent(library) => StageView::ReleaseCurrent(library),
            Stage::Ready(library) => StageView::Ready(library),
            Stage::Failed(failure) => StageView::Failed(failure),
        }
    }
}

/// A window on its way.
#[derive(Debug)]
pub struct Init {
    title: Vec<u16>,
    builder: BuilderAttribs,
    share: Option<ContextHack>,
    rect: Rect,
    extensions: Option<Extensions>,
    holding: Holding,
    found: Vec<(PixelFormat, i32)>,
    stage: Stage,
}

/// The content of an [`Init`].
pub struct InitView {
    /// Zero-terminated.
    pub title: Seq<u16>,
    pub builder: BuilderView,
    pub share: Option<ContextHack>,
    pub rect: Rect,
    /// The driver's extra functions, once they have been looked up.
    pub extensions: Option<Extensions>,
    pub holding: Holding,
    /// The pixel formats of the window that is being made.
    pub found: Seq<(PixelFormat, i32)>,
    pub stage: StageView,
}

impl View for Init {
    type V = InitView;

    closed spec fn view(&self) -> InitView {
        InitView {
            title: self.title@,
            builder: self.builder@,
            share: self.share,
            rect: self.rect,
            extensions: self.extensions,
            holding: self.holding,
            found: self.found@,
            stage: self.stage@,
        }
    }
}

/// Why a reply cannot be taken in.
#[derive(Clone, Copy, Debug, PartialEq, Eq, Structural)]
pub enum Refusal {
    /// It is not a reply to the call that was asked for.
    WrongReply,
    /// The window would lie outside the coordinates, or be too large for them.
    Overflow,
    /// Only OpenGL is supported.
    UnsupportedApi,
}

/// The number of a format goes before the format.
pub open spec fn numbered(found: Seq<(PixelFormat, i32)>) -> Seq<(i32, PixelFormat)> {
    Seq::new(found.len(), |i: int| (found[i].1, found[i].0))
}

fn numbered_formats(found: &Vec<(PixelFormat, i32)>) -> (candidates: Vec<(i32, PixelFormat)>)
    ensures
        candidates@ == numbered(found@),
{
    let mut candidates: Vec<(i32, PixelFormat)> = Vec::new();
    let mut i: usize = 0;
    while i < found.len()
        invariant
            i <= found.len(),
            candidates@ == numbered(found@).take(i as int),
        decreases found.len() - i,
    {
        let (format, id) = found[i];
        candidates.push((id, format));
        i = i + 1;
        assert(candidates@ =~= numbered(found@).take(i as int));
    }
    assert(numbered(found@).take(i as int) =~= numbered(found@));
    candidates
}

impl InitView {
    /// The beginning of the creation of a window.
    pub open spec fn start(title: Seq<u16>, builder: BuilderView, share: Option<ContextHack>) -> InitView {
        InitView {
            title,
            builder,
            share,
            rect: rect_at_origin(builder.dimensions),
            extensions: None,
            holding: Holding::nothing(),
            found: Seq::empty(),
            stage: StageView::RegisterClass,
        }
    }

    /// The creation with another call to wait for.
    pub open spec fn at(self, stage: StageView) -> InitView {
        InitView { stage, ..self }
    }

    /// The creation behind a failure.
    pub open spec fn failed(self, failure: Failure) -> InitView {
        self.at(StageView::Failed(failure))
    }

    /// The device context of the window that is being made.
    pub open spec fn hdc(self) -> usize {
        self.holding.window->Some_0.1
    }

    /// The context that a window is to share objects with.
    pub open spec fn share_of(self, role: Role) -> Option<ContextHack> {
        match role {
            Role::Dummy => None,
            Role::Real => self.share,
        }
    }

    /// The window is made, or will never be.
    pub open spec fn is_finished(self) -> bool {
        match self.stage {
            StageView::Ready(_) => true,
            StageView::Failed(_) => self.holding == Holding::nothing(),
            _ => false,
        }
    }

    /// What is held fits the call that the creation waits for.
    pub open spec fn wf(self) -> bool {
        let held = self.holding;
        let window_only = held.window is Some && held.context is None;
        let both = held.context is Some && !held.current;
        &&& held.wf()
        &&& match self.stage {
            StageView::RegisterClass => {
                &&& held == Holding::nothing()
                &&& self.extensions is None
                &&& self.rect == rect_at_origin(self.builder.dimensions)
            },
            StageView::ChangeDisplaySettings(_) => {
                &&& held == Holding::nothing()
                &&& self.extensions is None
                &&& self.builder.fullscreen()
            },
            StageView::AdjustRect => held == Holding::nothing() && self.extensions is None,
            StageView::CreateWindow(role) => {
                &&& held == Holding::nothing()
                &&& is_measurable(self.rect)
                &&& self.extensions is None <==> role == Role::Dummy
            },
            StageView::GetDc(role, handle) => {
                &&& held == Holding::nothing()
                &&& handle != 0
                &&& is_measurable(self.rect)
                &&& self.extensions is None <==> role == Role::Dummy
            },
            StageView::NativeFormats(role, walk) => {
                &&& window_only
                &&& is_measurable(self.rect)
                &&& self.extensions is None <==> role == Role::Dummy
                &&& match walk {
                    NativeEnumeration::Count { hdc } => hdc == self.hdc(),
                    NativeEnumeration::Describe { hdc, index, num } => hdc == self.hdc() && 0
                        <= index < num,
                    NativeEnumeration::Finished => false,
                }
            },
            StageView::ArbFormats(walk) => {
                &&& window_only
                &&& self.extensions is Some
                &&& match walk {
                    ArbEnumeration::Count { hdc } => hdc == self.hdc(),
                    ArbEnumeration::Query { hdc, index, num, .. } => hdc == self.hdc() && index
                        < num,
                    ArbEnumeration::Finished => false,
                }
            },
            StageView::ChooseFormat(role) => {
                &&& window_only
                &&& role == Role::Dummy ==> is_measurable(self.rect)
                &&& self.extensions is None <==> role == Role::Dummy
            },
            StageView::SetFormat(role, setting) => {
                &&& window_only
                &&& role == Role::Dummy ==> is_measurable(self.rect)
                &&& self.extensions is None <==> role == Role::Dummy
                &&& match setting {
                    FormatSetting::Describe { hdc, .. } => hdc == self.hdc(),
                    FormatSetting::Apply { hdc, .. } => hdc == self.hdc(),
                    FormatSetting::Finished => false,
                }
            },
            StageView::CreateContext(role, creation) => {
                &&& window_only
                &&& role == Role::Dummy ==> is_measurable(self.rect)
                &&& self.extensions is None <==> role == Role::Dummy
                &&& match creation {
                    ContextCreationView::WithAttributes { hdc, .. } => hdc == self.hdc(),
                    ContextCreationView::Plain { hdc, .. } => hdc == self.hdc(),
                    ContextCreationView::Share { context, .. } => context != 0,
                    ContextCreationView::Finished { .. } => false,
                }
            },
            StageView::MakeDummyCurrent => {
                &&& both
                &&& is_measurable(self.rect)
                &&& self.extensions is None
            },
            StageView::LoadExtensions => {
                &&& held.current
                &&& is_measurable(self.rect)
                &&& self.extensions is None
            },
            StageView::ReleaseDummy => {
                &&& held.window is Some
                &&& is_measurable(self.rect)
                &&& self.extensions is Some
            },
            StageView::SetForeground => {
                &&& both
                &&& self.extensions is Some
                &&& self.builder.fullscreen()
            },
            StageView::InstallCallback => both && self.extensions is Some,
            StageView::LoadLibrary => both && self.extensions is Some,
            StageView::MakeCurrent(library) => {
                &&& both
                &&& library != 0
                &&& self.extensions is Some
                &&& self.builder.vsync
            },
            StageView::SwapInterval(library) => {
                &&& held.current
                &&& library != 0
                &&& self.extensions is Some
            },
            StageView::ReleaseCurrent(library) => {
                &&& held.current
                &&& library != 0
                &&& self.extensions is Some
            },
            StageView::Ready(library) => both && library != 0 && self.extensions is Some,
            StageView::Failed(_) => true,
        }
    }

    /// The call that the creation waits for.
    pub open spec fn call(self) -> ActionView {
        let fullscreen = self.builder.fullscreen();
        match self.stage {
            StageView::RegisterClass => ActionView::RegisterClass {
                style: class_style(),
                cls_extra: 0,
                wnd_extra: 0,
                class_name: class_name(),
            },
            StageView::ChangeDisplaySettings(settings) => ActionView::ChangeDisplaySettings {
                adapter_name: self.builder.monitor->Some_0.adapter_name,
                settings,
                flags: CDS_FULLSCREEN,
            },
            StageView::AdjustRect => ActionView::AdjustWindowRect {
                rect: self.rect,
                style: style_of(fullscreen),
                menu: 0,
                ex_style: ex_style_of(fullscreen),
            },
            StageView::CreateWindow(role) => ActionView::CreateWindow {
                ex_style: ex_style_of(fullscreen),
                class_name: class_name(),
                title: self.title,
                style: creation_style(fullscreen, role == Role::Real && self.builder.shown()),
                placement: match role {
                    Role::Dummy => placement_anywhere(self.rect),
                    Role::Real => placement_of(
                        self.rect,
                        fullscreen,
                        self.builder.dimensions is Some,
                    ),
                },
            },
            StageView::GetDc(_, handle) => ActionView::GetDc { window: handle },
            StageView::NativeFormats(_, walk) => walk.call(),
            StageView::ArbFormats(walk) => walk.call(),
            StageView::ChooseFormat(_) => ActionView::ChoosePixelFormat {
                candidates: numbered(self.found),
            },
            StageView::SetFormat(_, setting) => setting.call(),
            StageView::CreateContext(_, creation) => creation.call(),
            StageView::MakeDummyCurrent => self.make_current(),
            StageView::LoadExtensions => ActionView::LoadExtensions,
            StageView::ReleaseDummy => ActionView::Release(self.holding.resources().last()),
            StageView::SetForeground => ActionView::SetForegroundWindow {
                window: self.holding.window->Some_0.0,
            },
            StageView::InstallCallback => ActionView::InstallCallback {
                window: self.holding.window->Some_0.0,
            },
            StageView::LoadLibrary => ActionView::LoadLibrary { name: wide("opengl32.dll"@) },
            StageView::MakeCurrent(_) => self.make_current(),
            StageView::SwapInterval(_) => ActionView::SwapInterval { interval: 1 },
            StageView::ReleaseCurrent(_) => ActionView::Release(self.holding.resources().last()),
            StageView::Ready(_) => ActionView::Finish,
            StageView::Failed(_) => if self.holding == Holding::nothing() {
                ActionView::Finish
            } else {
                ActionView::Release(self.holding.resources().last())
            },
        }
    }

    /// The call that makes the context current.
    pub open spec fn make_current(self) -> ActionView {
        ActionView::MakeCurrent {
            window: self.holding.window->Some_0,
            context: self.holding.context->Some_0,
        }
    }

    /// `reply` is of the kind that the call gives back.
    pub open spec fn expects(self, reply: Reply) -> bool {
        match self.stage {
            StageView::RegisterClass => reply is Done,
            StageView::ChangeDisplaySettings(_) => reply is Code,
            StageView::AdjustRect => reply is Adjusted,
            StageView::CreateWindow(_) => reply is Handle,
            StageView::GetDc(..) => reply is Handle,
            StageView::NativeFormats(_, walk) => walk.accepts(reply),
            StageView::ArbFormats(walk) => walk.accepts(reply),
            StageView::ChooseFormat(_) => reply is Chosen,
            StageView::SetFormat(_, setting) => setting.accepts(reply),
            StageView::CreateContext(_, creation) => creation.accepts(reply),
            StageView::MakeDummyCurrent => reply is Current,
            StageView::LoadExtensions => reply is Loaded,
            StageView::ReleaseDummy => reply is Done,
            StageView::SetForeground => reply is Done,
            StageView::InstallCallback => reply is Done,
            StageView::LoadLibrary => reply is Handle,
            StageView::MakeCurrent(_) => reply is Current,
            StageView::SwapInterval(_) => reply is Code,
            StageView::ReleaseCurrent(_) => reply is Done,
            StageView::Ready(_) => false,
            StageView::Failed(_) => reply is Done && self.holding != Holding::nothing(),
        }
    }

    /// Why `reply` cannot be taken in; `None` where it can.
    pub open spec fn refuses(self, reply: Reply) -> Option<Refusal> {
        if !self.expects(reply) {
            Some(Refusal::WrongReply)
        } else {
            match (self.stage, reply) {
                (StageView::RegisterClass, _) => match self.builder.monitor {
                    Some(monitor) => if can_move(self.rect, monitor.position) {
                        None
                    } else {
                        Some(Refusal::Overflow)
                    },
                    None => None,
                },
                (StageView::AdjustRect, Reply::Adjusted(rect)) => if is_measurable(rect) {
                    None
                } else {
                    Some(Refusal::Overflow)
                },
                (
                    StageView::SetFormat(role, FormatSetting::Apply { .. }),
                    Reply::Code { value, .. },
                ) => if {
                    &&& value != 0
                    &&& has_attributes(self.extensions)
                    &&& !is_supported(self.builder.gl_version)
                } {
                    Some(Refusal::UnsupportedApi)
                } else {
                    None
                },
                _ => None,
            }
        }
    }

    /// `reply` can be taken in.
    pub open spec fn accepts(self, reply: Reply) -> bool {
        self.refuses(reply) is None
    }

    /// The creation with a window whose device context is there.
    pub open spec fn with_window(self, role: Role, window: WindowWrapper) -> InitView {
        let by_driver = self.extensions matches Some(extensions)
            && extensions.get_pixel_format_attribiv_arb;
        InitView {
            holding: Holding { window: Some(window), ..self.holding },
            found: Seq::empty(),
            stage: if role == Role::Real && by_driver {
                StageView::ArbFormats(ArbEnumeration::Count { hdc: window.1 })
            } else {
                StageView::NativeFormats(role, NativeEnumeration::Count { hdc: window.1 })
            },
            ..self
        }
    }

    /// The creation with a context that is there.
    pub open spec fn with_context(self, role: Role, context: usize) -> InitView {
        InitView {
            holding: Holding { context: Some(ContextWrapper(context)), ..self.holding },
            stage: match role {
                Role::Dummy => StageView::MakeDummyCurrent,
                Role::Real => if self.builder.fullscreen() {
                    StageView::SetForeground
                } else {
                    StageView::InstallCallback
                },
            },
            ..self
        }
    }

    /// The creation behind a reply about pixel formats.
    pub open spec fn with_formats(self, role: Role, found: Seq<(PixelFormat, i32)>, stage: Option<
        StageView,
    >) -> InitView {
        InitView {
            found,
            stage: match stage {
                Some(stage) => stage,
                None => StageView::ChooseFormat(role),
            },
            ..self
        }
    }

    /// The creation behind an attempt to make the context current.
    pub open spec fn with_current(self, result: Result<(), CreationError>, stage: StageView) -> InitView {
        match result {
            Ok(_) => InitView {
                holding: Holding { current: true, ..self.holding },
                stage,
                ..self
            },
            Err(error) => self.failed(Failure::MakeCurrent(error)),
        }
    }

    /// The creation with the newest of what is held given back.
    pub open spec fn with_release(self, stage: StageView) -> InitView {
        InitView { holding: self.holding.without_newest(), stage, ..self }
    }

    /// The creation behind `reply`.
    pub open spec fn after(self, reply: Reply) -> InitView {
        match (self.stage, reply) {
            (StageView::RegisterClass, Reply::Done) => match self.builder.monitor {
                Some(monitor) => {
                    let rect = moved(self.rect, monitor.position);
                    InitView {
                        rect,
                        stage: StageView::ChangeDisplaySettings(mode_for(rect)),
                        ..self
                    }
                },
                None => self.at(StageView::AdjustRect),
            },
            (StageView::ChangeDisplaySettings(_), Reply::Code { value, .. }) => if value
                == DISP_CHANGE_SUCCESSFUL {
                self.at(StageView::AdjustRect)
            } else {
                self.failed(Failure::ChangeDisplaySettings(value))
            },
            (StageView::AdjustRect, Reply::Adjusted(rect)) => InitView {
                rect,
                stage: StageView::CreateWindow(Role::Dummy),
                ..self
            },
            (StageView::CreateWindow(role), Reply::Handle { value, os_error }) => if value == 0 {
                self.failed(Failure::CreateWindowEx(os_error))
            } else {
                self.at(StageView::GetDc(role, value))
            },
            (StageView::GetDc(role, handle), Reply::Handle { value, os_error }) => if value == 0 {
                self.failed(Failure::GetDc(os_error))
            } else {
                self.with_window(role, WindowWrapper(handle, value))
            },
            (StageView::NativeFormats(role, walk), _) => self.with_formats(
                role,
                walk.found_after(reply, self.found),
                if walk.after(reply) == NativeEnumeration::Finished {
                    None
                } else {
                    Some(StageView::NativeFormats(role, walk.after(reply)))
                },
            ),
            (StageView::ArbFormats(walk), _) => self.with_formats(
                Role::Real,
                walk.found_after(reply, self.found),
                if walk.after(reply) == ArbEnumeration::Finished {
                    None
                } else {
                    Some(StageView::ArbFormats(walk.after(reply)))
                },
            ),
            (StageView::ChooseFormat(role), Reply::Chosen { id }) => self.at(
                StageView::SetFormat(role, FormatSetting::Describe { hdc: self.hdc(), id }),
            ),
            (StageView::SetFormat(role, setting), _) => match setting.after(reply) {
                Err(failure) => self.failed(failure),
                Ok(FormatSetting::Finished) => self.at(
                    StageView::CreateContext(
                        role,
                        context_creation(
                            self.extensions,
                            self.builder.gl_version,
                            self.builder.gl_debug,
                            self.hdc(),
                            self.share_of(role),
                        ),
                    ),
                ),
                Ok(setting) => self.at(StageView::SetFormat(role, setting)),
            },
            (StageView::CreateContext(role, creation), _) => match creation.after(reply) {
                Err(failure) => self.failed(failure),
                Ok(ContextCreationView::Finished { context }) => self.with_context(role, context),
                Ok(creation) => self.at(StageView::CreateContext(role, creation)),
            },
            (StageView::MakeDummyCurrent, Reply::Current(result)) => self.with_current(
                result,
                StageView::LoadExtensions,
            ),
            (StageView::LoadExtensions, Reply::Loaded(extensions)) => InitView {
                extensions: Some(extensions),
                stage: StageView::ReleaseDummy,
                ..self
            },
            (StageView::ReleaseDummy, Reply::Done) => self.with_release(
                if self.holding.without_newest() == Holding::nothing() {
                    StageView::CreateWindow(Role::Real)
                } else {
                    StageView::ReleaseDummy
                },
            ),
            (StageView::SetForeground, Reply::Done) => self.at(StageView::InstallCallback),
            (StageView::InstallCallback, Reply::Done) => self.at(StageView::LoadLibrary),
            (StageView::LoadLibrary, Reply::Handle { value, os_error }) => if value == 0 {
                self.failed(Failure::LoadLibrary(os_error))
            } else if self.builder.vsync && self.extensions->Some_0.swap_interval_ext {
                self.at(StageView::MakeCurrent(value))
            } else {
                self.at(StageView::Ready(value))
            },
            (StageView::MakeCurrent(library), Reply::Current(result)) => self.with_current(
                result,
                StageView::SwapInterval(library),
            ),
            (StageView::SwapInterval(library), Reply::Code { value, .. }) => if value == 0 {
                self.failed(Failure::SwapInterval)
            } else {
                self.at(StageView::ReleaseCurrent(library))
            },
            (StageView::ReleaseCurrent(library), Reply::Done) => self.with_release(
                StageView::Ready(library),
            ),
            (StageView::Failed(failure), Reply::Done) => self.with_release(
                StageView::Failed(failure),
            ),
            _ => self,
        }
    }

    /// The window that came out.
    pub open spec fn window(self) -> Window
        recommends
            self.stage is Ready,
    {
        Window {
            window: self.holding.window->Some_0,
            context: self.holding.context->Some_0,
            gl_library: self.stage->Ready_0,
            is_closed: false,
        }
    }

    /// The creation stays well-formed.
    pub proof fn lemma_after_is_wf(self, reply: Reply)
        requires
            self.wf(),
            self.accepts(reply),
        ensures
            self.after(reply).wf(),
    {
    }
}

/// Begins to create a window.
///
/// `title` is zero-terminated.
pub fn init(title: Vec<u16>, builder: BuilderAttribs, builder_sharelists: Option<ContextHack>) -> (init:
    Init)
    ensures
        init@ == InitView::start(title@, builder@, builder_sharelists),
        init@.wf(),
{
    let rect = initial_rect(builder.dimensions);
    let init = Init {
        title,
        builder,
        share: builder_sharelists,
        rect,
        extensions: None,
        holding: Holding { window: None, context: None, current: false },
        found: Vec::new(),
        stage: Stage::RegisterClass,
    };
    assert(init@.found =~= Seq::empty());
    init
}

impl Init {
    /// The call to be made next.
    pub fn action(&self) -> (action: Action)
        requires
            self@.wf(),
        ensures
            action@ == self@.call(),
    {
        match &self.stage {
            Stage::RegisterClass => Action::RegisterClass(register_window_class()),
            Stage::ChangeDisplaySettings(settings) => {
                let adapter_name = match &self.builder.monitor {
                    Some(monitor) => {
                        let name = monitor.adapter_name.clone();
                        assert(name@ =~= monitor.adapter_name@);
                        name
                    },
                    None => Vec::new(),
                };
                Action::ChangeDisplaySettings {
                    adapter_name,
                    settings: *settings,
                    flags: CDS_FULLSCREEN,
                }
            },
            Stage::AdjustRect => {
                let (ex_style, style): (u32, u32) = window_styles(self.builder.monitor.is_some());
                Action::AdjustWindowRect { rect: self.rect, style, menu: 0, ex_style }
            },
            Stage::CreateWindow(role) => self.window_creation(*role),
            Stage::GetDc(_, handle) => Action::GetDc { window: *handle },
            Stage::NativeFormats(_, walk) => walk.action(),
            Stage::ArbFormats(walk) => walk.action(),
            Stage::ChooseFormat(_) => Action::ChoosePixelFormat {
                candidates: numbered_formats(&self.found),
            },
            Stage::SetFormat(_, setting) => setting.action(),
            Stage::CreateContext(_, creation) => creation.action(),
            Stage::MakeDummyCurrent => self.context_activation(),
            Stage::LoadExtensions => Action::LoadExtensions,
            Stage::ReleaseDummy => self.release(),
            Stage::SetForeground => Action::SetForegroundWindow { window: self.held_window().0 },
            Stage::InstallCallback => Action::InstallCallback { window: self.held_window().0 },
            Stage::LoadLibrary => Action::LoadLibrary { name: load_opengl32_dll() },
            Stage::MakeCurrent(_) => self.context_activation(),
            Stage::SwapInterval(_) => Action::SwapInterval { interval: 1 },
            Stage::ReleaseCurrent(_) => self.release(),
            Stage::Ready(_) => Action::Finish,
            Stage::Failed(_) => self.release(),
        }
    }

    fn window_creation(&self, role: Role) -> (action: Action)
        requires
            self@.wf(),
            self@.stage == StageView::CreateWindow(role),
        ensures
            action@ == self@.call(),
    {
        let fullscreen = self.builder.monitor.is_some();
        let (ex_style, _): (u32, u32) = window_styles(fullscreen);
        let title = self.title.clone();
        assert(title@ =~= self.title@);
        let (shown, placement) = match role {
            Role::Dummy => (false, dummy_placement(self.rect)),
            Role::Real => (
                self.builder.visible && !self.builder.headless,
                real_placement(self.rect, fullscreen, self.builder.dimensions.is_some()),
            ),
        };
        Action::CreateWindow {
            ex_style,
            class_name: register_window_class().class_name,
            title,
            style: window_creation_style(fullscreen, shown),
            placement,
        }
    }

    fn held_window(&self) -> (window: WindowWrapper)
        requires
            self@.holding.window is Some,
        ensures
            Some(window) == self@.holding.window,
    {
        self.holding.window.unwrap()
    }

    fn held_context(&self) -> (context: ContextWrapper)
        requires
            self@.holding.context is Some,
        ensures
            Some(context) == self@.holding.context,
    {
        self.holding.context.unwrap()
    }

    fn context_activation(&self) -> (action: Action)
        requires
            self@.wf(),
            self@.holding.context is Some,
        ensures
            action@ == self@.make_current(),
    {
        Action::MakeCurrent { window: self.held_window(), context: self.held_context() }
    }

    fn release(&self) -> (action: Action)
        requires
            self@.holding.wf(),
        ensures
            action@ == if self@.holding == Holding::nothing() {
                ActionView::Finish
            } else {
                ActionView::Release(self@.holding.resources().last())
            },
    {
        match self.holding.newest() {
            Some(resource) => Action::Release(resource),
            None => Action::Finish,
        }
    }

    /// Whether the window is made, or will never be.
    pub fn finished(&self) -> (yes: bool)
        requires
            self@.wf(),
        ensures
            yes == self@.is_finished(),
    {
        match &self.stage {
            Stage::Ready(_) => true,
            Stage::Failed(_) => self.holding.window.is_none(),
            _ => false,
        }
    }

    fn expected(&self, reply: &Reply) -> (yes: bool)
        requires
            self@.wf(),
        ensures
            yes == self@.expects(*reply),
    {
        match &self.stage {
            Stage::RegisterClass => matches!(reply, Reply::Done),
            Stage::ChangeDisplaySettings(_) => matches!(reply, Reply::Code { .. }),
            Stage::AdjustRect => matches!(reply, Reply::Adjusted(_)),
            Stage::CreateWindow(_) => matches!(reply, Reply::Handle { .. }),
            Stage::GetDc(_, _) => matches!(reply, Reply::Handle { .. }),
            Stage::NativeFormats(_, NativeEnumeration::Count { .. }) => matches!(
                reply,
                Reply::Code { .. }
            ),
            Stage::NativeFormats(_, _) => matches!(reply, Reply::Described { .. }),
            Stage::ArbFormats(_) => matches!(reply, Reply::Attribute { .. }),
            Stage::ChooseFormat(_) => matches!(reply, Reply::Chosen { .. }),
            Stage::SetFormat(_, FormatSetting::Describe { .. }) => matches!(
                reply,
                Reply::Described { .. }
            ),
            Stage::SetFormat(_, _) => matches!(reply, Reply::Code { .. }),
            Stage::CreateContext(_, ContextCreation::Share { .. }) => matches!(reply, Reply::Done),
            Stage::CreateContext(_, _) => matches!(reply, Reply::Handle { .. }),
            Stage::MakeDummyCurrent => matches!(reply, Reply::Current(_)),
            Stage::LoadExtensions => matches!(reply, Reply::Loaded(_)),
            Stage::ReleaseDummy => matches!(reply, Reply::Done),
            Stage::SetForeground => matches!(reply, Reply::Done),
            Stage::InstallCallback => matches!(reply, Reply::Done),
            Stage::LoadLibrary => matches!(reply, Reply::Handle { .. }),
            Stage::MakeCurrent(_) => matches!(reply, Reply::Current(_)),
            Stage::SwapInterval(_) => matches!(reply, Reply::Code { .. }),
            Stage::ReleaseCurrent(_) => matches!(reply, Reply::Done),
            Stage::Ready(_) => false,
            Stage::Failed(_) => matches!(reply, Reply::Done) && self.holding.window.is_some(),
        }
    }

    /// Why `reply` cannot be taken in; `None` where it can.
    pub fn refusal(&self, reply: &Reply) -> (refusal: Option<Refusal>)
        requires
            self@.wf(),
        ensures
            refusal == self@.refuses(*reply),
    {
        if !self.expected(reply) {
            return Some(Refusal::WrongReply);
        }
        match (&self.stage, reply) {
            (Stage::RegisterClass, _) => {
                if let Some(monitor) = &self.builder.monitor {
                    if !movable(self.rect, monitor.position) {
                        return Some(Refusal::Overflow);
                    }
                }
                None
            },
            (Stage::AdjustRect, Reply::Adjusted(rect)) => {
                if !measurable(*rect) {
                    return Some(Refusal::Overflow);
                }
                None
            },
            (Stage::SetFormat(_, FormatSetting::Apply { .. }), Reply::Code { value, .. }) => {
                if let Some(extensions) = self.extensions {
                    if *value != 0 && extensions.create_context_attribs_arb && !supported(
                        self.builder.gl_version,
                    ) {
                        return Some(Refusal::UnsupportedApi);
                    }
                }
                None
            },
            _ => None,
        }
    }

    /// Takes in the reply to the call.
    pub fn step(&mut self, reply: Reply)
        requires
            old(self)@.wf(),
            old(self)@.accepts(reply),
        ensures
            final(self)@ == old(self)@.after(reply),
            final(self)@.wf(),
    {
        proof {
            self@.lemma_after_is_wf(reply);
        }
        let mut stage = Stage::AdjustRect;
        std::mem::swap(&mut stage, &mut self.stage);
        match (stage, reply) {
            (Stage::RegisterClass, Reply::Done) => {
                self.stage = match &self.builder.monitor {
                    Some(monitor) => Stage::ChangeDisplaySettings(
                        switch_to_fullscreen(&mut self.rect, monitor),
                    ),
                    None => Stage::AdjustRect,
                };
            },
            (Stage::ChangeDisplaySettings(_), Reply::Code { value, .. }) => {
                self.stage = match display_change(value) {
                    Ok(_) => Stage::AdjustRect,
                    Err(failure) => Stage::Failed(failure),
                };
            },
            (Stage::AdjustRect, Reply::Adjusted(rect)) => {
                self.rect = rect;
                self.stage = Stage::CreateWindow(Role::Dummy);
            },
            (Stage::CreateWindow(role), Reply::Handle { value, os_error }) => {
                self.stage = if value == 0 {
                    Stage::Failed(Failure::CreateWindowEx(os_error))
                } else {
                    Stage::GetDc(role, value)
                };
            },
            (Stage::GetDc(role, handle), Reply::Handle { value, os_error }) => {
                if value == 0 {
                    self.stage = Stage::Failed(Failure::GetDc(os_error));
                } else {
                    self.keep_window(role, WindowWrapper(handle, value));
                }
            },
            (Stage::NativeFormats(role, walk), reply) => {
                self.stage = match walk.step(&reply, &mut self.found) {
                    NativeEnumeration::Finished => Stage::ChooseFormat(role),
                    walk => Stage::NativeFormats(role, walk),
                };
            },
            (Stage::ArbFormats(walk), reply) => {
                self.stage = match walk.step(&reply, &mut self.found) {
                    ArbEnumeration::Finished => Stage::ChooseFormat(Role::Real),
                    walk => Stage::ArbFormats(walk),
                };
            },
            (Stage::ChooseFormat(role), Reply::Chosen { id }) => {
                let window = self.held_window();
                self.stage = Stage::SetFormat(role, set_pixel_format(&window, id));
            },
            (Stage::SetFormat(role, setting), reply) => {
                self.stage = match setting.step(reply) {
                    Ok(FormatSetting::Finished) => {
                        let window = self.held_window();
                        let share = match role {
                            Role::Dummy => None,
                            Role::Real => self.share,
                        };
                        Stage::CreateContext(
                            role,
                            create_context(
                                self.extensions,
                                self.builder.gl_version,
                                self.builder.gl_debug,
                                &window,
                                share,
                            ),
                        )
                    },
                    Ok(setting) => Stage::SetFormat(role, setting),
                    Err(failure) => Stage::Failed(failure),
                };
            },
            (Stage::CreateContext(role, creation), reply) => {
                match creation.step(reply) {
                    Ok(ContextCreation::Finished { context }) => {
                        self.keep_context(role, context);
                    },
                    Ok(creation) => {
                        self.stage = Stage::CreateContext(role, creation);
                    },
                    Err(failure) => {
                        self.stage = Stage::Failed(failure);
                    },
                }
            },
            (Stage::MakeDummyCurrent, Reply::Current(result)) => {
                self.keep_current(result, Stage::LoadExtensions);
            },
            (Stage::LoadExtensions, Reply::Loaded(extensions)) => {
                self.extensions = Some(extensions);
                self.stage = Stage::ReleaseDummy;
            },
            (Stage::ReleaseDummy, _) => {
                self.holding.give_back();
                self.stage = if self.holding.window.is_none() {
                    Stage::CreateWindow(Role::Real)
                } else {
                    Stage::ReleaseDummy
                };
            },
            (Stage::SetForeground, _) => {
                self.stage = Stage::InstallCallback;
            },
            (Stage::InstallCallback, _) => {
                self.stage = Stage::LoadLibrary;
            },
            (Stage::LoadLibrary, Reply::Handle { value, os_error }) => {
                self.stage = if value == 0 {
                    Stage::Failed(Failure::LoadLibrary(os_error))
                } else if self.builder.vsync && self.can_swap_interval() {
                    Stage::MakeCurrent(value)
                } else {
                    Stage::Ready(value)
                };
            },
            (Stage::MakeCurrent(library), Reply::Current(result)) => {
                self.keep_current(result, Stage::SwapInterval(library));
            },
            (Stage::SwapInterval(library), Reply::Code { value, .. }) => {
                self.stage = if value == 0 {
                    Stage::Failed(Failure::SwapInterval)
                } else {
                    Stage::ReleaseCurrent(library)
                };
            },
            (Stage::ReleaseCurrent(library), _) => {
                self.holding.give_back();
                self.stage = Stage::Ready(library);
            },
            (Stage::Failed(failure), _) => {
                self.holding.give_back();
                self.stage = Stage::Failed(failure);
            },
            (stage, _) => {
                self.stage = stage;
            },
        }
    }

    fn can_swap_interval(&self) -> (yes: bool)
        requires
            self@.extensions is Some,
        ensures
            yes == self@.extensions->Some_0.swap_interval_ext,
    {
        self.extensions.unwrap().swap_interval_ext
    }

    fn keep_window(&mut self, role: Role, window: WindowWrapper)
        ensures
            final(self)@ == old(self)@.with_window(role, window),
    {
        self.holding.window = Some(window);
        self.found = Vec::new();
        let by_driver = match self.extensions {
            Some(extensions) => extensions.get_pixel_format_attribiv_arb,
            None => false,
        };
        self.stage = match role {
            Role::Real if by_driver => Stage::ArbFormats(enumerate_arb_pixel_formats(&window)),
            _ => Stage::NativeFormats(role, enumerate_native_pixel_formats(&window)),
        };
        assert(self@.found =~= Seq::empty());
    }

    fn keep_context(&mut self, role: Role, context: usize)
        ensures
            final(self)@ == old(self)@.with_context(role, context),
    {
        self.holding.context = Some(ContextWrapper(context));
        self.stage = match role {
            Role::Dummy => Stage::MakeDummyCurrent,
            Role::Real => if self.builder.monitor.is_some() {
                Stage::SetForeground
            } else {
                Stage::InstallCallback
            },
        };
    }

    fn keep_current(&mut self, result: Result<(), CreationError>, stage: Stage)
        ensures
            final(self)@ == old(self)@.with_current(result, stage@),
    {
        match result {
            Ok(_) => {
                self.holding.current = true;
                self.stage = stage;
            },
            Err(error) => {
                self.stage = Stage::Failed(Failure::MakeCurrent(error));
            },
        }
    }

    /// The window, or the error that says why there is none.
    pub fn outcome(self) -> (outcome: Result<Window, CreationError>)
        requires
            self@.wf(),
            self@.is_finished(),
        ensures
            self@.stage is Ready ==> outcome == Ok::<Window, CreationError>(self@.window()),
            self@.stage matches StageView::Failed(failure) ==> {
                &&& outcome matches Err(error)
                &&& error@ == failure.message()
            },
    {
        let window = self.holding.window;
        let context = self.holding.context;
        match self.stage {
            Stage::Failed(failure) => Err(failure.into_error()),
            Stage::Ready(gl_library) => Ok(
                Window {
                    window: window.unwrap(),
                    context: context.unwrap(),
                    gl_library,
                    is_closed: false,
                },
            ),
            _ => vstd::pervasive::unreached(),
        }
    }
}

} // verus!
