//! The conversation between window creation and the system: the calls that it asks for and
//! the replies that it is given.
//!
//! Handles are plain numbers; zero is the null handle.

use vstd::prelude::*;

use crate::types::ContextWrapper;
use crate::types::CreationError;
use crate::types::Extensions;
use crate::types::PixelFormat;
use crate::types::PixelFormatDescriptor;
use crate::types::Rect;
use crate::types::WindowWrapper;

verus! {

/// A window class to be registered.
#[derive(Debug, PartialEq, Eq)]
pub struct WindowClass {
    pub style: u32,
    pub cls_extra: i32,
    pub wnd_extra: i32,
    /// Zero-terminated.
    pub class_name: Vec<u16>,
}

/// The part of a display mode that is to be set.
#[derive(Clone, Copy, Debug, PartialEq, Eq, Structural)]
pub struct DisplaySettings {
    pub pels_width: u32,
    pub pels_height: u32,
    pub bits_per_pel: u32,
    /// Which of the above count.
    pub fields: u32,
}

/// Where a window goes and how large it is.
#[derive(Clone, Copy, Debug, PartialEq, Eq, Structural)]
pub struct Placement {
    pub x: i32,
    pub y: i32,
    pub width: i32,
    pub height: i32,
}

/// Something that has to be given back.
#[derive(Clone, Copy, Debug, PartialEq, Eq, Structural)]
pub enum Resource {
    /// A window, to be destroyed.
    Window(WindowWrapper),
    /// A context, to be deleted.
    Context(ContextWrapper),
    /// A context that was made current, to be made not current again.
    Current(WindowWrapper, ContextWrapper),
}

/// A call to be made.
#[derive(Debug, PartialEq, Eq)]
pub enum Action {
    /// `RegisterClassExW`.
    RegisterClass(WindowClass),
    /// `ChangeDisplaySettingsExW` on one adapter.
    ChangeDisplaySettings { adapter_name: Vec<u16>, settings: DisplaySettings, flags: u32 },
    /// `AdjustWindowRectEx`; `menu` says whether the window has a menu.
    AdjustWindowRect { rect: Rect, style: u32, menu: i32, ex_style: u32 },
    /// `CreateWindowExW`.
    CreateWindow {
        ex_style: u32,
        class_name: Vec<u16>,
        title: Vec<u16>,
        style: u32,
        placement: Placement,
    },
    /// `GetDC`.
    GetDc { window: usize },
    /// `DescribePixelFormat` with nowhere to put the description: tells how many formats
    /// there are.
    CountPixelFormats { hdc: usize, index: i32 },
    /// `DescribePixelFormat` on one of the formats.
    DescribeCandidate { hdc: usize, index: i32 },
    /// `wglGetPixelFormatAttribivARB` on one attribute of one format.
    QueryAttribute { hdc: usize, index: i32, layer: i32, attribute: i32 },
    /// The choice among the formats that were found.
    ChoosePixelFormat { candidates: Vec<(i32, PixelFormat)> },
    /// `DescribePixelFormat` on the format that was chosen.
    DescribeChosen { hdc: usize, id: i32 },
    /// `SetPixelFormat`.
    SetPixelFormat { hdc: usize, id: i32, descriptor: PixelFormatDescriptor },
    /// `wglCreateContextAttribsARB`.
    CreateContextAttribs { hdc: usize, share: usize, attributes: Vec<i32> },
    /// `wglCreateContext`.
    CreateContext { hdc: usize },
    /// `wglShareLists`.
    ShareLists { share: usize, context: usize },
    /// `wglMakeCurrent`, until the matching `Release`.
    MakeCurrent { window: WindowWrapper, context: ContextWrapper },
    /// The lookup of the driver's extra functions in the current context.
    LoadExtensions,
    /// `SetForegroundWindow`.
    SetForegroundWindow { window: usize },
    /// From now on the events of `window` go to the receiver that the caller will get.
    InstallCallback { window: usize },
    /// `LoadLibraryW`.
    LoadLibrary { name: Vec<u16> },
    /// `wglSwapIntervalEXT`.
    SwapInterval { interval: i32 },
    /// The end of a resource.
    Release(Resource),
    /// There is nothing left to do.
    Finish,
}

/// The content of an [`Action`].
pub enum ActionView {
    RegisterClass { style: u32, cls_extra: i32, wnd_extra: i32, class_name: Seq<u16> },
    ChangeDisplaySettings { adapter_name: Seq<u16>, settings: DisplaySettings, flags: u32 },
    AdjustWindowRect { rect: Rect, style: u32, menu: i32, ex_style: u32 },
    CreateWindow {
        ex_style: u32,
        class_name: Seq<u16>,
        title: Seq<u16>,
        style: u32,
        placement: Placement,
    },
    GetDc { window: usize },
    CountPixelFormats { hdc: usize, index: i32 },
    DescribeCandidate { hdc: usize, index: i32 },
    QueryAttribute { hdc: usize, index: i32, layer: i32, attribute: i32 },
    ChoosePixelFormat { candidates: Seq<(i32, PixelFormat)> },
    DescribeChosen { hdc: usize, id: i32 },
    SetPixelFormat { hdc: usize, id: i32, descriptor: PixelFormatDescriptor },
    CreateContextAttribs { hdc: usize, share: usize, attributes: Seq<i32> },
    CreateContext { hdc: usize },
    ShareLists { share: usize, context: usize },
    MakeCurrent { window: WindowWrapper, context: ContextWrapper },
    LoadExtensions,
    SetForegroundWindow { window: usize },
    InstallCallback { window: usize },
    LoadLibrary { name: Seq<u16> },
    SwapInterval { interval: i32 },
    Release(Resource),
    Finish,
}

impl View for Action {
    type V = ActionView;

    open spec fn view(&self) -> ActionView {
        match *self {
            Action::RegisterClass(class) => ActionView::RegisterClass {
                style: class.style,
                cls_extra: class.cls_extra,
                wnd_extra: class.wnd_extra,
                class_name: class.class_name@,
            },
            Action::ChangeDisplaySettings {
                adapter_name,
                settings,
                flags,
            } => ActionView::ChangeDisplaySettings { adapter_name: adapter_name@, settings, flags },
            Action::AdjustWindowRect {
                rect,
                style,
                menu,
                ex_style,
            } => ActionView::AdjustWindowRect { rect, style, menu, ex_style },
            Action::CreateWindow {
                ex_style,
                class_name,
                title,
                style,
                placement,
            } => ActionView::CreateWindow {
                ex_style,
                class_name: class_name@,
                title: title@,
                style,
                placement,
            },
            Action::GetDc { window } => ActionView::GetDc { window },
            Action::CountPixelFormats { hdc, index } => ActionView::CountPixelFormats {
                hdc,
                index,
            },
            Action::DescribeCandidate { hdc, index } => ActionView::DescribeCandidate {
                hdc,
                index,
            },
            Action::QueryAttribute { hdc, index, layer, attribute } => ActionView::QueryAttribute {
                hdc,
                index,
                layer,
                attribute,
            },
            Action::ChoosePixelFormat { candidates } => ActionView::ChoosePixelFormat {
                candidates: candidates@,
            },
            Action::DescribeChosen { hdc, id } => ActionView::DescribeChosen { hdc, id },
            Action::SetPixelFormat { hdc, id, descriptor } => ActionView::SetPixelFormat {
                hdc,
                id,
                descriptor,
            },
            Action::CreateContextAttribs {
                hdc,
                share,
                attributes,
            } => ActionView::CreateContextAttribs { hdc, share, attributes: attributes@ },
            Action::CreateContext { hdc } => ActionView::CreateContext { hdc },
            Action::ShareLists { share, context } => ActionView::ShareLists { share, context },
            Action::MakeCurrent { window, context } => ActionView::MakeCurrent { window, context },
            Action::LoadExtensions => ActionView::LoadExtensions,
            Action::SetForegroundWindow { window } => ActionView::SetForegroundWindow { window },
            Action::InstallCallback { window } => ActionView::InstallCallback { window },
            Action::LoadLibrary { name } => ActionView::LoadLibrary { name: name@ },
            Action::SwapInterval { interval } => ActionView::SwapInterval { interval },
            Action::Release(resource) => ActionView::Release(resource),
            Action::Finish => ActionView::Finish,
        }
    }
}

/// What a call gave back.
///
/// `os_error` is the system's text for its last error, read right behind the call. It counts
/// only where the call failed.
#[derive(Debug, PartialEq, Eq)]
pub enum Reply {
    /// The call was made; whatever it returned is ignored.
    Done,
    /// A number.
    Code { value: i32, os_error: String },
    /// A handle.
    Handle { value: usize, os_error: String },
    /// The rectangle as the call left it.
    Adjusted(Rect),
    /// A number, and the description that was filled in.
    Described { value: i32, descriptor: PixelFormatDescriptor, os_error: String },
    /// The value of an attribute.
    Attribute { value: i32 },
    /// The number of the format that was chosen.
    Chosen { id: i32 },
    /// Whether the context is current now.
    Current(Result<(), CreationError>),
    /// The extra functions that were found.
    Loaded(Extensions),
}

/// A call is read as it stands: it is of the same kind, and has the same arguments in the same
/// places.
pub proof fn law_calls_are_read_as_they_stand(action: Action)
    ensures
        match (action, action@) {
            (
                Action::RegisterClass(class),
                ActionView::RegisterClass { style, cls_extra, wnd_extra, class_name },
            ) => {
                &&& style == class.style
                &&& cls_extra == class.cls_extra
                &&& wnd_extra == class.wnd_extra
                &&& class_name == class.class_name@
            },
            (
                Action::ChangeDisplaySettings { adapter_name, settings, flags },
                ActionView::ChangeDisplaySettings { adapter_name: name, settings: set, flags: f },
            ) => name == adapter_name@ && set == settings && f == flags,
            (
                Action::AdjustWindowRect { rect, style, menu, ex_style },
                ActionView::AdjustWindowRect { rect: r, style: s, menu: m, ex_style: e },
            ) => r == rect && s == style && m == menu && e == ex_style,
            (
                Action::CreateWindow { ex_style, class_name, title, style, placement },
                ActionView::CreateWindow {
                    ex_style: e,
                    class_name: c,
                    title: t,
                    style: s,
                    placement: p,
                },
            ) => e == ex_style && c == class_name@ && t == title@ && s == style && p == placement,
            (Action::GetDc { window }, ActionView::GetDc { window: w }) => w == window,
            (
                Action::CountPixelFormats { hdc, index },
                ActionView::CountPixelFormats { hdc: h, index: i },
            ) => h == hdc && i == index,
            (
                Action::DescribeCandidate { hdc, index },
                ActionView::DescribeCandidate { hdc: h, index: i },
            ) => h == hdc && i == index,
            (
                Action::QueryAttribute { hdc, index, layer, attribute },
                ActionView::QueryAttribute { hdc: h, index: i, layer: l, attribute: a },
            ) => h == hdc && i == index && l == layer && a == attribute,
            (
                Action::ChoosePixelFormat { candidates },
                ActionView::ChoosePixelFormat { candidates: c },
            ) => c == candidates@,
            (
                Action::DescribeChosen { hdc, id },
                ActionView::DescribeChosen { hdc: h, id: i },
            ) => h == hdc && i == id,
            (
                Action::SetPixelFormat { hdc, id, descriptor },
                ActionView::SetPixelFormat { hdc: h, id: i, descriptor: d },
            ) => h == hdc && i == id && d == descriptor,
            (
                Action::CreateContextAttribs { hdc, share, attributes },
                ActionView::CreateContextAttribs { hdc: h, share: s, attributes: a },
            ) => h == hdc && s == share && a == attributes@,
            (Action::CreateContext { hdc }, ActionView::CreateContext { hdc: h }) => h == hdc,
            (
                Action::ShareLists { share, context },
                ActionView::ShareLists { share: s, context: c },
            ) => s == share && c == context,
            (
                Action::MakeCurrent { window, context },
                ActionView::MakeCurrent { window: w, context: c },
            ) => w == window && c == context,
            (Action::LoadExtensions, ActionView::LoadExtensions) => true,
            (
                Action::SetForegroundWindow { window },
                ActionView::SetForegroundWindow { window: w },
            ) => w == window,
            (
                Action::InstallCallback { window },
                ActionView::InstallCallback { window: w },
            ) => w == window,
            (Action::LoadLibrary { name }, ActionView::LoadLibrary { name: n }) => n == name@,
            (
                Action::SwapInterval { interval },
                ActionView::SwapInterval { interval: i },
            ) => i == interval,
            (Action::Release(resource), ActionView::Release(r)) => r == resource,
            (Action::Finish, ActionView::Finish) => true,
            _ => false,
        },
{
}

} // verus!
