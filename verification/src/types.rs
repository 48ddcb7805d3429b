//! What a caller asks for, what comes out, and the plain values in between.

use vstd::prelude::*;

use crate::text::signed_decimal;
use crate::text::signed_decimal_string;

verus! {

/// The rendering interfaces that a context can be asked for.
#[derive(Clone, Copy, Debug, PartialEq, Eq, Structural)]
pub enum Api {
    OpenGl,
    OpenGlEs,
}

/// Which interface, and which version of it, a context is to have.
#[derive(Clone, Copy, Debug, PartialEq, Eq)]
pub enum GlRequest {
    /// The newest version that the driver offers.
    Latest,
    /// One version of one interface.
    Specific(Api, (u8, u8)),
    /// OpenGL where there is OpenGL, OpenGL ES elsewhere.
    GlThenGles { opengl_version: (u8, u8), opengles_version: (u8, u8) },
}

/// A monitor that a window can cover.
#[derive(Debug, PartialEq, Eq)]
pub struct MonitorID {
    /// Where the top left corner of the monitor lies on the desktop, in pixels.
    pub position: (u32, u32),
    /// The zero-terminated name of the adapter that drives the monitor.
    pub adapter_name: Vec<u16>,
}

/// What a window is to be like.
#[derive(Debug, PartialEq, Eq)]
pub struct BuilderAttribs {
    pub title: String,
    pub dimensions: Option<(u32, u32)>,
    /// The monitor to cover; a window on the desktop where there is none.
    pub monitor: Option<MonitorID>,
    pub visible: bool,
    pub headless: bool,
    pub gl_version: GlRequest,
    pub gl_debug: bool,
    pub vsync: bool,
}

/// The content of a [`MonitorID`].
pub struct MonitorView {
    pub position: (u32, u32),
    pub adapter_name: Seq<u16>,
}

impl View for MonitorID {
    type V = MonitorView;

    open spec fn view(&self) -> MonitorView {
        MonitorView { position: self.position, adapter_name: self.adapter_name@ }
    }
}

/// The content of a [`BuilderAttribs`].
pub struct BuilderView {
    pub title: Seq<char>,
    pub dimensions: Option<(u32, u32)>,
    pub monitor: Option<MonitorView>,
    pub visible: bool,
    pub headless: bool,
    pub gl_version: GlRequest,
    pub gl_debug: bool,
    pub vsync: bool,
}

impl View for BuilderAttribs {
    type V = BuilderView;

    open spec fn view(&self) -> BuilderView {
        BuilderView {
            title: self.title@,
            dimensions: self.dimensions,
            monitor: match self.monitor {
                Some(monitor) => Some(monitor@),
                None => None,
            },
            visible: self.visible,
            headless: self.headless,
            gl_version: self.gl_version,
            gl_debug: self.gl_debug,
            vsync: self.vsync,
        }
    }
}

impl BuilderView {
    /// The window is to cover a monitor.
    pub open spec fn fullscreen(self) -> bool {
        self.monitor is Some
    }

    /// The window is to be seen from the start.
    pub open spec fn shown(self) -> bool {
        self.visible && !self.headless
    }
}

/// A rendering context that another thread shares its objects with.
#[derive(Clone, Copy, Debug, PartialEq, Eq, Structural)]
pub struct ContextHack(pub usize);

/// A window and its device context.
#[derive(Clone, Copy, Debug, PartialEq, Eq, Structural)]
pub struct WindowWrapper(pub usize, pub usize);

/// A rendering context.
#[derive(Clone, Copy, Debug, PartialEq, Eq, Structural)]
pub struct ContextWrapper(pub usize);

/// A window that is ready for use.
#[derive(Clone, Copy, Debug, PartialEq, Eq, Structural)]
pub struct Window {
    pub window: WindowWrapper,
    pub context: ContextWrapper,
    pub gl_library: usize,
    pub is_closed: bool,
}

/// What a pixel of a window consists of.
#[derive(Clone, Copy, Debug, PartialEq, Eq)]
pub struct PixelFormat {
    pub hardware_accelerated: bool,
    pub red_bits: u8,
    pub green_bits: u8,
    pub blue_bits: u8,
    pub alpha_bits: u8,
    pub depth_bits: u8,
    pub stencil_bits: u8,
    pub stereoscopy: bool,
    pub double_buffer: bool,
    pub multisampling: Option<u16>,
    pub srgb: bool,
}

/// The system's own description of a pixel format, field by field.
#[derive(Clone, Copy, Debug, PartialEq, Eq)]
pub struct PixelFormatDescriptor {
    pub size: u16,
    pub version: u16,
    pub flags: u32,
    pub pixel_type: u8,
    pub color_bits: u8,
    pub red_bits: u8,
    pub red_shift: u8,
    pub green_bits: u8,
    pub green_shift: u8,
    pub blue_bits: u8,
    pub blue_shift: u8,
    pub alpha_bits: u8,
    pub alpha_shift: u8,
    pub accum_bits: u8,
    pub accum_red_bits: u8,
    pub accum_green_bits: u8,
    pub accum_blue_bits: u8,
    pub accum_alpha_bits: u8,
    pub depth_bits: u8,
    pub stencil_bits: u8,
    pub aux_buffers: u8,
    pub layer_type: u8,
    pub reserved: u8,
    pub layer_mask: u32,
    pub visible_mask: u32,
    pub damage_mask: u32,
}

/// A rectangle on the desktop.
#[derive(Clone, Copy, Debug, PartialEq, Eq, Structural)]
pub struct Rect {
    pub left: i32,
    pub top: i32,
    pub right: i32,
    pub bottom: i32,
}

/// Which of the driver's extra functions were found.
#[derive(Clone, Copy, Debug, PartialEq, Eq, Structural)]
pub struct Extensions {
    pub get_pixel_format_attribiv_arb: bool,
    pub create_context_attribs_arb: bool,
    pub swap_interval_ext: bool,
}

/// Why there is no window.
#[derive(Debug, PartialEq, Eq)]
pub enum CreationError {
    /// A call into the system or the driver failed; the text says which and why.
    OsError(String),
}

impl View for CreationError {
    type V = Seq<char>;

    open spec fn view(&self) -> Seq<char> {
        match *self {
            CreationError::OsError(message) => message@,
        }
    }
}

/// The call that failed, with what it left behind.
#[derive(Debug, PartialEq, Eq)]
pub enum Failure {
    ChangeDisplaySettings(i32),
    CreateWindowEx(String),
    GetDc(String),
    DescribePixelFormat(String),
    SetPixelFormat(String),
    CreateContext(String),
    MakeCurrent(CreationError),
    LoadLibrary(String),
    SwapInterval,
}

impl Failure {
    /// The text that reports the failure.
    pub open spec fn message(self) -> Seq<char> {
        match self {
            Failure::ChangeDisplaySettings(code) => "ChangeDisplaySettings failed: "@
                + signed_decimal(code as int),
            Failure::CreateWindowEx(os) => "CreateWindowEx function failed: "@ + os@,
            Failure::GetDc(os) => "GetDC function failed: "@ + os@,
            Failure::DescribePixelFormat(os) => "DescribePixelFormat function failed: "@ + os@,
            Failure::SetPixelFormat(os) => "SetPixelFormat function failed: "@ + os@,
            Failure::CreateContext(os) => "OpenGL context creation failed: "@ + os@,
            Failure::MakeCurrent(error) => error@,
            Failure::LoadLibrary(os) => "LoadLibrary function failed: "@ + os@,
            Failure::SwapInterval => "wglSwapIntervalEXT failed"@,
        }
    }

    /// The error that reports the failure.
    pub fn into_error(self) -> (error: CreationError)
        ensures
            error@ == self.message(),
            self matches Failure::MakeCurrent(inner) ==> error == inner,
    {
        match self {
            Failure::ChangeDisplaySettings(code) => {
                let detail = signed_decimal_string(code);
                os_error("ChangeDisplaySettings failed: ", detail.as_str())
            },
            Failure::CreateWindowEx(os) => os_error("CreateWindowEx function failed: ", os.as_str()),
            Failure::GetDc(os) => os_error("GetDC function failed: ", os.as_str()),
            Failure::DescribePixelFormat(os) => os_error(
                "DescribePixelFormat function failed: ",
                os.as_str(),
            ),
            Failure::SetPixelFormat(os) => os_error("SetPixelFormat function failed: ", os.as_str()),
            Failure::CreateContext(os) => os_error("OpenGL context creation failed: ", os.as_str()),
            Failure::MakeCurrent(error) => error,
            Failure::LoadLibrary(os) => os_error("LoadLibrary function failed: ", os.as_str()),
            Failure::SwapInterval => CreationError::OsError(
                String::from_str("wglSwapIntervalEXT failed"),
            ),
        }
    }
}

fn os_error(what: &str, why: &str) -> (error: CreationError)
    ensures
        error@ == what@ + why@,
{
    let mut message = String::from_str(what);
    message.append(why);
    CreationError::OsError(message)
}

/// A request is read as it stands.
pub proof fn law_request_is_read_as_it_stands(builder: BuilderAttribs)
    ensures
        builder@.title == builder.title@,
        builder@.dimensions == builder.dimensions,
        builder.monitor is None ==> builder@.monitor is None,
        builder.monitor matches Some(monitor) ==> {
            &&& builder@.monitor matches Some(view)
            &&& view.position == monitor.position
            &&& view.adapter_name == monitor.adapter_name@
        },
        builder@.visible == builder.visible,
        builder@.headless == builder.headless,
        builder@.gl_version == builder.gl_version,
        builder@.gl_debug == builder.gl_debug,
        builder@.vsync == builder.vsync,
{
}

/// An error is read as its text.
pub proof fn law_error_is_its_text(text: String)
    ensures
        CreationError::OsError(text)@ == text@,
{
}

/// A failure is reported under the name of the call that failed, with the system's text behind it,
/// or its number in decimal where a number is all that there is. What kept a context from being
/// current is reported as it is.
pub proof fn law_failure_names_the_call(code: i32, os: String, error: CreationError)
    ensures
        Failure::ChangeDisplaySettings(code).message() == "ChangeDisplaySettings failed: "@
            + signed_decimal(code as int),
        Failure::CreateWindowEx(os).message() == "CreateWindowEx function failed: "@ + os@,
        Failure::GetDc(os).message() == "GetDC function failed: "@ + os@,
        Failure::DescribePixelFormat(os).message() == "DescribePixelFormat function failed: "@
            + os@,
        Failure::SetPixelFormat(os).message() == "SetPixelFormat function failed: "@ + os@,
        Failure::CreateContext(os).message() == "OpenGL context creation failed: "@ + os@,
        Failure::MakeCurrent(error).message() == error@,
        Failure::LoadLibrary(os).message() == "LoadLibrary function failed: "@ + os@,
        Failure::SwapInterval.message() == "wglSwapIntervalEXT failed"@,
{
}

} // verus!
