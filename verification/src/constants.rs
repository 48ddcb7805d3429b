//! The numbers of the Win32 and WGL interfaces that window creation uses.

use vstd::prelude::*;

verus! {

/// Forces a top-level window onto the taskbar when it is visible.
pub const WS_EX_APPWINDOW: u32 = 0x0004_0000;

/// Gives the window a border with a raised edge.
pub const WS_EX_WINDOWEDGE: u32 = 0x0000_0100;

pub const WS_POPUP: u32 = 0x8000_0000;

/// The window is initially visible.
pub const WS_VISIBLE: u32 = 0x1000_0000;

pub const WS_CLIPSIBLINGS: u32 = 0x0400_0000;

pub const WS_CLIPCHILDREN: u32 = 0x0200_0000;

/// Caption, system menu, sizing border and the two caption boxes.
pub const WS_OVERLAPPEDWINDOW: u32 = 0x00CF_0000;

/// Leaves the choice of a coordinate to the system.
pub const CW_USEDEFAULT: i32 = -2147483648;

pub const CS_VREDRAW: u32 = 0x0001;

pub const CS_HREDRAW: u32 = 0x0002;

/// Every window of the class has a device context of its own.
pub const CS_OWNDC: u32 = 0x0020;

pub const DM_BITSPERPEL: u32 = 0x0004_0000;

pub const DM_PELSWIDTH: u32 = 0x0008_0000;

pub const DM_PELSHEIGHT: u32 = 0x0010_0000;

/// The display mode is temporary.
pub const CDS_FULLSCREEN: u32 = 0x0000_0004;

pub const DISP_CHANGE_SUCCESSFUL: i32 = 0;

pub const PFD_DOUBLEBUFFER: u32 = 0x0000_0001;

pub const PFD_STEREO: u32 = 0x0000_0002;

pub const PFD_DRAW_TO_WINDOW: u32 = 0x0000_0004;

pub const PFD_SUPPORT_OPENGL: u32 = 0x0000_0020;

/// The format is provided by the software renderer.
pub const PFD_GENERIC_FORMAT: u32 = 0x0000_0040;

pub const PFD_TYPE_RGBA: u8 = 0;

pub const NUMBER_PIXEL_FORMATS_ARB: u32 = 0x2000;

pub const DRAW_TO_WINDOW_ARB: u32 = 0x2001;

pub const ACCELERATION_ARB: u32 = 0x2003;

pub const SUPPORT_OPENGL_ARB: u32 = 0x2010;

pub const DOUBLE_BUFFER_ARB: u32 = 0x2011;

pub const STEREO_ARB: u32 = 0x2012;

pub const PIXEL_TYPE_ARB: u32 = 0x2013;

pub const RED_BITS_ARB: u32 = 0x2015;

pub const GREEN_BITS_ARB: u32 = 0x2017;

pub const BLUE_BITS_ARB: u32 = 0x2019;

pub const ALPHA_BITS_ARB: u32 = 0x201B;

pub const DEPTH_BITS_ARB: u32 = 0x2022;

pub const STENCIL_BITS_ARB: u32 = 0x2023;

pub const NO_ACCELERATION_ARB: u32 = 0x2025;

pub const TYPE_RGBA_ARB: u32 = 0x202B;

pub const CONTEXT_DEBUG_BIT_ARB: i32 = 0x0001;

pub const CONTEXT_MAJOR_VERSION_ARB: i32 = 0x2091;

pub const CONTEXT_MINOR_VERSION_ARB: i32 = 0x2092;

pub const CONTEXT_FLAGS_ARB: i32 = 0x2094;

} // verus!
