//! Where a window goes, how large it is, and which styles it has.

use vstd::prelude::*;

use crate::constants::CW_USEDEFAULT;
use crate::constants::DISP_CHANGE_SUCCESSFUL;
use crate::constants::DM_BITSPERPEL;
use crate::constants::DM_PELSHEIGHT;
use crate::constants::DM_PELSWIDTH;
use crate::constants::WS_CLIPCHILDREN;
use crate::constants::WS_CLIPSIBLINGS;
use crate::constants::WS_EX_APPWINDOW;
use crate::constants::WS_EX_WINDOWEDGE;
use crate::constants::WS_OVERLAPPEDWINDOW;
use crate::constants::WS_POPUP;
use crate::constants::WS_VISIBLE;
use crate::protocol::DisplaySettings;
use crate::protocol::Placement;
use crate::types::Failure;
use crate::types::MonitorID;
use crate::types::Rect;

verus! {

/// The width and height of a window for which none were asked.
pub const DEFAULT_WIDTH: u32 = 1024;

pub const DEFAULT_HEIGHT: u32 = 768;

/// The size that a window is to have inside its borders.
pub open spec fn requested_size(dimensions: Option<(u32, u32)>) -> (u32, u32) {
    match dimensions {
        Some(size) => size,
        None => (DEFAULT_WIDTH, DEFAULT_HEIGHT),
    }
}

/// A rectangle of the size that is asked for, with its top left corner at the origin.
pub open spec fn rect_at_origin(dimensions: Option<(u32, u32)>) -> Rect {
    let size = requested_size(dimensions);
    Rect { left: 0, top: 0, right: size.0 as i32, bottom: size.1 as i32 }
}

/// Puts a rectangle of the size that is asked for at the origin.
pub fn initial_rect(dimensions: Option<(u32, u32)>) -> (rect: Rect)
    ensures
        rect == rect_at_origin(dimensions),
{
    let (width, height): (u32, u32) = match dimensions {
        Some(size) => size,
        None => (DEFAULT_WIDTH, DEFAULT_HEIGHT),
    };
    Rect {
        left: 0,
        top: 0,
        right: #[verifier::truncate] (width as i32),
        bottom: #[verifier::truncate] (height as i32),
    }
}

/// `v` is a coordinate.
pub open spec fn is_coordinate(v: int) -> bool {
    i32::MIN <= v <= i32::MAX
}

/// The width and the height of the rectangle can be written as numbers.
pub open spec fn is_measurable(rect: Rect) -> bool {
    &&& is_coordinate(rect.right - rect.left)
    &&& is_coordinate(rect.bottom - rect.top)
}

/// The rectangle can be moved by `offset` without leaving the coordinates.
pub open spec fn can_move(rect: Rect, offset: (u32, u32)) -> bool {
    &&& is_coordinate(rect.left + (offset.0 as i32))
    &&& is_coordinate(rect.right + (offset.0 as i32))
    &&& is_coordinate(rect.top + (offset.1 as i32))
    &&& is_coordinate(rect.bottom + (offset.1 as i32))
}

/// The rectangle, moved by `offset`.
pub open spec fn moved(rect: Rect, offset: (u32, u32)) -> Rect {
    Rect {
        left: (rect.left + (offset.0 as i32)) as i32,
        top: (rect.top + (offset.1 as i32)) as i32,
        right: (rect.right + (offset.0 as i32)) as i32,
        bottom: (rect.bottom + (offset.1 as i32)) as i32,
    }
}

/// The display mode in which `rect` fills the screen.
pub open spec fn mode_for(rect: Rect) -> DisplaySettings {
    DisplaySettings {
        pels_width: ((rect.right - rect.left) as i32) as u32,
        pels_height: ((rect.bottom - rect.top) as i32) as u32,
        bits_per_pel: 32,
        fields: DM_BITSPERPEL | DM_PELSWIDTH | DM_PELSHEIGHT,
    }
}

/// Whether [`is_measurable`] holds.
pub fn measurable(rect: Rect) -> (yes: bool)
    ensures
        yes == is_measurable(rect),
{
    let width: i64 = rect.right as i64 - rect.left as i64;
    let height: i64 = rect.bottom as i64 - rect.top as i64;
    i32::MIN as i64 <= width && width <= i32::MAX as i64 && i32::MIN as i64 <= height && height
        <= i32::MAX as i64
}

/// Whether [`can_move`] holds.
pub fn movable(rect: Rect, offset: (u32, u32)) -> (yes: bool)
    ensures
        yes == can_move(rect, offset),
{
    let dx: i32 = #[verifier::truncate] (offset.0 as i32);
    let dy: i32 = #[verifier::truncate] (offset.1 as i32);
    rect.left.checked_add(dx).is_some() && rect.right.checked_add(dx).is_some()
        && rect.top.checked_add(dy).is_some() && rect.bottom.checked_add(dy).is_some()
}

/// Moves `rect` onto the monitor and tells which display mode the monitor is to be given.
pub fn switch_to_fullscreen(rect: &mut Rect, monitor: &MonitorID) -> (settings: DisplaySettings)
    requires
        is_measurable(*old(rect)),
        can_move(*old(rect), monitor.position),
    ensures
        *final(rect) == moved(*old(rect), monitor.position),
        settings == mode_for(*final(rect)),
{
    let dx: i32 = #[verifier::truncate] (monitor.position.0 as i32);
    let dy: i32 = #[verifier::truncate] (monitor.position.1 as i32);
    rect.left = rect.left + dx;
    rect.right = rect.right + dx;
    rect.top = rect.top + dy;
    rect.bottom = rect.bottom + dy;
    let width: i32 = rect.right - rect.left;
    let height: i32 = rect.bottom - rect.top;
    DisplaySettings {
        pels_width: #[verifier::truncate] (width as u32),
        pels_height: #[verifier::truncate] (height as u32),
        bits_per_pel: 32,
        fields: DM_BITSPERPEL | DM_PELSWIDTH | DM_PELSHEIGHT,
    }
}

/// Whether the display mode was changed.
pub fn display_change(result: i32) -> (outcome: Result<(), Failure>)
    ensures
        result == DISP_CHANGE_SUCCESSFUL ==> outcome == Ok::<(), Failure>(()),
        result != DISP_CHANGE_SUCCESSFUL ==> outcome == Err::<(), Failure>(
            Failure::ChangeDisplaySettings(result),
        ),
{
    if result != DISP_CHANGE_SUCCESSFUL {
        Err(Failure::ChangeDisplaySettings(result))
    } else {
        Ok(())
    }
}

/// The extended style of a window.
pub open spec fn ex_style_of(fullscreen: bool) -> u32 {
    if fullscreen {
        WS_EX_APPWINDOW
    } else {
        WS_EX_APPWINDOW | WS_EX_WINDOWEDGE
    }
}

/// The style of a window, apart from its visibility.
pub open spec fn style_of(fullscreen: bool) -> u32 {
    if fullscreen {
        WS_POPUP | WS_CLIPSIBLINGS | WS_CLIPCHILDREN
    } else {
        WS_OVERLAPPEDWINDOW | WS_CLIPSIBLINGS | WS_CLIPCHILDREN
    }
}

/// The style that a window is created with.
pub open spec fn creation_style(fullscreen: bool, shown: bool) -> u32 {
    let style = if shown {
        style_of(fullscreen) | WS_VISIBLE
    } else {
        style_of(fullscreen)
    };
    style | WS_CLIPSIBLINGS | WS_CLIPCHILDREN
}

/// The extended style and the style of a window.
pub fn window_styles(fullscreen: bool) -> (styles: (u32, u32))
    ensures
        styles == (ex_style_of(fullscreen), style_of(fullscreen)),
{
    if fullscreen {
        (WS_EX_APPWINDOW, WS_POPUP | WS_CLIPSIBLINGS | WS_CLIPCHILDREN)
    } else {
        (
            WS_EX_APPWINDOW | WS_EX_WINDOWEDGE,
            WS_OVERLAPPEDWINDOW | WS_CLIPSIBLINGS | WS_CLIPCHILDREN,
        )
    }
}

/// The style that a window is created with.
pub fn window_creation_style(fullscreen: bool, shown: bool) -> (style: u32)
    ensures
        style == creation_style(fullscreen, shown),
{
    let (_, base): (u32, u32) = window_styles(fullscreen);
    let style: u32 = if shown {
        base | WS_VISIBLE
    } else {
        base
    };
    style | WS_CLIPSIBLINGS | WS_CLIPCHILDREN
}

/// The window that the driver is asked through: of the right size, anywhere.
pub open spec fn placement_anywhere(rect: Rect) -> Placement {
    Placement {
        x: CW_USEDEFAULT,
        y: CW_USEDEFAULT,
        width: (rect.right - rect.left) as i32,
        height: (rect.bottom - rect.top) as i32,
    }
}

/// The window that the caller gets: where the monitor is, or anywhere on the desktop; of the
/// right size, unless none was asked for.
pub open spec fn placement_of(rect: Rect, fullscreen: bool, sized: bool) -> Placement {
    Placement {
        x: if fullscreen {
            rect.left
        } else {
            CW_USEDEFAULT
        },
        y: if fullscreen {
            rect.top
        } else {
            CW_USEDEFAULT
        },
        width: if fullscreen || sized {
            (rect.right - rect.left) as i32
        } else {
            CW_USEDEFAULT
        },
        height: if fullscreen || sized {
            (rect.bottom - rect.top) as i32
        } else {
            CW_USEDEFAULT
        },
    }
}

/// Places the window that the driver is asked through.
pub fn dummy_placement(rect: Rect) -> (placement: Placement)
    requires
        is_measurable(rect),
    ensures
        placement == placement_anywhere(rect),
{
    Placement {
        x: CW_USEDEFAULT,
        y: CW_USEDEFAULT,
        width: rect.right - rect.left,
        height: rect.bottom - rect.top,
    }
}

/// Places the window that the caller gets.
pub fn real_placement(rect: Rect, fullscreen: bool, sized: bool) -> (placement: Placement)
    requires
        fullscreen || sized ==> is_measurable(rect),
    ensures
        placement == placement_of(rect, fullscreen, sized),
{
    let (width, height): (Option<i32>, Option<i32>) = if fullscreen || sized {
        (Some(rect.right - rect.left), Some(rect.bottom - rect.top))
    } else {
        (None, None)
    };
    let (x, y): (Option<i32>, Option<i32>) = if fullscreen {
        (Some(rect.left), Some(rect.top))
    } else {
        (None, None)
    };
    Placement {
        x: x.unwrap_or(CW_USEDEFAULT),
        y: y.unwrap_or(CW_USEDEFAULT),
        width: width.unwrap_or(CW_USEDEFAULT),
        height: height.unwrap_or(CW_USEDEFAULT),
    }
}

/// Switching to fullscreen keeps the size of the rectangle, and asks the monitor for exactly
/// the size that the caller asked for.
pub proof fn law_fullscreen_mode_is_the_requested_size(
    dimensions: Option<(u32, u32)>,
    position: (u32, u32),
)
    requires
        can_move(rect_at_origin(dimensions), position),
    ensures
        is_measurable(moved(rect_at_origin(dimensions), position)),
        mode_for(moved(rect_at_origin(dimensions), position)).pels_width == requested_size(
            dimensions,
        ).0,
        mode_for(moved(rect_at_origin(dimensions), position)).pels_height == requested_size(
            dimensions,
        ).1,
{
    let (w, h) = requested_size(dimensions);
    assert((w as i32) as u32 == w) by (bit_vector);
    assert((h as i32) as u32 == h) by (bit_vector);
}

/// A fullscreen window that the system adds no borders to has its top left corner where the
/// monitor has it, so that it overlaps the right monitor.
pub proof fn law_fullscreen_window_overlaps_the_monitor(
    dimensions: Option<(u32, u32)>,
    position: (u32, u32),
)
    requires
        can_move(rect_at_origin(dimensions), position),
    ensures
        placement_of(moved(rect_at_origin(dimensions), position), true, dimensions is Some).x
            == position.0 as i32,
        placement_of(moved(rect_at_origin(dimensions), position), true, dimensions is Some).y
            == position.1 as i32,
{
}

/// A window is created visible exactly if it is to be shown.
pub proof fn law_creation_style_tells_visibility(fullscreen: bool, shown: bool)
    ensures
        creation_style(fullscreen, shown) & WS_VISIBLE != 0 <==> shown,
{
    assert((0x8000_0000u32 | 0x0400_0000 | 0x0200_0000 | 0x0400_0000 | 0x0200_0000) & 0x1000_0000
        == 0) by (bit_vector);
    assert((0x00CF_0000u32 | 0x0400_0000 | 0x0200_0000 | 0x0400_0000 | 0x0200_0000) & 0x1000_0000
        == 0) by (bit_vector);
    assert((0x8000_0000u32 | 0x0400_0000 | 0x0200_0000 | 0x1000_0000 | 0x0400_0000 | 0x0200_0000)
        & 0x1000_0000 != 0) by (bit_vector);
    assert((0x00CF_0000u32 | 0x0400_0000 | 0x0200_0000 | 0x1000_0000 | 0x0400_0000 | 0x0200_0000)
        & 0x1000_0000 != 0) by (bit_vector);
}

/// A window never paints over its siblings or its children.
pub proof fn law_creation_style_clips(fullscreen: bool, shown: bool)
    ensures
        creation_style(fullscreen, shown) & WS_CLIPSIBLINGS != 0,
        creation_style(fullscreen, shown) & WS_CLIPCHILDREN != 0,
{
    assert(forall|s: u32| (#[trigger] (s | 0x0400_0000u32 | 0x0200_0000)) & 0x0400_0000 != 0)
        by (bit_vector);
    assert(forall|s: u32| (#[trigger] (s | 0x0400_0000u32 | 0x0200_0000)) & 0x0200_0000 != 0)
        by (bit_vector);
}

/// A rectangle can be moved exactly if each of its corners stays within signed numbers of 32 bits,
/// and then every corner of it moves by the same offset.
pub proof fn law_rect_moves_as_a_whole(rect: Rect, offset: (u32, u32))
    ensures
        ({
            let dx = offset.0 as i32;
            let dy = offset.1 as i32;
            let result = moved(rect, offset);
            &&& can_move(rect, offset) <==> {
                &&& -0x8000_0000 <= rect.left + dx <= 0x7FFF_FFFF
                &&& -0x8000_0000 <= rect.right + dx <= 0x7FFF_FFFF
                &&& -0x8000_0000 <= rect.top + dy <= 0x7FFF_FFFF
                &&& -0x8000_0000 <= rect.bottom + dy <= 0x7FFF_FFFF
            }
            &&& can_move(rect, offset) ==> {
                &&& result.left - rect.left == dx
                &&& result.right - rect.right == dx
                &&& result.top - rect.top == dy
                &&& result.bottom - rect.bottom == dy
            }
        }),
{
}

/// A rectangle has a size exactly if its width and its height are signed numbers of 32 bits. The
/// mode of a monitor that it fills has that width and that height, with 32 bits for each pixel,
/// and says that these three count.
pub proof fn law_mode_has_the_size_of_the_rect(rect: Rect)
    ensures
        is_measurable(rect) <==> {
            &&& -0x8000_0000 <= rect.right - rect.left <= 0x7FFF_FFFF
            &&& -0x8000_0000 <= rect.bottom - rect.top <= 0x7FFF_FFFF
        },
        is_measurable(rect) && rect.left <= rect.right ==> mode_for(rect).pels_width == rect.right
            - rect.left,
        is_measurable(rect) && rect.top <= rect.bottom ==> mode_for(rect).pels_height == rect.bottom
            - rect.top,
        is_measurable(rect) && rect.left > rect.right ==> mode_for(rect).pels_width == rect.right
            - rect.left + 0x1_0000_0000,
        is_measurable(rect) && rect.top > rect.bottom ==> mode_for(rect).pels_height == rect.bottom
            - rect.top + 0x1_0000_0000,
        mode_for(rect).bits_per_pel == 32,
        mode_for(rect).fields == 0x001C_0000,
{
    assert(forall|v: i32| v < 0 ==> #[trigger] (v as u32) == v + 0x1_0000_0000) by (bit_vector);
    assert(0x0004_0000u32 | 0x0008_0000u32 | 0x0010_0000u32 == 0x001C_0000u32) by (bit_vector);
    if is_measurable(rect) {
        let width = (rect.right - rect.left) as i32;
        let height = (rect.bottom - rect.top) as i32;
        assert(mode_for(rect).pels_width == width as u32);
        assert(mode_for(rect).pels_height == height as u32);
    }
}

} // verus!
