//! The pixel formats that the driver tells about through its pixel format extension.

use vstd::prelude::*;

use crate::constants::ACCELERATION_ARB;
use crate::constants::ALPHA_BITS_ARB;
use crate::constants::BLUE_BITS_ARB;
use crate::constants::DEPTH_BITS_ARB;
use crate::constants::DOUBLE_BUFFER_ARB;
use crate::constants::DRAW_TO_WINDOW_ARB;
use crate::constants::GREEN_BITS_ARB;
use crate::constants::NO_ACCELERATION_ARB;
use crate::constants::NUMBER_PIXEL_FORMATS_ARB;
use crate::constants::PIXEL_TYPE_ARB;
use crate::constants::RED_BITS_ARB;
use crate::constants::STENCIL_BITS_ARB;
use crate::constants::STEREO_ARB;
use crate::constants::SUPPORT_OPENGL_ARB;
use crate::constants::TYPE_RGBA_ARB;
use crate::protocol::Action;
use crate::protocol::ActionView;
use crate::protocol::Reply;
use crate::types::PixelFormat;
use crate::types::WindowWrapper;

verus! {

/// What a driver says of attribute `attribute` of format `index`.
pub open spec fn attribute_value(driver: spec_fn(u32, u32) -> i32, index: u32, attribute: u32) -> u32 {
    driver(index, attribute) as u32
}

/// Format `index` of the driver can be drawn to a window by OpenGL, with acceleration, in red,
/// green and blue.
pub open spec fn is_accelerated(driver: spec_fn(u32, u32) -> i32, index: u32) -> bool {
    &&& attribute_value(driver, index, DRAW_TO_WINDOW_ARB) != 0
    &&& attribute_value(driver, index, SUPPORT_OPENGL_ARB) != 0
    &&& attribute_value(driver, index, ACCELERATION_ARB) != NO_ACCELERATION_ARB
    &&& attribute_value(driver, index, PIXEL_TYPE_ARB) == TYPE_RGBA_ARB
}

/// Format `index` of the driver.
pub open spec fn driver_format(driver: spec_fn(u32, u32) -> i32, index: u32) -> PixelFormat {
    PixelFormat {
        hardware_accelerated: true,
        red_bits: attribute_value(driver, index, RED_BITS_ARB) as u8,
        green_bits: attribute_value(driver, index, GREEN_BITS_ARB) as u8,
        blue_bits: attribute_value(driver, index, BLUE_BITS_ARB) as u8,
        alpha_bits: attribute_value(driver, index, ALPHA_BITS_ARB) as u8,
        depth_bits: attribute_value(driver, index, DEPTH_BITS_ARB) as u8,
        stencil_bits: attribute_value(driver, index, STENCIL_BITS_ARB) as u8,
        stereoscopy: attribute_value(driver, index, STEREO_ARB) != 0,
        double_buffer: attribute_value(driver, index, DOUBLE_BUFFER_ARB) != 0,
        multisampling: None,
        srgb: false,
    }
}

/// The accelerated formats of the driver below `num`, each with its number.
pub open spec fn driver_formats(driver: spec_fn(u32, u32) -> i32, num: u32) -> Seq<
    (PixelFormat, i32),
>
    decreases num,
{
    if num == 0 {
        Seq::empty()
    } else {
        let last = (num - 1) as u32;
        let before = driver_formats(driver, last);
        if is_accelerated(driver, last) {
            before.push((driver_format(driver, last), last as i32))
        } else {
            before
        }
    }
}

/// The attributes of a format that are asked for, in the order in which they are.
#[derive(Clone, Copy, Debug, PartialEq, Eq, Structural)]
pub enum ArbField {
    DrawToWindow,
    SupportOpenGl,
    Acceleration,
    PixelType,
    RedBits,
    GreenBits,
    BlueBits,
    AlphaBits,
    DepthBits,
    StencilBits,
    Stereo,
    DoubleBuffer,
}

impl ArbField {
    /// The driver's number for the attribute.
    pub open spec fn number(self) -> u32 {
        match self {
            ArbField::DrawToWindow => DRAW_TO_WINDOW_ARB,
            ArbField::SupportOpenGl => SUPPORT_OPENGL_ARB,
            ArbField::Acceleration => ACCELERATION_ARB,
            ArbField::PixelType => PIXEL_TYPE_ARB,
            ArbField::RedBits => RED_BITS_ARB,
            ArbField::GreenBits => GREEN_BITS_ARB,
            ArbField::BlueBits => BLUE_BITS_ARB,
            ArbField::AlphaBits => ALPHA_BITS_ARB,
            ArbField::DepthBits => DEPTH_BITS_ARB,
            ArbField::StencilBits => STENCIL_BITS_ARB,
            ArbField::Stereo => STEREO_ARB,
            ArbField::DoubleBuffer => DOUBLE_BUFFER_ARB,
        }
    }

    /// The attribute that is asked for behind this one.
    pub open spec fn successor(self) -> Option<ArbField> {
        match self {
            ArbField::DrawToWindow => Some(ArbField::SupportOpenGl),
            ArbField::SupportOpenGl => Some(ArbField::Acceleration),
            ArbField::Acceleration => Some(ArbField::PixelType),
            ArbField::PixelType => Some(ArbField::RedBits),
            ArbField::RedBits => Some(ArbField::GreenBits),
            ArbField::GreenBits => Some(ArbField::BlueBits),
            ArbField::BlueBits => Some(ArbField::AlphaBits),
            ArbField::AlphaBits => Some(ArbField::DepthBits),
            ArbField::DepthBits => Some(ArbField::StencilBits),
            ArbField::StencilBits => Some(ArbField::Stereo),
            ArbField::Stereo => Some(ArbField::DoubleBuffer),
            ArbField::DoubleBuffer => None,
        }
    }

    /// How many attributes are asked for before this one.
    pub open spec fn position(self) -> int {
        match self {
            ArbField::DrawToWindow => 0,
            ArbField::SupportOpenGl => 1,
            ArbField::Acceleration => 2,
            ArbField::PixelType => 3,
            ArbField::RedBits => 4,
            ArbField::GreenBits => 5,
            ArbField::BlueBits => 6,
            ArbField::AlphaBits => 7,
            ArbField::DepthBits => 8,
            ArbField::StencilBits => 9,
            ArbField::Stereo => 10,
            ArbField::DoubleBuffer => 11,
        }
    }

    /// A format with this value of the attribute is of no use.
    pub open spec fn rules_out(self, value: u32) -> bool {
        match self {
            ArbField::DrawToWindow => value == 0,
            ArbField::SupportOpenGl => value == 0,
            ArbField::Acceleration => value == NO_ACCELERATION_ARB,
            ArbField::PixelType => value != TYPE_RGBA_ARB,
            _ => false,
        }
    }

    /// `format` with this value of the attribute.
    pub open spec fn filled(self, format: PixelFormat, value: u32) -> PixelFormat {
        match self {
            ArbField::RedBits => PixelFormat { red_bits: value as u8, ..format },
            ArbField::GreenBits => PixelFormat { green_bits: value as u8, ..format },
            ArbField::BlueBits => PixelFormat { blue_bits: value as u8, ..format },
            ArbField::AlphaBits => PixelFormat { alpha_bits: value as u8, ..format },
            ArbField::DepthBits => PixelFormat { depth_bits: value as u8, ..format },
            ArbField::StencilBits => PixelFormat { stencil_bits: value as u8, ..format },
            ArbField::Stereo => PixelFormat { stereoscopy: value != 0, ..format },
            ArbField::DoubleBuffer => PixelFormat { double_buffer: value != 0, ..format },
            _ => format,
        }
    }

    fn attribute(self) -> (number: u32)
        ensures
            number == self.number(),
    {
        match self {
            ArbField::DrawToWindow => DRAW_TO_WINDOW_ARB,
            ArbField::SupportOpenGl => SUPPORT_OPENGL_ARB,
            ArbField::Acceleration => ACCELERATION_ARB,
            ArbField::PixelType => PIXEL_TYPE_ARB,
            ArbField::RedBits => RED_BITS_ARB,
            ArbField::GreenBits => GREEN_BITS_ARB,
            ArbField::BlueBits => BLUE_BITS_ARB,
            ArbField::AlphaBits => ALPHA_BITS_ARB,
            ArbField::DepthBits => DEPTH_BITS_ARB,
            ArbField::StencilBits => STENCIL_BITS_ARB,
            ArbField::Stereo => STEREO_ARB,
            ArbField::DoubleBuffer => DOUBLE_BUFFER_ARB,
        }
    }

    fn next(self) -> (field: Option<ArbField>)
        ensures
            field == self.successor(),
    {
        match self {
            ArbField::DrawToWindow => Some(ArbField::SupportOpenGl),
            ArbField::SupportOpenGl => Some(ArbField::Acceleration),
            ArbField::Acceleration => Some(ArbField::PixelType),
            ArbField::PixelType => Some(ArbField::RedBits),
            ArbField::RedBits => Some(ArbField::GreenBits),
            ArbField::GreenBits => Some(ArbField::BlueBits),
            ArbField::BlueBits => Some(ArbField::AlphaBits),
            ArbField::AlphaBits => Some(ArbField::DepthBits),
            ArbField::DepthBits => Some(ArbField::StencilBits),
            ArbField::StencilBits => Some(ArbField::Stereo),
            ArbField::Stereo => Some(ArbField::DoubleBuffer),
            ArbField::DoubleBuffer => None,
        }
    }

    fn is_ruled_out_by(self, value: u32) -> (yes: bool)
        ensures
            yes == self.rules_out(value),
    {
        match self {
            ArbField::DrawToWindow => value == 0,
            ArbField::SupportOpenGl => value == 0,
            ArbField::Acceleration => value == NO_ACCELERATION_ARB,
            ArbField::PixelType => value != TYPE_RGBA_ARB,
            _ => false,
        }
    }

    fn fill(self, format: PixelFormat, value: u32) -> (result: PixelFormat)
        ensures
            result == self.filled(format, value),
    {
        let mut result = format;
        let bits: u8 = #[verifier::truncate] (value as u8);
        match self {
            ArbField::RedBits => {
                result.red_bits = bits;
            },
            ArbField::GreenBits => {
                result.green_bits = bits;
            },
            ArbField::BlueBits => {
                result.blue_bits = bits;
            },
            ArbField::AlphaBits => {
                result.alpha_bits = bits;
            },
            ArbField::DepthBits => {
                result.depth_bits = bits;
            },
            ArbField::StencilBits => {
                result.stencil_bits = bits;
            },
            ArbField::Stereo => {
                result.stereoscopy = value != 0;
            },
            ArbField::DoubleBuffer => {
                result.double_buffer = value != 0;
            },
            _ => {},
        }
        result
    }
}

/// The format of which nothing has been asked yet.
pub open spec fn blank_format() -> PixelFormat {
    PixelFormat {
        hardware_accelerated: true,
        red_bits: 0,
        green_bits: 0,
        blue_bits: 0,
        alpha_bits: 0,
        depth_bits: 0,
        stencil_bits: 0,
        stereoscopy: false,
        double_buffer: false,
        multisampling: None,
        srgb: false,
    }
}

/// A walk through the pixel formats of a driver.
#[derive(Clone, Copy, Debug, PartialEq, Eq)]
pub enum ArbEnumeration {
    /// Asking how many formats there are.
    Count { hdc: usize },
    /// Asking for attribute `field` of format `index`, one of `num`; `format` holds what is
    /// known of the format.
    Query { hdc: usize, index: u32, num: u32, field: ArbField, format: PixelFormat },
    /// All formats have been seen.
    Finished,
}

/// Begins a walk through the pixel formats that the driver has for a window.
pub fn enumerate_arb_pixel_formats(hdc: &WindowWrapper) -> (walk: ArbEnumeration)
    ensures
        walk == (ArbEnumeration::Count { hdc: hdc.1 }),
{
    ArbEnumeration::Count { hdc: hdc.1 }
}

impl ArbEnumeration {
    /// The walk once the formats before `index` have been seen.
    pub open spec fn at(hdc: usize, index: u32, num: u32) -> ArbEnumeration {
        if index < num {
            ArbEnumeration::Query {
                hdc,
                index,
                num,
                field: ArbField::DrawToWindow,
                format: blank_format(),
            }
        } else {
            ArbEnumeration::Finished
        }
    }

    /// The call that the walk waits for.
    pub open spec fn call(self) -> ActionView {
        match self {
            ArbEnumeration::Count { hdc } => ActionView::QueryAttribute {
                hdc,
                index: 1,
                layer: 0,
                attribute: NUMBER_PIXEL_FORMATS_ARB as i32,
            },
            ArbEnumeration::Query { hdc, index, field, .. } => ActionView::QueryAttribute {
                hdc,
                index: index as i32,
                layer: 0,
                attribute: field.number() as i32,
            },
            ArbEnumeration::Finished => ActionView::Finish,
        }
    }

    /// `reply` is a reply to the call that the walk waits for.
    pub open spec fn accepts(self, reply: Reply) -> bool {
        match self {
            ArbEnumeration::Count { .. } => reply is Attribute,
            ArbEnumeration::Query { index, num, .. } => reply is Attribute && index < num,
            ArbEnumeration::Finished => false,
        }
    }

    /// The walk behind `reply`.
    pub open spec fn after(self, reply: Reply) -> ArbEnumeration {
        match (self, reply) {
            (ArbEnumeration::Count { hdc }, Reply::Attribute { value }) => Self::at(
                hdc,
                0,
                value as u32,
            ),
            (
                ArbEnumeration::Query { hdc, index, num, field, format },
                Reply::Attribute { value },
            ) => if field.rules_out(value as u32) {
                Self::at(hdc, (index + 1) as u32, num)
            } else {
                match field.successor() {
                    Some(successor) => ArbEnumeration::Query {
                        hdc,
                        index,
                        num,
                        field: successor,
                        format: field.filled(format, value as u32),
                    },
                    None => Self::at(hdc, (index + 1) as u32, num),
                }
            },
            _ => self,
        }
    }

    /// The formats that have been found behind `reply`, where `found` were found before.
    pub open spec fn found_after(self, reply: Reply, found: Seq<(PixelFormat, i32)>) -> Seq<
        (PixelFormat, i32),
    > {
        match (self, reply) {
            (ArbEnumeration::Query { index, field, format, .. }, Reply::Attribute { value }) => if {
                &&& !field.rules_out(value as u32)
                &&& field.successor() is None
            } {
                found.push((field.filled(format, value as u32), index as i32))
            } else {
                found
            },
            _ => found,
        }
    }

    /// What the driver replies to the call that the walk waits for.
    pub open spec fn answer(self, driver: spec_fn(u32, u32) -> i32) -> Reply {
        match self {
            ArbEnumeration::Query { index, field, .. } => Reply::Attribute {
                value: driver(index, field.number()),
            },
            _ => Reply::Attribute { value: driver(1, NUMBER_PIXEL_FORMATS_ARB) },
        }
    }

    /// The walk and the formats found once the driver has been asked `calls` times.
    pub open spec fn run(self, driver: spec_fn(u32, u32) -> i32, calls: nat) -> (
        ArbEnumeration,
        Seq<(PixelFormat, i32)>,
    )
        decreases calls,
    {
        if calls == 0 {
            (self, Seq::empty())
        } else {
            let (walk, found) = self.run(driver, (calls - 1) as nat);
            let reply = walk.answer(driver);
            (walk.after(reply), walk.found_after(reply, found))
        }
    }

    /// The call to be made next.
    pub fn action(&self) -> (action: Action)
        ensures
            action@ == self.call(),
    {
        match *self {
            ArbEnumeration::Count { hdc } => Action::QueryAttribute {
                hdc,
                index: 1,
                layer: 0,
                attribute: NUMBER_PIXEL_FORMATS_ARB as i32,
            },
            ArbEnumeration::Query { hdc, index, field, .. } => Action::QueryAttribute {
                hdc,
                index: #[verifier::truncate] (index as i32),
                layer: 0,
                attribute: field.attribute() as i32,
            },
            ArbEnumeration::Finished => Action::Finish,
        }
    }

    fn next(hdc: usize, index: u32, num: u32) -> (walk: ArbEnumeration)
        ensures
            walk == Self::at(hdc, index, num),
    {
        if index < num {
            ArbEnumeration::Query {
                hdc,
                index,
                num,
                field: ArbField::DrawToWindow,
                format: PixelFormat {
                    hardware_accelerated: true,
                    red_bits: 0,
                    green_bits: 0,
                    blue_bits: 0,
                    alpha_bits: 0,
                    depth_bits: 0,
                    stencil_bits: 0,
                    stereoscopy: false,
                    double_buffer: false,
                    multisampling: None,
                    srgb: false,
                },
            }
        } else {
            ArbEnumeration::Finished
        }
    }

    /// Takes in the reply to the call. The first attribute that rules a format out ends the
    /// questions about it; a format that none rules out goes behind those in `found`, with its
    /// number.
    pub fn step(self, reply: &Reply, found: &mut Vec<(PixelFormat, i32)>) -> (walk: ArbEnumeration)
        requires
            self.accepts(*reply),
        ensures
            walk == self.after(*reply),
            final(found)@ == self.found_after(*reply, old(found)@),
    {
        match (self, reply) {
            (ArbEnumeration::Count { hdc }, Reply::Attribute { value }) => {
                let num: u32 = #[verifier::truncate] (*value as u32);
                Self::next(hdc, 0, num)
            },
            (
                ArbEnumeration::Query { hdc, index, num, field, format },
                Reply::Attribute { value },
            ) => {
                let value: u32 = #[verifier::truncate] (*value as u32);
                if field.is_ruled_out_by(value) {
                    return Self::next(hdc, index + 1, num);
                }
                let format = field.fill(format, value);
                match field.next() {
                    Some(successor) => ArbEnumeration::Query {
                        hdc,
                        index,
                        num,
                        field: successor,
                        format,
                    },
                    None => {
                        let id: i32 = #[verifier::truncate] (index as i32);
                        found.push((format, id));
                        Self::next(hdc, index + 1, num)
                    },
                }
            },
            _ => self,
        }
    }

    /// `format` holds what `driver` says of the attributes of format `index` before `field`,
    /// and none of them rules the format out.
    pub open spec fn agrees(
        driver: spec_fn(u32, u32) -> i32,
        index: u32,
        field: ArbField,
        format: PixelFormat,
    ) -> bool {
        let whole = driver_format(driver, index);
        let p = field.position();
        &&& p > 0 ==> attribute_value(driver, index, DRAW_TO_WINDOW_ARB) != 0
        &&& p > 1 ==> attribute_value(driver, index, SUPPORT_OPENGL_ARB) != 0
        &&& p > 2 ==> attribute_value(driver, index, ACCELERATION_ARB) != NO_ACCELERATION_ARB
        &&& p > 3 ==> attribute_value(driver, index, PIXEL_TYPE_ARB) == TYPE_RGBA_ARB
        &&& format == (PixelFormat {
            hardware_accelerated: true,
            red_bits: if p > 4 { whole.red_bits } else { 0 },
            green_bits: if p > 5 { whole.green_bits } else { 0 },
            blue_bits: if p > 6 { whole.blue_bits } else { 0 },
            alpha_bits: if p > 7 { whole.alpha_bits } else { 0 },
            depth_bits: if p > 8 { whole.depth_bits } else { 0 },
            stencil_bits: if p > 9 { whole.stencil_bits } else { 0 },
            stereoscopy: if p > 10 { whole.stereoscopy } else { false },
            double_buffer: false,
            multisampling: None,
            srgb: false,
        })
    }

    /// The walk is on its way through the formats of `driver` and `found` is what it has to
    /// have found; at most `left` calls are left.
    pub open spec fn on_the_way(
        self,
        found: Seq<(PixelFormat, i32)>,
        driver: spec_fn(u32, u32) -> i32,
        left: int,
    ) -> bool {
        let count = attribute_value(driver, 1, NUMBER_PIXEL_FORMATS_ARB);
        match self {
            ArbEnumeration::Count { .. } => found.len() == 0 && 1 + 12 * count <= left,
            ArbEnumeration::Query { index, num, field, format, .. } => {
                &&& num == count
                &&& index < num
                &&& Self::agrees(driver, index, field, format)
                &&& found == driver_formats(driver, index)
                &&& 12 * (num - index) - field.position() <= left
            },
            ArbEnumeration::Finished => found == driver_formats(driver, count),
        }
    }

    /// Every reply of the driver takes the walk one call further on its way.
    pub proof fn lemma_step_stays_on_the_way(
        self,
        found: Seq<(PixelFormat, i32)>,
        driver: spec_fn(u32, u32) -> i32,
        left: int,
    )
        requires
            self.on_the_way(found, driver, left),
        ensures
            self.after(self.answer(driver)).on_the_way(
                self.found_after(self.answer(driver), found),
                driver,
                left - 1,
            ),
    {
        match self {
            ArbEnumeration::Count { hdc } => {
                assert(found =~= Seq::empty());
            },
            ArbEnumeration::Query { hdc, index, num, field, format } => {
                let whole = driver_format(driver, index);
                let value = attribute_value(driver, index, field.number());
                let next = (index + 1) as u32;
                assert(driver_formats(driver, next) == if is_accelerated(driver, index) {
                    driver_formats(driver, index).push((whole, index as i32))
                } else {
                    driver_formats(driver, index)
                });
            },
            ArbEnumeration::Finished => {},
        }
    }

    proof fn lemma_run_is_on_the_way(hdc: usize, driver: spec_fn(u32, u32) -> i32, calls: nat)
        ensures
            ({
                let (walk, found) = (ArbEnumeration::Count { hdc }).run(driver, calls);
                walk.on_the_way(
                    found,
                    driver,
                    1 + 12 * attribute_value(driver, 1, NUMBER_PIXEL_FORMATS_ARB) - calls,
                )
            }),
        decreases calls,
    {
        if calls > 0 {
            Self::lemma_run_is_on_the_way(hdc, driver, (calls - 1) as nat);
            let (walk, found) = (ArbEnumeration::Count { hdc }).run(driver, (calls - 1) as nat);
            walk.lemma_step_stays_on_the_way(
                found,
                driver,
                1 + 12 * attribute_value(driver, 1, NUMBER_PIXEL_FORMATS_ARB) - (calls - 1),
            );
        }
    }
}

/// Whatever a driver says of its formats, a walk that has ended has found exactly the
/// accelerated ones, in order.
pub proof fn law_arb_enumeration_finds_the_accelerated_formats(
    hdc: usize,
    driver: spec_fn(u32, u32) -> i32,
    calls: nat,
)
    ensures
        ({
            let (walk, found) = (ArbEnumeration::Count { hdc }).run(driver, calls);
            walk is Finished ==> found == driver_formats(
                driver,
                attribute_value(driver, 1, NUMBER_PIXEL_FORMATS_ARB),
            )
        }),
{
    ArbEnumeration::lemma_run_is_on_the_way(hdc, driver, calls);
}

/// A walk asks for the count once and for no more than twelve attributes of each format, and
/// has then ended.
pub proof fn law_arb_enumeration_ends(hdc: usize, driver: spec_fn(u32, u32) -> i32, calls: nat)
    requires
        calls >= 1 + 12 * attribute_value(driver, 1, NUMBER_PIXEL_FORMATS_ARB),
    ensures
        (ArbEnumeration::Count { hdc }).run(driver, calls).0 is Finished,
{
    ArbEnumeration::lemma_run_is_on_the_way(hdc, driver, calls);
}

/// A format of the driver is found exactly if it is accelerated, and it is found as the driver
/// tells about it.
pub proof fn law_driver_formats_are_the_accelerated_ones(
    driver: spec_fn(u32, u32) -> i32,
    num: u32,
    index: u32,
)
    requires
        index < num,
    ensures
        driver_formats(driver, num).contains((driver_format(driver, index), index as i32))
            <==> is_accelerated(driver, index),
        forall|k: int|
            0 <= k < driver_formats(driver, num).len() ==> {
                let entry = #[trigger] driver_formats(driver, num)[k];
                &&& (entry.1 as u32) < num
                &&& is_accelerated(driver, entry.1 as u32)
                &&& entry.0 == driver_format(driver, entry.1 as u32)
                &&& entry.0.hardware_accelerated
            },
    decreases num,
{
    let last = (num - 1) as u32;
    let before = driver_formats(driver, last);
    let all = driver_formats(driver, num);
    assert(forall|n: u32| #[trigger] ((n as i32) as u32) == n) by (bit_vector);
    let entry = (driver_format(driver, index), index as i32);
    if last > 0 {
        let earlier: u32 = if index < last { index } else { 0 };
        law_driver_formats_are_the_accelerated_ones(driver, last, earlier);
    }
    if index < last {
        if all.contains(entry) {
            let k = choose|k: int| 0 <= k < all.len() && all[k] == entry;
            assert((entry.1 as u32) == index && ((last as i32) as u32) == last);
            assert(before[k] == entry);
        }
        if before.contains(entry) {
            let k = choose|k: int| 0 <= k < before.len() && before[k] == entry;
            assert(all[k] == entry);
        }
    } else {
        if is_accelerated(driver, index) {
            assert(all[before.len() as int] == entry);
        }
        if all.contains(entry) && !is_accelerated(driver, index) {
            let k = choose|k: int| 0 <= k < before.len() && before[k] == entry;
            assert((before[k].1 as u32) < last);
        }
    }
}

/// A walk that is over asks for nothing any more, and until then every answer of the driver is
/// taken in.
pub proof fn law_arb_walk_takes_every_answer(
    hdc: usize,
    index: u32,
    num: u32,
    field: ArbField,
    format: PixelFormat,
    reply: Reply,
)
    requires
        index < num,
    ensures
        (ArbEnumeration::Count { hdc }).accepts(reply) <==> reply is Attribute,
        (ArbEnumeration::Query { hdc, index, num, field, format }).accepts(reply) <==> reply
            is Attribute,
        !ArbEnumeration::Finished.accepts(reply),
        ArbEnumeration::Finished.call() == ActionView::Finish,
{
}

} // verus!
