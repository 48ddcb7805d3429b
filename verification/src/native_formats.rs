//! The pixel formats that the system itself knows of.

use vstd::prelude::*;

use crate::constants::PFD_DOUBLEBUFFER;
use crate::constants::PFD_DRAW_TO_WINDOW;
use crate::constants::PFD_GENERIC_FORMAT;
use crate::constants::PFD_STEREO;
use crate::constants::PFD_SUPPORT_OPENGL;
use crate::constants::PFD_TYPE_RGBA;
use crate::protocol::Action;
use crate::protocol::ActionView;
use crate::protocol::Reply;
use crate::types::PixelFormat;
use crate::types::PixelFormatDescriptor;
use crate::types::WindowWrapper;

verus! {

/// A format of this description can be drawn to a window by OpenGL, in red, green and blue.
pub open spec fn is_usable(d: PixelFormatDescriptor) -> bool {
    &&& d.flags & PFD_DRAW_TO_WINDOW != 0
    &&& d.flags & PFD_SUPPORT_OPENGL != 0
    &&& d.pixel_type == PFD_TYPE_RGBA
}

/// The format that a description describes.
pub open spec fn described_format(d: PixelFormatDescriptor) -> PixelFormat {
    PixelFormat {
        hardware_accelerated: d.flags & PFD_GENERIC_FORMAT == 0,
        red_bits: d.red_bits,
        green_bits: d.green_bits,
        blue_bits: d.blue_bits,
        alpha_bits: d.alpha_bits,
        depth_bits: d.depth_bits,
        stencil_bits: d.stencil_bits,
        stereoscopy: d.flags & PFD_STEREO != 0,
        double_buffer: d.flags & PFD_DOUBLEBUFFER != 0,
        multisampling: None,
        srgb: false,
    }
}

/// The format that the reply to one description request stands for, if it is of use.
pub open spec fn offered_format(reply: Reply) -> Option<PixelFormat> {
    match reply {
        Reply::Described { value, descriptor, os_error } => if value != 0 && is_usable(descriptor) {
            Some(described_format(descriptor))
        } else {
            None
        },
        _ => None,
    }
}

/// The usable formats among `replies`, each with its number.
pub open spec fn native_formats(replies: Seq<Reply>) -> Seq<(PixelFormat, i32)>
    decreases replies.len(),
{
    if replies.len() == 0 {
        Seq::empty()
    } else {
        let before = native_formats(replies.drop_last());
        match offered_format(replies.last()) {
            Some(format) => before.push((format, (replies.len() - 1) as i32)),
            None => before,
        }
    }
}

/// Reads a description; `None` where the format is of no use for OpenGL in a window.
pub fn native_pixel_format(d: &PixelFormatDescriptor) -> (format: Option<PixelFormat>)
    ensures
        is_usable(*d) ==> format == Some(described_format(*d)),
        !is_usable(*d) ==> format is None,
{
    if (d.flags & PFD_DRAW_TO_WINDOW) == 0 {
        return None;
    }
    if (d.flags & PFD_SUPPORT_OPENGL) == 0 {
        return None;
    }
    if d.pixel_type != PFD_TYPE_RGBA {
        return None;
    }
    Some(
        PixelFormat {
            hardware_accelerated: (d.flags & PFD_GENERIC_FORMAT) == 0,
            red_bits: d.red_bits,
            green_bits: d.green_bits,
            blue_bits: d.blue_bits,
            alpha_bits: d.alpha_bits,
            depth_bits: d.depth_bits,
            stencil_bits: d.stencil_bits,
            stereoscopy: (d.flags & PFD_STEREO) != 0,
            double_buffer: (d.flags & PFD_DOUBLEBUFFER) != 0,
            multisampling: None,
            srgb: false,
        },
    )
}

/// A walk through the pixel formats of a device context.
#[derive(Clone, Copy, Debug, PartialEq, Eq, Structural)]
pub enum NativeEnumeration {
    /// Asking how many formats there are.
    Count { hdc: usize },
    /// Asking for the description of format `index`, one of `num`.
    Describe { hdc: usize, index: i32, num: i32 },
    /// All formats have been seen.
    Finished,
}

/// Begins a walk through the pixel formats of a window.
pub fn enumerate_native_pixel_formats(hdc: &WindowWrapper) -> (walk: NativeEnumeration)
    ensures
        walk == (NativeEnumeration::Count { hdc: hdc.1 }),
{
    NativeEnumeration::Count { hdc: hdc.1 }
}

impl NativeEnumeration {
    /// The walk once the formats before `index` have been seen.
    pub open spec fn at(hdc: usize, index: i32, num: i32) -> NativeEnumeration {
        if index < num {
            NativeEnumeration::Describe { hdc, index, num }
        } else {
            NativeEnumeration::Finished
        }
    }

    /// The call that the walk waits for.
    pub open spec fn call(self) -> ActionView {
        match self {
            NativeEnumeration::Count { hdc } => ActionView::CountPixelFormats { hdc, index: 1 },
            NativeEnumeration::Describe { hdc, index, num } => ActionView::DescribeCandidate {
                hdc,
                index,
            },
            NativeEnumeration::Finished => ActionView::Finish,
        }
    }

    /// `reply` is a reply to the call that the walk waits for.
    pub open spec fn accepts(self, reply: Reply) -> bool {
        match self {
            NativeEnumeration::Count { .. } => reply is Code,
            NativeEnumeration::Describe { index, num, .. } => reply is Described && index < num,
            NativeEnumeration::Finished => false,
        }
    }

    /// The walk behind `reply`.
    pub open spec fn after(self, reply: Reply) -> NativeEnumeration {
        match (self, reply) {
            (NativeEnumeration::Count { hdc }, Reply::Code { value, .. }) => Self::at(
                hdc,
                0,
                value,
            ),
            (NativeEnumeration::Describe { hdc, index, num }, Reply::Described { .. }) => Self::at(
                hdc,
                (index + 1) as i32,
                num,
            ),
            _ => self,
        }
    }

    /// The formats that have been found behind `reply`, where `found` were found before.
    pub open spec fn found_after(self, reply: Reply, found: Seq<(PixelFormat, i32)>) -> Seq<
        (PixelFormat, i32),
    > {
        match self {
            NativeEnumeration::Describe { index, .. } => match offered_format(reply) {
                Some(format) => found.push((format, index)),
                None => found,
            },
            _ => found,
        }
    }

    /// The walk and the formats found behind all of `replies`.
    pub open spec fn run(self, replies: Seq<Reply>) -> (NativeEnumeration, Seq<(PixelFormat, i32)>)
        decreases replies.len(),
    {
        if replies.len() == 0 {
            (self, Seq::empty())
        } else {
            let (walk, found) = self.run(replies.drop_last());
            (walk.after(replies.last()), walk.found_after(replies.last(), found))
        }
    }

    /// The call to be made next.
    pub fn action(&self) -> (action: Action)
        ensures
            action@ == self.call(),
    {
        match *self {
            NativeEnumeration::Count { hdc } => Action::CountPixelFormats { hdc, index: 1 },
            NativeEnumeration::Describe { hdc, index, .. } => Action::DescribeCandidate {
                hdc,
                index,
            },
            NativeEnumeration::Finished => Action::Finish,
        }
    }

    fn next(hdc: usize, index: i32, num: i32) -> (walk: NativeEnumeration)
        ensures
            walk == Self::at(hdc, index, num),
    {
        if index < num {
            NativeEnumeration::Describe { hdc, index, num }
        } else {
            NativeEnumeration::Finished
        }
    }

    /// Takes in the reply to the call. A usable format goes behind those in `found`, with its
    /// number; a format that cannot be described or is of no use is passed over.
    pub fn step(self, reply: &Reply, found: &mut Vec<(PixelFormat, i32)>) -> (walk:
        NativeEnumeration)
        requires
            self.accepts(*reply),
        ensures
            walk == self.after(*reply),
            final(found)@ == self.found_after(*reply, old(found)@),
    {
        match (self, reply) {
            (NativeEnumeration::Count { hdc }, Reply::Code { value, .. }) => Self::next(
                hdc,
                0,
                *value,
            ),
            (
                NativeEnumeration::Describe { hdc, index, num },
                Reply::Described { value, descriptor, .. },
            ) => {
                if *value != 0 {
                    match native_pixel_format(descriptor) {
                        Some(format) => {
                            found.push((format, index));
                        },
                        None => {},
                    }
                }
                Self::next(hdc, index + 1, num)
            },
            _ => self,
        }
    }
}

/// A walk asks for the description of every number from zero up to the count that the system
/// gave, once and in order, and then ends with exactly the usable formats, in order.
pub proof fn law_native_enumeration_finds_the_usable_formats(
    hdc: usize,
    num: i32,
    os_error: String,
    descriptions: Seq<Reply>,
)
    requires
        descriptions.len() <= num || descriptions.len() == 0,
        forall|i: int| 0 <= i < descriptions.len() ==> descriptions[i] is Described,
    ensures
        ({
            let start = NativeEnumeration::Count { hdc };
            let counted = Reply::Code { value: num, os_error };
            let (walk, found) = start.run(seq![counted] + descriptions);
            &&& found == native_formats(descriptions)
            &&& descriptions.len() < num ==> walk == (NativeEnumeration::Describe {
                hdc,
                index: descriptions.len() as i32,
                num,
            })
            &&& descriptions.len() >= num ==> walk == NativeEnumeration::Finished
        }),
    decreases descriptions.len(),
{
    let start = NativeEnumeration::Count { hdc };
    let counted = Reply::Code { value: num, os_error };
    let replies = seq![counted] + descriptions;
    if descriptions.len() == 0 {
        assert(replies.drop_last() =~= Seq::<Reply>::empty());
        assert(replies.last() == counted);
        assert(start.run(replies.drop_last()) == (start, Seq::<(PixelFormat, i32)>::empty()));
    } else {
        law_native_enumeration_finds_the_usable_formats(
            hdc,
            num,
            os_error,
            descriptions.drop_last(),
        );
        assert(replies.drop_last() =~= seq![counted] + descriptions.drop_last());
        assert(replies.last() == descriptions.last());
    }
}

/// A format is found exactly if its number was described as usable, and it is found as it was
/// described; numbers only grow.
pub proof fn law_native_formats_are_the_usable_ones(replies: Seq<Reply>)
    requires
        replies.len() <= i32::MAX,
    ensures
        forall|format: PixelFormat, id: i32| #[trigger]
            native_formats(replies).contains((format, id)) <==> 0 <= id < replies.len()
                && offered_format(replies[id as int]) == Some(format),
        forall|i: int, j: int|
            0 <= i < j < native_formats(replies).len() ==> native_formats(replies)[i].1
                < native_formats(replies)[j].1,
    decreases replies.len(),
{
    if replies.len() > 0 {
        let front = replies.drop_last();
        law_native_formats_are_the_usable_ones(front);
        let before = native_formats(front);
        let all = native_formats(replies);
        let last = (replies.len() - 1) as i32;
        assert forall|i: int| 0 <= i < before.len() implies before[i].1 < last by {
            assert(before.contains((before[i].0, before[i].1)));
        }
        assert forall|format: PixelFormat, id: i32| #[trigger]
            all.contains((format, id)) <==> 0 <= id < replies.len() && offered_format(
                replies[id as int],
            ) == Some(format) by {
            if all.contains((format, id)) {
                let k = choose|k: int| 0 <= k < all.len() && all[k] == (format, id);
                if k < before.len() {
                    assert(before[k] == (format, id));
                    assert(before.contains((format, id)));
                }
            }
            if 0 <= id < replies.len() && offered_format(replies[id as int]) == Some(format) {
                if id < last {
                    assert(front[id as int] == replies[id as int]);
                    assert(before.contains((format, id)));
                    let k = choose|k: int| 0 <= k < before.len() && before[k] == (format, id);
                    assert(all[k] == (format, id));
                } else {
                    assert(all[before.len() as int] == (format, id));
                }
            }
        }
    }
}

/// A walk asks for the count and then for one description after the other. It ends behind the last
/// one, or at once where there is none, and asks for nothing any more.
pub proof fn law_native_walk_goes_by_its_replies(
    hdc: usize,
    index: i32,
    num: i32,
    value: i32,
    descriptor: PixelFormatDescriptor,
    os_error: String,
    reply: Reply,
)
    requires
        0 <= index < num,
    ensures
        ({
            let count = NativeEnumeration::Count { hdc };
            let describe = NativeEnumeration::Describe { hdc, index, num };
            let counted = count.after(Reply::Code { value, os_error });
            let described = describe.after(Reply::Described { value, descriptor, os_error });
            &&& count.call() == (ActionView::CountPixelFormats { hdc, index: 1 })
            &&& count.accepts(reply) <==> reply is Code
            &&& value > 0 ==> counted == (NativeEnumeration::Describe { hdc, index: 0, num: value })
            &&& value <= 0 ==> counted == NativeEnumeration::Finished
            &&& describe.call() == (ActionView::DescribeCandidate { hdc, index })
            &&& describe.accepts(reply) <==> reply is Described
            &&& index + 1 < num ==> described == (NativeEnumeration::Describe {
                hdc,
                index: (index + 1) as i32,
                num,
            })
            &&& index + 1 == num ==> described == NativeEnumeration::Finished
            &&& NativeEnumeration::Finished.call() == ActionView::Finish
            &&& !NativeEnumeration::Finished.accepts(reply)
        }),
{
}

} // verus!
