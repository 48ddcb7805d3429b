//! Which pixel formats are asked about, and which of them are offered to the choice, told by what
//! the system or the driver said of them.

use vstd::prelude::*;

use crate::arb_formats::driver_format;
use crate::arb_formats::driver_formats;
use crate::arb_formats::is_accelerated;
use crate::arb_formats::ArbEnumeration;
use crate::init::InitView;
use crate::init::StageView;
use crate::laws::law_creation_is_well_formed;
use crate::native_formats::described_format;
use crate::native_formats::is_usable;
use crate::native_formats::offered_format;
use crate::native_formats::NativeEnumeration;
use crate::protocol::ActionView;
use crate::protocol::Reply;
use crate::trace::Past;
use crate::types::BuilderView;
use crate::types::ContextHack;
use crate::types::PixelFormat;
use crate::types::PixelFormatDescriptor;

verus! {

/// The description is one of a format for OpenGL in a window, in red, green and blue, and `format`
/// says of it what the description does.
pub open spec fn tells_of(d: PixelFormatDescriptor, format: PixelFormat) -> bool {
    &&& d.flags & 0x04 != 0
    &&& d.flags & 0x20 != 0
    &&& d.pixel_type == 0
    &&& format.hardware_accelerated <==> d.flags & 0x40 == 0
    &&& format.red_bits == d.red_bits
    &&& format.green_bits == d.green_bits
    &&& format.blue_bits == d.blue_bits
    &&& format.alpha_bits == d.alpha_bits
    &&& format.depth_bits == d.depth_bits
    &&& format.stencil_bits == d.stencil_bits
    &&& format.stereoscopy <==> d.flags & 0x02 != 0
    &&& format.double_buffer <==> d.flags & 0x01 != 0
    &&& format.multisampling is None
    &&& !format.srgb
}

/// The driver has an accelerated format of number `id` for OpenGL in a window, in red, green and
/// blue, and `format` says of it what the driver does.
///
/// `driver(id, attribute)` is what the driver says of an attribute of a format.
pub open spec fn driver_tells_of(
    driver: spec_fn(i32, i32) -> i32,
    id: i32,
    format: PixelFormat,
) -> bool {
    &&& driver(id, 0x2001) != 0
    &&& driver(id, 0x2010) != 0
    &&& driver(id, 0x2003) != 0x2025
    &&& driver(id, 0x2013) == 0x202B
    &&& format.hardware_accelerated
    &&& format.red_bits == driver(id, 0x2015) as u8
    &&& format.green_bits == driver(id, 0x2017) as u8
    &&& format.blue_bits == driver(id, 0x2019) as u8
    &&& format.alpha_bits == driver(id, 0x201B) as u8
    &&& format.depth_bits == driver(id, 0x2022) as u8
    &&& format.stencil_bits == driver(id, 0x2023) as u8
    &&& format.stereoscopy <==> driver(id, 0x2012) != 0
    &&& format.double_buffer <==> driver(id, 0x2011) != 0
    &&& format.multisampling is None
    &&& !format.srgb
}

/// A description is read as the format that it tells of, and only where it tells of a usable one.
pub proof fn law_description_is_read_as_it_is(d: PixelFormatDescriptor, format: PixelFormat)
    ensures
        tells_of(d, format) <==> is_usable(d) && described_format(d) == format,
{
}

/// The format at one place of the calls since the device context was got.
spec fn told_at(since: Seq<(ActionView, Reply)>, id: int, format: PixelFormat) -> bool {
    since[id + 1].1 matches Reply::Described { value, descriptor, .. } && value != 0 && tells_of(
        descriptor,
        format,
    )
}

/// The number of formats that the system gave.
pub open spec fn count_given(since: Seq<(ActionView, Reply)>) -> int {
    match since[0].1 {
        Reply::Code { value, .. } => value as int,
        _ => 0,
    }
}

/// The number of formats that the driver gave.
pub open spec fn driver_count_given(since: Seq<(ActionView, Reply)>) -> u32 {
    match since[0].1 {
        Reply::Attribute { value } => value as u32,
        _ => 0,
    }
}

/// The calls since the device context was got are the one for the count and one for each of the
/// first numbers.
spec fn is_listing(since: Seq<(ActionView, Reply)>, dc: usize) -> bool {
    &&& since.len() > 0
    &&& since[0].0 is CountPixelFormats
    &&& since[0].1 is Code
    &&& forall|j: int|
        1 <= j < since.len() ==> (#[trigger] since[j]).0 == (ActionView::DescribeCandidate {
            hdc: dc,
            index: (j - 1) as i32,
        })
}

spec fn is_what_was_told(found: Seq<(PixelFormat, i32)>, since: Seq<(ActionView, Reply)>) -> bool {
    &&& forall|format: PixelFormat, id: i32| #[trigger]
        found.contains((format, id)) <==> 0 <= id < since.len() - 1 && told_at(
            since,
            id as int,
            format,
        )
    &&& forall|i: int, j: int| 0 <= i < j < found.len() ==> found[i].1 < found[j].1
}

spec fn tracks_native(s: InitView, p: Past) -> bool {
    &&& p.loaded == s.extensions
    &&& s.holding.window matches Some(window) ==> window.1 == p.dc
    &&& match s.stage {
        StageView::NativeFormats(_, NativeEnumeration::Count { .. }) => {
            &&& !p.lists_by_driver()
            &&& p.since.len() == 0
            &&& s.found.len() == 0
        },
        StageView::NativeFormats(_, NativeEnumeration::Describe { index, num, .. }) => {
            &&& !p.lists_by_driver()
            &&& is_listing(p.since, p.dc)
            &&& num == count_given(p.since)
            &&& p.since.len() == index + 1
            &&& is_what_was_told(s.found, p.since)
        },
        StageView::ArbFormats(ArbEnumeration::Count { .. }) => {
            &&& p.lists_by_driver()
            &&& p.since.len() == 0
            &&& s.found.len() == 0
        },
        StageView::ArbFormats(ArbEnumeration::Query { num, .. }) => {
            &&& p.lists_by_driver()
            &&& p.since.len() > 0
            &&& p.since[0].1 is Attribute
            &&& num == driver_count_given(p.since)
        },
        StageView::ChooseFormat(_) => !p.lists_by_driver() ==> {
            &&& is_listing(p.since, p.dc)
            &&& p.since.len() - 1 == if count_given(p.since) > 0 {
                count_given(p.since)
            } else {
                0
            }
            &&& is_what_was_told(s.found, p.since)
        },
        _ => true,
    }
}

proof fn lemma_told_after_one_more(
    found: Seq<(PixelFormat, i32)>,
    since: Seq<(ActionView, Reply)>,
    index: i32,
    call: ActionView,
    reply: Reply,
)
    requires
        is_what_was_told(found, since),
        since.len() == index + 1,
        0 <= index,
        reply is Described,
    ensures
        is_what_was_told(
            match offered_format(reply) {
                Some(format) => found.push((format, index)),
                None => found,
            },
            since.push((call, reply)),
        ),
{
    let more = since.push((call, reply));
    let all = match offered_format(reply) {
        Some(format) => found.push((format, index)),
        None => found,
    };
    assert(more[index + 1] == (call, reply));
    assert forall|i: int| 0 <= i < found.len() implies (#[trigger] found[i]).1 < index by {
        assert(found.contains((found[i].0, found[i].1)));
    }
    assert forall|format: PixelFormat, id: i32| #[trigger]
        all.contains((format, id)) <==> 0 <= id < more.len() - 1 && told_at(
            more,
            id as int,
            format,
        ) by {
        if all.contains((format, id)) {
            let k = choose|k: int| 0 <= k < all.len() && all[k] == (format, id);
            if k < found.len() {
                assert(found[k] == (format, id));
                assert(found.contains((format, id)));
                assert(more[id + 1] == since[id + 1]);
            }
        }
        if 0 <= id < more.len() - 1 && told_at(more, id as int, format) {
            if id < index {
                assert(more[id + 1] == since[id + 1]);
                assert(found.contains((format, id)));
                let k = choose|k: int| 0 <= k < found.len() && found[k] == (format, id);
                assert(all[k] == (format, id));
            } else {
                assert(all[found.len() as int] == (format, id));
            }
        }
    }
}

#[verifier::spinoff_prover]
#[verifier::rlimit(40)]
proof fn lemma_step_tracks_native(s: InitView, p: Past, reply: Reply)
    requires
        s.wf(),
        s.accepts(reply),
        tracks_native(s, p),
    ensures
        tracks_native(s.after(reply), p.then_came(s.call(), reply)),
{
    let next = p.then_came(s.call(), reply);
    match s.stage {
        StageView::NativeFormats(_, NativeEnumeration::Describe { index, .. }) => {
            lemma_told_after_one_more(s.found, p.since, index, s.call(), reply);
            assert(next.since[0] == p.since[0]);
            assert forall|j: int| 1 <= j < next.since.len() implies (#[trigger] next.since[j]).0 == (
            ActionView::DescribeCandidate { hdc: p.dc, index: (j - 1) as i32 }) by {
                if j < p.since.len() {
                    assert(next.since[j] == p.since[j]);
                }
            }
        },
        _ => {},
    }
}

proof fn lemma_run_tracks_native(
    title: Seq<u16>,
    builder: BuilderView,
    share: Option<ContextHack>,
    replies: Seq<Reply>,
)
    requires
        InitView::start(title, builder, share).accepts_all(replies),
    ensures
        InitView::start(title, builder, share).run(replies).wf(),
        tracks_native(
            InitView::start(title, builder, share).run(replies),
            InitView::start(title, builder, share).past(replies),
        ),
    decreases replies.len(),
{
    law_creation_is_well_formed(title, builder, share, replies);
    if replies.len() > 0 {
        let start = InitView::start(title, builder, share);
        let front = replies.drop_last();
        lemma_run_tracks_native(title, builder, share, front);
        lemma_step_tracks_native(start.run(front), start.past(front), replies.last());
    }
}

/// Where the driver does not tell about its formats, the system is asked for the description of
/// every number from zero up to the count that it gave, once and in order, and then the choice is
/// made.
pub proof fn law_system_is_asked_about_every_format(
    title: Seq<u16>,
    builder: BuilderView,
    share: Option<ContextHack>,
    replies: Seq<Reply>,
)
    requires
        InitView::start(title, builder, share).accepts_all(replies),
    ensures
        ({
            let start = InitView::start(title, builder, share);
            let p = start.past(replies);
            match start.run(replies).call() {
                ActionView::CountPixelFormats { index, .. } => {
                    &&& !p.lists_by_driver()
                    &&& index == 1
                    &&& p.since.len() == 0
                },
                ActionView::DescribeCandidate { hdc, index } => {
                    &&& !p.lists_by_driver()
                    &&& hdc == p.dc
                    &&& index == p.since.len() - 1
                    &&& index < count_given(p.since)
                },
                ActionView::ChoosePixelFormat { .. } => !p.lists_by_driver() ==> {
                    &&& p.since.len() > 0
                    &&& p.since.len() - 1 >= count_given(p.since)
                    &&& p.since.len() == 1 || p.since.len() - 1 == count_given(p.since)
                },
                _ => true,
            }
        }),
{
    lemma_run_tracks_native(title, builder, share, replies);
}

/// Where the driver does not tell about its formats, the choice is offered a format under number
/// `id` exactly if the system described that number as a usable format, and then as it was
/// described; the numbers only grow.
pub proof fn law_offers_are_what_the_system_described(
    title: Seq<u16>,
    builder: BuilderView,
    share: Option<ContextHack>,
    replies: Seq<Reply>,
    id: i32,
    format: PixelFormat,
)
    requires
        InitView::start(title, builder, share).accepts_all(replies),
        !InitView::start(title, builder, share).past(replies).lists_by_driver(),
    ensures
        ({
            let start = InitView::start(title, builder, share);
            let p = start.past(replies);
            start.run(replies).call() matches ActionView::ChoosePixelFormat { candidates } ==> {
                &&& candidates.contains((id, format)) <==> {
                    &&& 0 <= id < p.since.len() - 1
                    &&& p.since[id + 1].0 == (ActionView::DescribeCandidate {
                        hdc: p.dc,
                        index: id,
                    })
                    &&& p.since[id + 1].1 matches Reply::Described { value, descriptor, .. }
                    &&& value != 0
                    &&& tells_of(descriptor, format)
                }
                &&& forall|i: int, j: int|
                    0 <= i < j < candidates.len() ==> candidates[i].0 < candidates[j].0
            }
        }),
{
    lemma_run_tracks_native(title, builder, share, replies);
    let start = InitView::start(title, builder, share);
    let s = start.run(replies);
    let p = start.past(replies);
    if let ActionView::ChoosePixelFormat { candidates } = s.call() {
        lemma_numbers_go_first(s.found, candidates, id, format);
        if 0 <= id < p.since.len() - 1 {
            assert(p.since[id + 1].0 == (ActionView::DescribeCandidate { hdc: p.dc, index: id }));
        }
    }
}

proof fn lemma_numbers_go_first(
    found: Seq<(PixelFormat, i32)>,
    candidates: Seq<(i32, PixelFormat)>,
    id: i32,
    format: PixelFormat,
)
    requires
        candidates == crate::init::numbered(found),
    ensures
        candidates.contains((id, format)) <==> found.contains((format, id)),
        candidates.len() == found.len(),
        forall|i: int| 0 <= i < found.len() ==> (#[trigger] candidates[i]).0 == found[i].1,
{
    if candidates.contains((id, format)) {
        let k = choose|k: int| 0 <= k < candidates.len() && candidates[k] == (id, format);
        assert(found[k] == (format, id));
    }
    if found.contains((format, id)) {
        let k = choose|k: int| 0 <= k < found.len() && found[k] == (format, id);
        assert(candidates[k] == (id, format));
    }
}

/// Every question about a format was answered as `driver` says.
pub open spec fn is_answered_by(
    since: Seq<(ActionView, Reply)>,
    driver: spec_fn(i32, i32) -> i32,
) -> bool {
    forall|j: int|
        0 <= j < since.len() ==> match #[trigger] since[j] {
            (
                ActionView::QueryAttribute { index, attribute, .. },
                Reply::Attribute { value },
            ) => value == driver(index, attribute),
            _ => true,
        }
}

spec fn unsigned(driver: spec_fn(i32, i32) -> i32) -> spec_fn(u32, u32) -> i32 {
    |index: u32, attribute: u32| driver(index as i32, attribute as i32)
}

spec fn tracks_driver(s: InitView, p: Past, driver: spec_fn(i32, i32) -> i32) -> bool {
    is_answered_by(p.since, driver) ==> match s.stage {
        StageView::ArbFormats(walk) => walk.on_the_way(
            s.found,
            unsigned(driver),
            0xD_0000_0000 - p.since.len(),
        ),
        StageView::ChooseFormat(_) => p.lists_by_driver() ==> s.found == driver_formats(
            unsigned(driver),
            driver(1, 0x2000) as u32,
        ),
        _ => true,
    }
}

proof fn lemma_step_tracks_driver(
    s: InitView,
    p: Past,
    reply: Reply,
    driver: spec_fn(i32, i32) -> i32,
)
    requires
        s.wf(),
        s.accepts(reply),
        tracks_native(s, p),
        tracks_native(s.after(reply), p.then_came(s.call(), reply)),
        tracks_driver(s, p, driver),
    ensures
        tracks_driver(s.after(reply), p.then_came(s.call(), reply), driver),
{
    let next = p.then_came(s.call(), reply);
    if let StageView::ArbFormats(walk) = s.stage {
        if is_answered_by(next.since, driver) {
            assert forall|j: int| 0 <= j < p.since.len() implies match #[trigger] p.since[j] {
                (
                    ActionView::QueryAttribute { index, attribute, .. },
                    Reply::Attribute { value },
                ) => value == driver(index, attribute),
                _ => true,
            } by {
                assert(next.since[j] == p.since[j]);
            }
            let last = next.since[p.since.len() as int];
            assert(last == (s.call(), reply));
            assert(reply == walk.answer(unsigned(driver)));
            walk.lemma_step_stays_on_the_way(
                s.found,
                unsigned(driver),
                0xD_0000_0000 - p.since.len(),
            );
        }
    }
}

proof fn lemma_run_tracks_driver(
    title: Seq<u16>,
    builder: BuilderView,
    share: Option<ContextHack>,
    replies: Seq<Reply>,
    driver: spec_fn(i32, i32) -> i32,
)
    requires
        InitView::start(title, builder, share).accepts_all(replies),
    ensures
        tracks_driver(
            InitView::start(title, builder, share).run(replies),
            InitView::start(title, builder, share).past(replies),
            driver,
        ),
    decreases replies.len(),
{
    if replies.len() > 0 {
        let start = InitView::start(title, builder, share);
        let front = replies.drop_last();
        lemma_run_tracks_driver(title, builder, share, front, driver);
        lemma_run_tracks_native(title, builder, share, front);
        lemma_run_tracks_native(title, builder, share, replies);
        lemma_step_tracks_driver(start.run(front), start.past(front), replies.last(), driver);
    }
}

proof fn lemma_casts()
    ensures
        forall|v: u32| #[trigger] ((v as i32) as u32) == v,
        forall|v: i32| #[trigger] ((v as u32) as i32) == v,
        forall|v: i32| #[trigger] ((v as u32) as u8) == (v as u8),
        forall|v: i32| (#[trigger] (v as u32)) == 0 <==> v == 0,
{
    assert(forall|v: u32| #[trigger] ((v as i32) as u32) == v) by (bit_vector);
    assert(forall|v: i32| #[trigger] ((v as u32) as i32) == v) by (bit_vector);
    assert(forall|v: i32| #[trigger] ((v as u32) as u8) == (v as u8)) by (bit_vector);
    assert(forall|v: i32| (#[trigger] (v as u32)) == 0 <==> v == 0) by (bit_vector);
}

proof fn lemma_driver_format(driver: spec_fn(i32, i32) -> i32, index: u32, format: PixelFormat)
    ensures
        driver_tells_of(driver, index as i32, format) <==> is_accelerated(unsigned(driver), index)
            && driver_format(unsigned(driver), index) == format,
{
    lemma_casts();
    let id = index as i32;
    let acceleration = driver(id, 0x2003);
    let pixel_type = driver(id, 0x2013);
    assert((acceleration as u32) == 0x2025 <==> acceleration == 0x2025) by (bit_vector);
    assert((pixel_type as u32) == 0x202B <==> pixel_type == 0x202B) by (bit_vector);
}

proof fn lemma_driver_formats(driver: spec_fn(i32, i32) -> i32, num: u32)
    ensures
        ({
            let all = driver_formats(unsigned(driver), num);
            &&& forall|format: PixelFormat, id: i32| #[trigger]
                all.contains((format, id)) <==> (id as u32) < num && driver_tells_of(
                    driver,
                    id,
                    format,
                )
            &&& forall|i: int, j: int|
                0 <= i < j < all.len() ==> (all[i].1 as u32) < (all[j].1 as u32)
        }),
    decreases num,
{
    lemma_casts();
    if num > 0 {
        let last = (num - 1) as u32;
        let before = driver_formats(unsigned(driver), last);
        let all = driver_formats(unsigned(driver), num);
        lemma_driver_formats(driver, last);
        assert forall|i: int| 0 <= i < before.len() implies ((#[trigger] before[i]).1 as u32)
            < last by {
            assert(before.contains((before[i].0, before[i].1)));
        }
        assert forall|format: PixelFormat, id: i32| #[trigger]
            all.contains((format, id)) <==> (id as u32) < num && driver_tells_of(
                driver,
                id,
                format,
            ) by {
            lemma_driver_format(driver, last, format);
            if all.contains((format, id)) {
                let k = choose|k: int| 0 <= k < all.len() && all[k] == (format, id);
                if k < before.len() {
                    assert(before[k] == (format, id));
                    assert(before.contains((format, id)));
                }
            }
            if (id as u32) < num && driver_tells_of(driver, id, format) {
                if (id as u32) < last {
                    assert(before.contains((format, id)));
                    let k = choose|k: int| 0 <= k < before.len() && before[k] == (format, id);
                    assert(all[k] == (format, id));
                } else {
                    assert(id as u32 == last);
                    assert(((id as u32) as i32) == id);
                    assert(id == last as i32);
                    assert(all[before.len() as int] == (format, id));
                }
            }
        }
        assert(((last as i32) as u32) == last);
    }
}

/// Where the driver tells about its formats, the choice is offered a format under number `id`
/// exactly if the driver counts it among its formats and tells of it as accelerated and usable,
/// and then with the bits that the driver replied for each of its attributes; the numbers only
/// grow.
///
/// `driver` stands for whatever the driver replied.
pub proof fn law_offers_are_what_the_driver_replied(
    title: Seq<u16>,
    builder: BuilderView,
    share: Option<ContextHack>,
    replies: Seq<Reply>,
    driver: spec_fn(i32, i32) -> i32,
    id: i32,
    format: PixelFormat,
)
    requires
        InitView::start(title, builder, share).accepts_all(replies),
        InitView::start(title, builder, share).past(replies).lists_by_driver(),
        is_answered_by(InitView::start(title, builder, share).past(replies).since, driver),
    ensures
        InitView::start(title, builder, share).run(replies).call()
            matches ActionView::ChoosePixelFormat { candidates } ==> {
            &&& candidates.contains((id, format)) <==> {
                &&& (id as u32) < (driver(1, 0x2000) as u32)
                &&& driver_tells_of(driver, id, format)
            }
            &&& forall|i: int, j: int|
                0 <= i < j < candidates.len() ==> (candidates[i].0 as u32) < (
                candidates[j].0 as u32)
        },
{
    lemma_run_tracks_native(title, builder, share, replies);
    lemma_run_tracks_driver(title, builder, share, replies, driver);
    lemma_driver_formats(driver, driver(1, 0x2000) as u32);
    let s = InitView::start(title, builder, share).run(replies);
    if let ActionView::ChoosePixelFormat { candidates } = s.call() {
        lemma_numbers_go_first(s.found, candidates, id, format);
    }
}

/// The attribute that is asked for behind `attribute`, where there is one.
pub open spec fn attribute_after(attribute: int) -> Option<int> {
    if attribute == 0x2001 {
        Some(0x2010)
    } else if attribute == 0x2010 {
        Some(0x2003)
    } else if attribute == 0x2003 {
        Some(0x2013)
    } else if attribute == 0x2013 {
        Some(0x2015)
    } else if attribute == 0x2015 {
        Some(0x2017)
    } else if attribute == 0x2017 {
        Some(0x2019)
    } else if attribute == 0x2019 {
        Some(0x201B)
    } else if attribute == 0x201B {
        Some(0x2022)
    } else if attribute == 0x2022 {
        Some(0x2023)
    } else if attribute == 0x2023 {
        Some(0x2012)
    } else if attribute == 0x2012 {
        Some(0x2011)
    } else {
        None
    }
}

/// A format with this value of the attribute is not asked about any more.
pub open spec fn ends_the_questions(attribute: int, value: i32) -> bool {
    ||| attribute == 0x2001 && value == 0
    ||| attribute == 0x2010 && value == 0
    ||| attribute == 0x2003 && value == 0x2025
    ||| attribute == 0x2013 && value != 0x202B
    ||| attribute_after(attribute) is None
}

/// `next` is the call that has to come behind the question `call`, which the driver answers with
/// `value`; `since` are the calls since the device context was got, without this one.
pub open spec fn is_next_question(
    since: Seq<(ActionView, Reply)>,
    call: ActionView,
    value: i32,
    next: ActionView,
) -> bool {
    call matches ActionView::QueryAttribute { hdc, index, attribute, .. } ==> {
        let ask = |index: u32, attribute: int| ActionView::QueryAttribute {
            hdc,
            index: index as i32,
            layer: 0,
            attribute: attribute as i32,
        };
        &&& since.len() == 0 <==> attribute == 0x2000
        &&& if since.len() == 0 {
            &&& index == 1
            &&& if value as u32 > 0 {
                next == ask(0, 0x2001)
            } else {
                next is ChoosePixelFormat
            }
        } else if !ends_the_questions(attribute as int, value) {
            next == ask(index as u32, attribute_after(attribute as int)->Some_0)
        } else if (index as u32) + 1 < driver_count_given(since) {
            next == ask(((index as u32) + 1) as u32, 0x2001)
        } else {
            next is ChoosePixelFormat
        }
    }
}

#[verifier::spinoff_prover]
#[verifier::rlimit(40)]
proof fn lemma_next_question(s: InitView, p: Past, value: i32)
    requires
        s.wf(),
        tracks_native(s, p),
    ensures
        s.call() is QueryAttribute ==> p.lists_by_driver(),
        is_next_question(p.since, s.call(), value, s.after(Reply::Attribute { value }).call()),
{
    lemma_casts();
    assert((value as u32) == 0x2025 <==> value == 0x2025) by (bit_vector);
    assert((value as u32) == 0x202B <==> value == 0x202B) by (bit_vector);
    if let StageView::ArbFormats(ArbEnumeration::Query { index, .. }) = s.stage {
        assert(((index as i32) as u32) == index);
    }
}

/// The driver is asked for its count, and then about its formats from zero on, one by one: for
/// their attributes in order, up to the first that is of no use.
pub proof fn law_driver_is_asked_about_every_format(
    title: Seq<u16>,
    builder: BuilderView,
    share: Option<ContextHack>,
    replies: Seq<Reply>,
    value: i32,
)
    requires
        InitView::start(title, builder, share).accepts_all(replies),
    ensures
        ({
            let start = InitView::start(title, builder, share);
            let s = start.run(replies);
            let p = start.past(replies);
            &&& s.call() is QueryAttribute ==> p.lists_by_driver()
            &&& is_next_question(
                p.since,
                s.call(),
                value,
                s.after(Reply::Attribute { value }).call(),
            )
        }),
{
    lemma_run_tracks_native(title, builder, share, replies);
    let start = InitView::start(title, builder, share);
    lemma_next_question(start.run(replies), start.past(replies), value);
}

} // verus!
