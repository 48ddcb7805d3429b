//! What a creation asks of the system, told by what went before: by the request, by the calls
//! that were made and by what they gave back.

use vstd::prelude::*;

use crate::context::asks_for;
use crate::context::attributes_of;
use crate::context::law_attributes_ask_for_the_version;
use crate::context::ContextCreationView;
use crate::init::InitView;
use crate::init::Refusal;
use crate::init::StageView;
use crate::laws::entered;
use crate::laws::failure_of;
use crate::laws::law_creation_is_well_formed;
use crate::pixel_format::FormatSetting;
use crate::protocol::ActionView;
use crate::protocol::DisplaySettings;
use crate::protocol::Placement;
use crate::protocol::Reply;
use crate::protocol::Resource;
use crate::text::wide;
use crate::types::Api;
use crate::types::BuilderView;
use crate::types::ContextHack;
use crate::types::ContextWrapper;
use crate::types::Extensions;
use crate::types::Failure;
use crate::types::GlRequest;
use crate::types::PixelFormatDescriptor;
use crate::types::Rect;
use crate::types::Window;
use crate::types::WindowWrapper;

verus! {

/// What the calls of a creation have given back so far.
pub struct Past {
    /// The rectangle that the system gave back.
    pub adjusted: Option<Rect>,
    /// The window that was created last, and its device context.
    pub window: usize,
    pub dc: usize,
    /// The format that was chosen last, and the description of a format that was given last.
    pub chosen: i32,
    pub described: Option<PixelFormatDescriptor>,
    /// The context that was created last.
    pub context: usize,
    /// The extra functions that were found.
    pub loaded: Option<Extensions>,
    pub library: usize,
    /// The driver was told how long to wait for the screen.
    pub swapped: bool,
    pub failure: Option<Failure>,
    /// What was acquired and not given back.
    pub held: Seq<Resource>,
    /// The calls since the last device context was got, with their replies.
    pub since: Seq<(ActionView, Reply)>,
}

impl Past {
    /// Nothing has been asked yet.
    pub open spec fn none() -> Past {
        Past {
            adjusted: None,
            window: 0,
            dc: 0,
            chosen: 0,
            described: None,
            context: 0,
            loaded: None,
            library: 0,
            swapped: false,
            failure: None,
            held: Seq::empty(),
            since: Seq::empty(),
        }
    }

    /// The past behind one more call.
    pub open spec fn then_came(self, call: ActionView, reply: Reply) -> Past {
        let next = Past {
            failure: match failure_of(call, reply) {
                Some(failure) => Some(failure),
                None => self.failure,
            },
            held: entered(self.held, call, reply),
            since: self.since.push((call, reply)),
            ..self
        };
        match (call, reply) {
            (ActionView::AdjustWindowRect { .. }, Reply::Adjusted(rect)) => Past {
                adjusted: Some(rect),
                ..next
            },
            (ActionView::CreateWindow { .. }, Reply::Handle { value, .. }) => Past {
                window: value,
                ..next
            },
            (ActionView::GetDc { .. }, Reply::Handle { value, .. }) => Past {
                dc: value,
                since: Seq::empty(),
                ..next
            },
            (ActionView::ChoosePixelFormat { .. }, Reply::Chosen { id }) => Past {
                chosen: id,
                ..next
            },
            (ActionView::DescribeChosen { .. }, Reply::Described { descriptor, .. }) => Past {
                described: Some(descriptor),
                ..next
            },
            (ActionView::CreateContext { .. }, Reply::Handle { value, .. }) => Past {
                context: value,
                ..next
            },
            (ActionView::CreateContextAttribs { .. }, Reply::Handle { value, .. }) => Past {
                context: value,
                ..next
            },
            (ActionView::LoadExtensions, Reply::Loaded(extensions)) => Past {
                loaded: Some(extensions),
                ..next
            },
            (ActionView::LoadLibrary { .. }, Reply::Handle { value, .. }) => Past {
                library: value,
                ..next
            },
            (ActionView::SwapInterval { .. }, _) => Past { swapped: true, ..next },
            _ => next,
        }
    }

    /// The driver's own function for creating a context was found.
    pub open spec fn creates_with_attributes(self) -> bool {
        self.loaded matches Some(extensions) && extensions.create_context_attribs_arb
    }

    /// The driver tells about its pixel formats.
    pub open spec fn lists_by_driver(self) -> bool {
        self.loaded matches Some(extensions) && extensions.get_pixel_format_attribiv_arb
    }

    /// The driver can be told how long to wait for the screen.
    pub open spec fn can_swap(self) -> bool {
        self.loaded matches Some(extensions) && extensions.swap_interval_ext
    }
}

impl InitView {
    /// What the calls that `replies` are the replies to have given back.
    pub open spec fn past(self, replies: Seq<Reply>) -> Past
        decreases replies.len(),
    {
        if replies.len() == 0 {
            Past::none()
        } else {
            self.past(replies.drop_last()).then_came(
                self.run(replies.drop_last()).call(),
                replies.last(),
            )
        }
    }
}

/// The width and the height that are asked for; 1024 and 768 where none are.
pub open spec fn size_asked_for(builder: BuilderView) -> (u32, u32) {
    match builder.dimensions {
        Some(size) => size,
        None => (1024, 768),
    }
}

/// The place that is asked for: that of the monitor, or the origin.
pub open spec fn place_asked_for(builder: BuilderView) -> (i32, i32) {
    match builder.monitor {
        Some(monitor) => (monitor.position.0 as i32, monitor.position.1 as i32),
        None => (0, 0),
    }
}

/// The rectangle lies at the place and has the size that are asked for.
pub open spec fn is_asked_for(builder: BuilderView, rect: Rect) -> bool {
    let size = size_asked_for(builder);
    let place = place_asked_for(builder);
    &&& rect.left == place.0
    &&& rect.top == place.1
    &&& rect.right - rect.left == size.0 as i32
    &&& rect.bottom - rect.top == size.1 as i32
}

/// The context whose objects the new one is to share; zero where there is none.
pub open spec fn share_asked_for(share: Option<ContextHack>) -> usize {
    match share {
        Some(hack) => hack.0,
        None => 0,
    }
}

/// The rectangle can be measured with signed numbers of 32 bits.
pub open spec fn has_a_size(rect: Rect) -> bool {
    &&& -0x8000_0000 <= rect.right - rect.left <= 0x7FFF_FFFF
    &&& -0x8000_0000 <= rect.bottom - rect.top <= 0x7FFF_FFFF
}

spec fn tracks_handles(s: InitView, p: Past) -> bool {
    &&& p.loaded == s.extensions
    &&& s.holding.window matches Some(window) ==> window == WindowWrapper(p.window, p.dc)
    &&& s.holding.context matches Some(context) ==> context == ContextWrapper(p.context)
    &&& match s.stage {
        StageView::GetDc(_, handle) => handle == p.window,
        StageView::SetFormat(_, FormatSetting::Describe { id, .. }) => id == p.chosen,
        StageView::SetFormat(_, FormatSetting::Apply { id, descriptor, .. }) => id == p.chosen
            && p.described == Some(descriptor),
        StageView::CreateContext(_, ContextCreationView::Share { context, .. }) => context
            == p.context,
        StageView::MakeCurrent(library) => library == p.library,
        StageView::SwapInterval(library) => library == p.library,
        StageView::ReleaseCurrent(library) => library == p.library,
        StageView::Ready(library) => library == p.library,
        _ => true,
    }
}

spec fn tracks_rect(s: InitView, p: Past) -> bool {
    match s.stage {
        StageView::RegisterClass => {
            &&& p.adjusted is None
            &&& s.rect.left == 0
            &&& s.rect.top == 0
            &&& s.rect.right == size_asked_for(s.builder).0 as i32
            &&& s.rect.bottom == size_asked_for(s.builder).1 as i32
        },
        StageView::ChangeDisplaySettings(settings) => {
            &&& p.adjusted is None
            &&& is_asked_for(s.builder, s.rect)
            &&& settings.pels_width == size_asked_for(s.builder).0
            &&& settings.pels_height == size_asked_for(s.builder).1
            &&& settings.bits_per_pel == 32
            &&& settings.fields == 0x001C_0000
        },
        StageView::AdjustRect => p.adjusted is None && is_asked_for(s.builder, s.rect),
        StageView::Failed(_) => true,
        _ => p.adjusted == Some(s.rect),
    }
}

spec fn tracks_context(s: InitView, p: Past) -> bool {
    let share = share_asked_for(s.share);
    match s.stage {
        StageView::CreateContext(
            role,
            ContextCreationView::WithAttributes { share: given, attributes, .. },
        ) => {
            &&& p.creates_with_attributes()
            &&& given == share
            &&& attributes == attributes_of(s.builder.gl_version, s.builder.gl_debug)
        },
        StageView::CreateContext(role, ContextCreationView::Plain { share: given, .. }) => {
            &&& !p.creates_with_attributes()
            &&& given == if p.loaded is None {
                0
            } else {
                share
            }
        },
        StageView::CreateContext(role, ContextCreationView::Share { share: given, .. }) => {
            &&& !p.creates_with_attributes()
            &&& p.loaded is Some
            &&& given == share
            &&& share != 0
        },
        _ => true,
    }
}

spec fn tracks_end(s: InitView, p: Past) -> bool {
    let swaps = s.builder.vsync && p.can_swap();
    &&& p.held == s.resources()
    &&& match s.stage {
        StageView::Failed(failure) => p.failure == Some(failure),
        _ => p.failure is None,
    }
    &&& match s.stage {
        StageView::Failed(_) => true,
        StageView::MakeCurrent(_) => swaps && !p.swapped,
        StageView::SwapInterval(_) => swaps && !p.swapped,
        StageView::ReleaseCurrent(_) => swaps && p.swapped,
        StageView::Ready(_) => p.swapped == swaps,
        _ => !p.swapped,
    }
}

proof fn lemma_step_tracks_handles(s: InitView, p: Past, reply: Reply)
    requires
        s.wf(),
        s.accepts(reply),
        tracks_handles(s, p),
    ensures
        tracks_handles(s.after(reply), p.then_came(s.call(), reply)),
{
}

proof fn lemma_step_tracks_rect(s: InitView, p: Past, reply: Reply)
    requires
        s.wf(),
        s.accepts(reply),
        tracks_rect(s, p),
    ensures
        tracks_rect(s.after(reply), p.then_came(s.call(), reply)),
{
    let size = size_asked_for(s.builder);
    let (w, h) = size;
    assert((w as i32) as u32 == w) by (bit_vector);
    assert((h as i32) as u32 == h) by (bit_vector);
    assert(0x0004_0000u32 | 0x0008_0000u32 | 0x0010_0000u32 == 0x001C_0000u32) by (bit_vector);
}

proof fn lemma_step_tracks_context(s: InitView, p: Past, reply: Reply)
    requires
        s.wf(),
        s.accepts(reply),
        tracks_handles(s, p),
        tracks_context(s, p),
    ensures
        tracks_context(s.after(reply), p.then_came(s.call(), reply)),
{
}

#[verifier::spinoff_prover]
#[verifier::rlimit(40)]
proof fn lemma_step_tracks_end(s: InitView, p: Past, reply: Reply)
    requires
        s.wf(),
        s.accepts(reply),
        tracks_handles(s, p),
        tracks_end(s, p),
    ensures
        tracks_end(s.after(reply), p.then_came(s.call(), reply)),
{
    let after = s.after(reply).resources();
    let wanted = entered(s.resources(), s.call(), reply);
    assert(after =~= wanted);
}

proof fn lemma_run_is_tracked(
    title: Seq<u16>,
    builder: BuilderView,
    share: Option<ContextHack>,
    replies: Seq<Reply>,
)
    requires
        InitView::start(title, builder, share).accepts_all(replies),
    ensures
        ({
            let start = InitView::start(title, builder, share);
            let s = start.run(replies);
            let p = start.past(replies);
            &&& s.wf()
            &&& s.title == title
            &&& s.builder == builder
            &&& s.share == share
            &&& tracks_handles(s, p)
            &&& tracks_rect(s, p)
            &&& tracks_context(s, p)
            &&& tracks_end(s, p)
        }),
    decreases replies.len(),
{
    let start = InitView::start(title, builder, share);
    law_creation_is_well_formed(title, builder, share, replies);
    if replies.len() == 0 {
        assert(start.resources() =~= Seq::empty());
    } else {
        let front = replies.drop_last();
        lemma_run_is_tracked(title, builder, share, front);
        lemma_step_tracks_handles(start.run(front), start.past(front), replies.last());
        lemma_step_tracks_rect(start.run(front), start.past(front), replies.last());
        lemma_step_tracks_context(start.run(front), start.past(front), replies.last());
        lemma_step_tracks_end(start.run(front), start.past(front), replies.last());
    }
}

/// Each call is asked for when the replies to all calls before it are in.
pub proof fn law_calls_are_made_in_turn(s: InitView, replies: Seq<Reply>, i: int)
    requires
        0 <= i < replies.len(),
    ensures
        s.calls(replies).len() == replies.len(),
        s.calls(replies)[i] == s.run(replies.take(i)).call(),
        s.accepts_all(replies) ==> s.accepts_all(replies.take(i)),
    decreases replies.len(),
{
    let front = replies.drop_last();
    if i < front.len() {
        law_calls_are_made_in_turn(s, front, i);
        assert(front.take(i) =~= replies.take(i));
    } else {
        assert(replies.take(i) =~= front);
        if front.len() > 0 {
            law_calls_are_made_in_turn(s, front, 0);
        }
        assert(s.calls(front).len() == front.len());
    }
}

/// The class that is registered redraws its windows on every change of size, gives each a device
/// context of its own, and has the name that the windows are then created with.
pub proof fn law_windows_have_the_class_that_is_registered(
    title: Seq<u16>,
    builder: BuilderView,
    share: Option<ContextHack>,
    replies: Seq<Reply>,
)
    requires
        InitView::start(title, builder, share).accepts_all(replies),
    ensures
        ({
            let start = InitView::start(title, builder, share);
            let name = wide("Window Class"@);
            &&& start.call() == (ActionView::RegisterClass {
                style: 0x0023,
                cls_extra: 0,
                wnd_extra: 0,
                class_name: name,
            })
            &&& start.run(replies).call() matches ActionView::RegisterClass { .. }
                ==> start.run(replies).call() == start.call()
            &&& start.run(replies).call() matches ActionView::CreateWindow { class_name, .. }
                ==> class_name == name
        }),
{
    lemma_run_is_tracked(title, builder, share, replies);
    assert(0x0002u32 | 0x0001u32 | 0x0020u32 == 0x0023u32) by (bit_vector);
}

/// The monitor that is asked for, and no other, is given a mode of the size that is asked for, for
/// as long as the window is there.
pub proof fn law_monitor_gets_the_size_asked_for(
    title: Seq<u16>,
    builder: BuilderView,
    share: Option<ContextHack>,
    replies: Seq<Reply>,
)
    requires
        InitView::start(title, builder, share).accepts_all(replies),
    ensures
        ({
            let call = InitView::start(title, builder, share).run(replies).call();
            call matches ActionView::ChangeDisplaySettings { adapter_name, settings, flags } ==> {
                &&& builder.monitor matches Some(monitor)
                &&& adapter_name == monitor.adapter_name
                &&& settings == (DisplaySettings {
                    pels_width: size_asked_for(builder).0,
                    pels_height: size_asked_for(builder).1,
                    bits_per_pel: 32,
                    fields: 0x001C_0000,
                })
                &&& flags == 4
            }
        }),
{
    lemma_run_is_tracked(title, builder, share, replies);
}

/// The style without visibility: a bare window over a monitor, one with a frame on the desktop.
pub open spec fn plain_style(builder: BuilderView) -> u32 {
    if builder.monitor is Some {
        0x8600_0000
    } else {
        0x06CF_0000
    }
}

/// The extended style: on the taskbar, with a raised edge on the desktop.
pub open spec fn plain_ex_style(builder: BuilderView) -> u32 {
    if builder.monitor is Some {
        0x0004_0000
    } else {
        0x0004_0100
    }
}

proof fn lemma_style_bits()
    ensures
        0x8000_0000u32 | 0x0400_0000u32 | 0x0200_0000u32 == 0x8600_0000u32,
        0x00CF_0000u32 | 0x0400_0000u32 | 0x0200_0000u32 == 0x06CF_0000u32,
        0x0004_0000u32 | 0x0000_0100u32 == 0x0004_0100u32,
        0x8600_0000u32 | 0x1000_0000u32 == 0x9600_0000u32,
        0x06CF_0000u32 | 0x1000_0000u32 == 0x16CF_0000u32,
        0x8600_0000u32 | 0x0400_0000u32 | 0x0200_0000u32 == 0x8600_0000u32,
        0x06CF_0000u32 | 0x0400_0000u32 | 0x0200_0000u32 == 0x06CF_0000u32,
        0x9600_0000u32 | 0x0400_0000u32 | 0x0200_0000u32 == 0x9600_0000u32,
        0x16CF_0000u32 | 0x0400_0000u32 | 0x0200_0000u32 == 0x16CF_0000u32,
{
    assert(0x8000_0000u32 | 0x0400_0000u32 | 0x0200_0000u32 == 0x8600_0000u32) by (bit_vector);
    assert(0x00CF_0000u32 | 0x0400_0000u32 | 0x0200_0000u32 == 0x06CF_0000u32) by (bit_vector);
    assert(0x0004_0000u32 | 0x0000_0100u32 == 0x0004_0100u32) by (bit_vector);
    assert(0x8600_0000u32 | 0x1000_0000u32 == 0x9600_0000u32) by (bit_vector);
    assert(0x06CF_0000u32 | 0x1000_0000u32 == 0x16CF_0000u32) by (bit_vector);
    assert(0x8600_0000u32 | 0x0400_0000u32 | 0x0200_0000u32 == 0x8600_0000u32) by (bit_vector);
    assert(0x06CF_0000u32 | 0x0400_0000u32 | 0x0200_0000u32 == 0x06CF_0000u32) by (bit_vector);
    assert(0x9600_0000u32 | 0x0400_0000u32 | 0x0200_0000u32 == 0x9600_0000u32) by (bit_vector);
    assert(0x16CF_0000u32 | 0x0400_0000u32 | 0x0200_0000u32 == 0x16CF_0000u32) by (bit_vector);
}

/// The system is asked what borders do to a rectangle of the size that is asked for, at the place
/// that is asked for, for a window without a menu and with the styles that the windows will have.
pub proof fn law_borders_are_asked_for_the_right_rect(
    title: Seq<u16>,
    builder: BuilderView,
    share: Option<ContextHack>,
    replies: Seq<Reply>,
)
    requires
        InitView::start(title, builder, share).accepts_all(replies),
    ensures
        ({
            let call = InitView::start(title, builder, share).run(replies).call();
            call matches ActionView::AdjustWindowRect { rect, style, menu, ex_style } ==> {
                &&& is_asked_for(builder, rect)
                &&& style == plain_style(builder)
                &&& menu == 0
                &&& ex_style == plain_ex_style(builder)
            }
        }),
{
    lemma_run_is_tracked(title, builder, share, replies);
    lemma_style_bits();
}

/// Both windows have the title and the styles that are asked for. The one that is made before the
/// extra functions are known is never visible; the other is visible exactly if it is asked to be
/// and not headless.
pub proof fn law_windows_have_the_title_and_the_styles_asked_for(
    title: Seq<u16>,
    builder: BuilderView,
    share: Option<ContextHack>,
    replies: Seq<Reply>,
)
    requires
        InitView::start(title, builder, share).accepts_all(replies),
    ensures
        ({
            let start = InitView::start(title, builder, share);
            let p = start.past(replies);
            start.run(replies).call() matches ActionView::CreateWindow {
                ex_style,
                title: given,
                style,
                ..
            } ==> {
                &&& given == title
                &&& ex_style == plain_ex_style(builder)
                &&& style == if p.loaded is Some && builder.visible && !builder.headless {
                    (plain_style(builder) + 0x1000_0000) as u32
                } else {
                    plain_style(builder)
                }
            }
        }),
{
    lemma_run_is_tracked(title, builder, share, replies);
    lemma_style_bits();
}

/// A window is placed by the rectangle that the system gave back. Over a monitor the window of
/// the caller has its place and its size; on the desktop it is put anywhere, with the size of the
/// rectangle only if a size was asked for. The other window is put anywhere, with the size of the
/// rectangle.
pub proof fn law_windows_are_placed_by_the_adjusted_rect(
    title: Seq<u16>,
    builder: BuilderView,
    share: Option<ContextHack>,
    replies: Seq<Reply>,
)
    requires
        InitView::start(title, builder, share).accepts_all(replies),
    ensures
        ({
            let start = InitView::start(title, builder, share);
            let p = start.past(replies);
            let anywhere = -0x8000_0000;
            start.run(replies).call() matches ActionView::CreateWindow { placement, .. } ==> {
                &&& p.adjusted matches Some(rect)
                &&& p.loaded is Some && builder.monitor is Some ==> {
                    &&& placement.x == rect.left
                    &&& placement.y == rect.top
                }
                &&& p.loaded is None || builder.monitor is None ==> {
                    &&& placement.x == anywhere
                    &&& placement.y == anywhere
                }
                &&& p.loaded is None || builder.monitor is Some || builder.dimensions is Some ==> {
                    &&& placement.width == rect.right - rect.left
                    &&& placement.height == rect.bottom - rect.top
                }
                &&& p.loaded is Some && builder.monitor is None && builder.dimensions is None ==> {
                    &&& placement.width == anywhere
                    &&& placement.height == anywhere
                }
            }
        }),
{
    lemma_run_is_tracked(title, builder, share, replies);
}

/// Where the system adds no borders to it, the window over a monitor has the monitor's place and
/// the size that is asked for.
pub proof fn law_borderless_window_covers_the_monitor(
    title: Seq<u16>,
    builder: BuilderView,
    share: Option<ContextHack>,
    replies: Seq<Reply>,
)
    requires
        InitView::start(title, builder, share).accepts_all(replies),
        builder.monitor is Some,
        InitView::start(title, builder, share).past(replies).loaded is Some,
        InitView::start(title, builder, share).past(replies).adjusted matches Some(rect)
            && is_asked_for(builder, rect),
    ensures
        InitView::start(title, builder, share).run(replies).call()
            matches ActionView::CreateWindow { placement, .. } ==> placement == (Placement {
            x: builder.monitor->Some_0.position.0 as i32,
            y: builder.monitor->Some_0.position.1 as i32,
            width: size_asked_for(builder).0 as i32,
            height: size_asked_for(builder).1 as i32,
        }),
{
    lemma_run_is_tracked(title, builder, share, replies);
}

/// Every call about a window, its device context or its context is about those that were created
/// last.
pub proof fn law_calls_are_about_the_window_being_made(
    title: Seq<u16>,
    builder: BuilderView,
    share: Option<ContextHack>,
    replies: Seq<Reply>,
)
    requires
        InitView::start(title, builder, share).accepts_all(replies),
    ensures
        ({
            let start = InitView::start(title, builder, share);
            let p = start.past(replies);
            match start.run(replies).call() {
                ActionView::GetDc { window } => window == p.window,
                ActionView::CountPixelFormats { hdc, .. } => hdc == p.dc,
                ActionView::DescribeCandidate { hdc, .. } => hdc == p.dc,
                ActionView::QueryAttribute { hdc, layer, .. } => hdc == p.dc && layer == 0,
                ActionView::DescribeChosen { hdc, .. } => hdc == p.dc,
                ActionView::SetPixelFormat { hdc, .. } => hdc == p.dc,
                ActionView::CreateContext { hdc } => hdc == p.dc,
                ActionView::CreateContextAttribs { hdc, .. } => hdc == p.dc,
                ActionView::ShareLists { context, .. } => context == p.context,
                ActionView::MakeCurrent { window, context } => {
                    &&& window == WindowWrapper(p.window, p.dc)
                    &&& context == ContextWrapper(p.context)
                },
                ActionView::SetForegroundWindow { window } => window == p.window,
                ActionView::InstallCallback { window } => window == p.window,
                _ => true,
            }
        }),
{
    lemma_run_is_tracked(title, builder, share, replies);
}

/// The format that was chosen is the one that is described and then set, with the description
/// that was given of it; the choice is followed by nothing but that.
pub proof fn law_chosen_format_is_the_one_that_is_set(
    title: Seq<u16>,
    builder: BuilderView,
    share: Option<ContextHack>,
    replies: Seq<Reply>,
)
    requires
        InitView::start(title, builder, share).accepts_all(replies),
    ensures
        ({
            let start = InitView::start(title, builder, share);
            let p = start.past(replies);
            let call = start.run(replies).call();
            &&& replies.len() > 0 ==> (replies.last() matches Reply::Chosen { id } ==> call == (
            ActionView::DescribeChosen { hdc: p.dc, id }))
            &&& call matches ActionView::DescribeChosen { hdc, id } ==> {
                &&& hdc == p.dc
                &&& id == p.chosen
            }
            &&& call matches ActionView::SetPixelFormat { hdc, id, descriptor } ==> {
                &&& hdc == p.dc
                &&& id == p.chosen
                &&& p.described == Some(descriptor)
            }
        }),
{
    lemma_run_is_tracked(title, builder, share, replies);
    if replies.len() > 0 {
        lemma_run_is_tracked(title, builder, share, replies.drop_last());
    }
}

/// The version of OpenGL that is asked for; `None` where any will do.
pub open spec fn version_asked_for(builder: BuilderView) -> Option<(u8, u8)> {
    match builder.gl_version {
        GlRequest::Latest => None,
        GlRequest::Specific(_, version) => Some(version),
        GlRequest::GlThenGles { opengl_version, .. } => Some(opengl_version),
    }
}

/// Contexts are created by the driver's own function exactly where it was found, and then with the
/// version, the debugging and the sharing that are asked for. Elsewhere the context of the
/// caller, and only that, is made to share in a call of its own.
pub proof fn law_contexts_are_created_as_asked_for(
    title: Seq<u16>,
    builder: BuilderView,
    share: Option<ContextHack>,
    replies: Seq<Reply>,
)
    requires
        InitView::start(title, builder, share).accepts_all(replies),
    ensures
        ({
            let start = InitView::start(title, builder, share);
            let p = start.past(replies);
            match start.run(replies).call() {
                ActionView::CreateContextAttribs { share: given, attributes, .. } => {
                    &&& p.creates_with_attributes()
                    &&& given == share_asked_for(share)
                    &&& asks_for(
                        attributes,
                        version_asked_for(builder),
                        builder.gl_debug,
                    )
                },
                ActionView::CreateContext { .. } => !p.creates_with_attributes(),
                ActionView::ShareLists { share: given, .. } => {
                    &&& p.loaded is Some
                    &&& !p.creates_with_attributes()
                    &&& given == share_asked_for(share)
                    &&& given != 0
                },
                _ => true,
            }
        }),
{
    lemma_run_is_tracked(title, builder, share, replies);
    match builder.gl_version {
        GlRequest::Latest => {
            law_attributes_ask_for_the_version(
                Api::OpenGl,
                (0, 0),
                (0, 0),
                builder.gl_debug,
            );
        },
        GlRequest::Specific(api, version) => {
            law_attributes_ask_for_the_version(
                api,
                version,
                (0, 0),
                builder.gl_debug,
            );
        },
        GlRequest::GlThenGles { opengl_version, opengles_version } => {
            law_attributes_ask_for_the_version(
                Api::OpenGl,
                opengl_version,
                opengles_version,
                builder.gl_debug,
            );
        },
    }
}

/// The library that is loaded is that of OpenGL, and the driver is told to wait for one picture of
/// the screen.
pub proof fn law_library_and_interval(
    title: Seq<u16>,
    builder: BuilderView,
    share: Option<ContextHack>,
    replies: Seq<Reply>,
)
    requires
        InitView::start(title, builder, share).accepts_all(replies),
    ensures
        match InitView::start(title, builder, share).run(replies).call() {
            ActionView::LoadLibrary { name } => name == wide("opengl32.dll"@),
            ActionView::SwapInterval { interval } => interval == 1,
            _ => true,
        },
{
    lemma_run_is_tracked(title, builder, share, replies);
}

/// A window that is ready consists of the window, the device context, the context and the library
/// that were got last.
pub proof fn law_ready_window_is_the_one_that_was_made(
    title: Seq<u16>,
    builder: BuilderView,
    share: Option<ContextHack>,
    replies: Seq<Reply>,
)
    requires
        InitView::start(title, builder, share).accepts_all(replies),
        InitView::start(title, builder, share).run(replies).stage is Ready,
    ensures
        ({
            let start = InitView::start(title, builder, share);
            let p = start.past(replies);
            &&& start.run(replies).window() == (Window {
                window: WindowWrapper(p.window, p.dc),
                context: ContextWrapper(p.context),
                gl_library: p.library,
                is_closed: false,
            })
            &&& p.failure is None
        }),
{
    lemma_run_is_tracked(title, builder, share, replies);
}

/// A creation is finished exactly when it asks for nothing more, and it has then failed exactly if
/// one of the replies was a failure.
pub proof fn law_finished_creation_asks_for_nothing(
    title: Seq<u16>,
    builder: BuilderView,
    share: Option<ContextHack>,
    replies: Seq<Reply>,
)
    requires
        InitView::start(title, builder, share).accepts_all(replies),
    ensures
        ({
            let start = InitView::start(title, builder, share);
            let s = start.run(replies);
            let p = start.past(replies);
            &&& s.is_finished() <==> s.call() == ActionView::Finish
            &&& match p.failure {
                Some(failure) => s.stage == StageView::Failed(failure),
                None => s.stage !is Failed,
            }
            &&& s.is_finished() && p.failure is None ==> s.stage is Ready
        }),
{
    lemma_run_is_tracked(title, builder, share, replies);
}

/// The kind of reply that a call is given.
pub open spec fn is_reply_to(call: ActionView, reply: Reply) -> bool {
    match call {
        ActionView::RegisterClass { .. } => reply is Done,
        ActionView::ChangeDisplaySettings { .. } => reply is Code,
        ActionView::AdjustWindowRect { .. } => reply is Adjusted,
        ActionView::CreateWindow { .. } => reply is Handle,
        ActionView::GetDc { .. } => reply is Handle,
        ActionView::CountPixelFormats { .. } => reply is Code,
        ActionView::DescribeCandidate { .. } => reply is Described,
        ActionView::QueryAttribute { .. } => reply is Attribute,
        ActionView::ChoosePixelFormat { .. } => reply is Chosen,
        ActionView::DescribeChosen { .. } => reply is Described,
        ActionView::SetPixelFormat { .. } => reply is Code,
        ActionView::CreateContextAttribs { .. } => reply is Handle,
        ActionView::CreateContext { .. } => reply is Handle,
        ActionView::ShareLists { .. } => reply is Done,
        ActionView::MakeCurrent { .. } => reply is Current,
        ActionView::LoadExtensions => reply is Loaded,
        ActionView::SetForegroundWindow { .. } => reply is Done,
        ActionView::InstallCallback { .. } => reply is Done,
        ActionView::LoadLibrary { .. } => reply is Handle,
        ActionView::SwapInterval { .. } => reply is Code,
        ActionView::Release(_) => reply is Done,
        ActionView::Finish => false,
    }
}

/// The corners of the window over the monitor are coordinates.
pub open spec fn monitor_is_in_reach(builder: BuilderView) -> bool {
    let place = place_asked_for(builder);
    let size = size_asked_for(builder);
    &&& -0x8000_0000 <= (size.0 as i32) + place.0 <= 0x7FFF_FFFF
    &&& -0x8000_0000 <= (size.1 as i32) + place.1 <= 0x7FFF_FFFF
}

#[verifier::spinoff_prover]
#[verifier::rlimit(40)]
proof fn lemma_refusals(s: InitView, p: Past, reply: Reply)
    requires
        s.wf(),
        tracks_handles(s, p),
        tracks_rect(s, p),
    ensures
        ({
            let refusal = s.refuses(reply);
            &&& refusal == Some(Refusal::WrongReply) <==> !is_reply_to(s.call(), reply)
            &&& refusal == Some(Refusal::Overflow) <==> {
                ||| s.call() is RegisterClass && reply is Done && !monitor_is_in_reach(s.builder)
                ||| s.call() is AdjustWindowRect && (reply matches Reply::Adjusted(rect)
                    && !has_a_size(rect))
            }
            &&& refusal == Some(Refusal::UnsupportedApi) <==> {
                &&& s.call() is SetPixelFormat
                &&& reply matches Reply::Code { value, .. }
                &&& value != 0
                &&& p.creates_with_attributes()
                &&& s.builder.gl_version matches GlRequest::Specific(api, _)
                &&& api != Api::OpenGl
            }
        }),
{
}

/// Every reply to a call is taken in, with three exceptions: where the window would not lie within
/// the coordinates, where it would be too large for them, and where the driver's own function
/// would have to be asked for anything but OpenGL.
pub proof fn law_replies_are_refused_for_good_reason_only(
    title: Seq<u16>,
    builder: BuilderView,
    share: Option<ContextHack>,
    replies: Seq<Reply>,
    reply: Reply,
)
    requires
        InitView::start(title, builder, share).accepts_all(replies),
    ensures
        ({
            let start = InitView::start(title, builder, share);
            let p = start.past(replies);
            let s = start.run(replies);
            let refusal = s.refuses(reply);
            &&& refusal == Some(Refusal::WrongReply) <==> !is_reply_to(s.call(), reply)
            &&& refusal == Some(Refusal::Overflow) <==> {
                ||| s.call() is RegisterClass && reply is Done && !monitor_is_in_reach(builder)
                ||| s.call() is AdjustWindowRect && (reply matches Reply::Adjusted(rect)
                    && !has_a_size(rect))
            }
            &&& refusal == Some(Refusal::UnsupportedApi) <==> {
                &&& s.call() is SetPixelFormat
                &&& reply matches Reply::Code { value, .. }
                &&& value != 0
                &&& p.creates_with_attributes()
                &&& builder.gl_version matches GlRequest::Specific(api, _)
                &&& api != Api::OpenGl
            }
            &&& s.accepts(reply) <==> refusal is None
        }),
{
    lemma_run_is_tracked(title, builder, share, replies);
    let start = InitView::start(title, builder, share);
    lemma_refusals(start.run(replies), start.past(replies), reply);
}

/// What comes when nothing can be got any more: what is held is given back, the newest first.
pub open spec fn gives_up(held: Seq<Resource>, next: ActionView) -> bool {
    if held.len() == 0 {
        next == ActionView::Finish
    } else {
        next == ActionView::Release(held.last())
    }
}

/// `next` is the call that has to come behind `call` and its reply; `p` is the past with both.
pub open spec fn follows(
    builder: BuilderView,
    share: Option<ContextHack>,
    p: Past,
    call: ActionView,
    next: ActionView,
) -> bool {
    let shown = if builder.monitor is Some {
        next is SetForegroundWindow
    } else {
        next is InstallCallback
    };
    if p.failure is Some {
        gives_up(p.held, next)
    } else {
        match call {
            ActionView::RegisterClass { .. } => if builder.monitor is Some {
                next is ChangeDisplaySettings
            } else {
                next is AdjustWindowRect
            },
            ActionView::ChangeDisplaySettings { .. } => next is AdjustWindowRect,
            ActionView::AdjustWindowRect { .. } => next is CreateWindow,
            ActionView::CreateWindow { .. } => next is GetDc,
            ActionView::GetDc { .. } => if p.lists_by_driver() {
                next == (ActionView::QueryAttribute {
                    hdc: p.dc,
                    index: 1,
                    layer: 0,
                    attribute: 0x2000,
                })
            } else {
                next == (ActionView::CountPixelFormats { hdc: p.dc, index: 1 })
            },
            ActionView::CountPixelFormats { .. } => next is DescribeCandidate
                || next is ChoosePixelFormat,
            ActionView::DescribeCandidate { .. } => next is DescribeCandidate
                || next is ChoosePixelFormat,
            ActionView::QueryAttribute { .. } => next is QueryAttribute
                || next is ChoosePixelFormat,
            ActionView::ChoosePixelFormat { .. } => next is DescribeChosen,
            ActionView::DescribeChosen { .. } => next is SetPixelFormat,
            ActionView::SetPixelFormat { .. } => if p.creates_with_attributes() {
                next is CreateContextAttribs
            } else {
                next is CreateContext
            },
            ActionView::CreateContextAttribs { .. } => shown,
            ActionView::CreateContext { .. } => if p.loaded is None {
                next is MakeCurrent
            } else if share_asked_for(share) != 0 {
                next is ShareLists
            } else {
                shown
            },
            ActionView::ShareLists { .. } => shown,
            ActionView::MakeCurrent { .. } => if p.loaded is None {
                next is LoadExtensions
            } else {
                next is SwapInterval
            },
            ActionView::LoadExtensions => next == ActionView::Release(p.held.last()),
            ActionView::SetForegroundWindow { .. } => next is InstallCallback,
            ActionView::InstallCallback { .. } => next is LoadLibrary,
            ActionView::LoadLibrary { .. } => if builder.vsync && p.can_swap() {
                next is MakeCurrent
            } else {
                next is Finish
            },
            ActionView::SwapInterval { .. } => next == ActionView::Release(p.held.last()),
            ActionView::Release(_) => if p.swapped {
                next is Finish
            } else if p.held.len() > 0 {
                next == ActionView::Release(p.held.last())
            } else {
                next is CreateWindow
            },
            ActionView::Finish => false,
        }
    }
}

#[verifier::spinoff_prover]
#[verifier::rlimit(30)]
proof fn lemma_beginning_follows(s: InitView, p: Past, reply: Reply)
    requires
        s.stage is RegisterClass
            || s.stage is ChangeDisplaySettings
            || s.stage is AdjustRect
            || s.stage is CreateWindow
            || s.stage is GetDc,
        s.wf(),
        s.accepts(reply),
        tracks_handles(s, p),
        tracks_context(s, p),
        tracks_end(s, p),
        s.after(reply).wf(),
        tracks_handles(s.after(reply), p.then_came(s.call(), reply)),
        tracks_end(s.after(reply), p.then_came(s.call(), reply)),
    ensures
        follows(
            s.builder,
            s.share,
            p.then_came(s.call(), reply),
            s.call(),
            s.after(reply).call(),
        ),
{
}

#[verifier::spinoff_prover]
#[verifier::rlimit(30)]
proof fn lemma_formats_follow(s: InitView, p: Past, reply: Reply)
    requires
        s.stage is NativeFormats
            || s.stage is ArbFormats
            || s.stage is ChooseFormat,
        s.wf(),
        s.accepts(reply),
        tracks_handles(s, p),
        tracks_context(s, p),
        tracks_end(s, p),
        s.after(reply).wf(),
        tracks_handles(s.after(reply), p.then_came(s.call(), reply)),
        tracks_end(s.after(reply), p.then_came(s.call(), reply)),
    ensures
        follows(
            s.builder,
            s.share,
            p.then_came(s.call(), reply),
            s.call(),
            s.after(reply).call(),
        ),
{
}

#[verifier::spinoff_prover]
#[verifier::rlimit(30)]
proof fn lemma_format_follows(s: InitView, p: Past, reply: Reply)
    requires
        s.stage is SetFormat,
        s.wf(),
        s.accepts(reply),
        tracks_handles(s, p),
        tracks_context(s, p),
        tracks_end(s, p),
        s.after(reply).wf(),
        tracks_handles(s.after(reply), p.then_came(s.call(), reply)),
        tracks_end(s.after(reply), p.then_came(s.call(), reply)),
    ensures
        follows(
            s.builder,
            s.share,
            p.then_came(s.call(), reply),
            s.call(),
            s.after(reply).call(),
        ),
{
}

#[verifier::spinoff_prover]
#[verifier::rlimit(30)]
proof fn lemma_context_follows(s: InitView, p: Past, reply: Reply)
    requires
        s.stage is CreateContext,
        s.wf(),
        s.accepts(reply),
        tracks_handles(s, p),
        tracks_context(s, p),
        tracks_end(s, p),
        s.after(reply).wf(),
        tracks_handles(s.after(reply), p.then_came(s.call(), reply)),
        tracks_end(s.after(reply), p.then_came(s.call(), reply)),
    ensures
        follows(
            s.builder,
            s.share,
            p.then_came(s.call(), reply),
            s.call(),
            s.after(reply).call(),
        ),
{
}

#[verifier::spinoff_prover]
#[verifier::rlimit(30)]
proof fn lemma_extensions_follow(s: InitView, p: Past, reply: Reply)
    requires
        s.stage is MakeDummyCurrent
            || s.stage is LoadExtensions
            || s.stage is ReleaseDummy,
        s.wf(),
        s.accepts(reply),
        tracks_handles(s, p),
        tracks_context(s, p),
        tracks_end(s, p),
        s.after(reply).wf(),
        tracks_handles(s.after(reply), p.then_came(s.call(), reply)),
        tracks_end(s.after(reply), p.then_came(s.call(), reply)),
    ensures
        follows(
            s.builder,
            s.share,
            p.then_came(s.call(), reply),
            s.call(),
            s.after(reply).call(),
        ),
{
}

#[verifier::spinoff_prover]
#[verifier::rlimit(30)]
proof fn lemma_ending_follows(s: InitView, p: Past, reply: Reply)
    requires
        s.stage is SetForeground
            || s.stage is InstallCallback
            || s.stage is LoadLibrary
            || s.stage is MakeCurrent
            || s.stage is SwapInterval
            || s.stage is ReleaseCurrent
            || s.stage is Ready,
        s.wf(),
        s.accepts(reply),
        tracks_handles(s, p),
        tracks_context(s, p),
        tracks_end(s, p),
        s.after(reply).wf(),
        tracks_handles(s.after(reply), p.then_came(s.call(), reply)),
        tracks_end(s.after(reply), p.then_came(s.call(), reply)),
    ensures
        follows(
            s.builder,
            s.share,
            p.then_came(s.call(), reply),
            s.call(),
            s.after(reply).call(),
        ),
{
}

#[verifier::spinoff_prover]
#[verifier::rlimit(30)]
proof fn lemma_giving_up_follows(s: InitView, p: Past, reply: Reply)
    requires
        s.stage is Failed,
        s.wf(),
        s.accepts(reply),
        tracks_handles(s, p),
        tracks_context(s, p),
        tracks_end(s, p),
        s.after(reply).wf(),
        tracks_handles(s.after(reply), p.then_came(s.call(), reply)),
        tracks_end(s.after(reply), p.then_came(s.call(), reply)),
    ensures
        follows(
            s.builder,
            s.share,
            p.then_came(s.call(), reply),
            s.call(),
            s.after(reply).call(),
        ),
{
}

proof fn lemma_step_follows(s: InitView, p: Past, reply: Reply)
    requires
        s.wf(),
        s.accepts(reply),
        tracks_handles(s, p),
        tracks_context(s, p),
        tracks_end(s, p),
        s.after(reply).wf(),
        tracks_handles(s.after(reply), p.then_came(s.call(), reply)),
        tracks_end(s.after(reply), p.then_came(s.call(), reply)),
    ensures
        follows(
            s.builder,
            s.share,
            p.then_came(s.call(), reply),
            s.call(),
            s.after(reply).call(),
        ),
{
    match s.stage {
        StageView::RegisterClass
        | StageView::ChangeDisplaySettings(_)
        | StageView::AdjustRect
        | StageView::CreateWindow(_)
        | StageView::GetDc(_, _) => lemma_beginning_follows(s, p, reply),
        StageView::NativeFormats(_, _)
        | StageView::ArbFormats(_)
        | StageView::ChooseFormat(_) => lemma_formats_follow(s, p, reply),
        StageView::SetFormat(_, _) => lemma_format_follows(s, p, reply),
        StageView::CreateContext(_, _) => lemma_context_follows(s, p, reply),
        StageView::MakeDummyCurrent
        | StageView::LoadExtensions
        | StageView::ReleaseDummy => lemma_extensions_follow(s, p, reply),
        StageView::Failed(_) => lemma_giving_up_follows(s, p, reply),
        _ => lemma_ending_follows(s, p, reply),
    }
}

/// The calls come in the order in which a window is made: the class, the mode of the monitor, the
/// borders; a window, its format and its context to find the extra functions with, which are then
/// given back; a window, its format and its context to keep; and what is left to do with those.
/// Behind a failure everything that is held is given back.
pub proof fn law_calls_come_in_order(
    title: Seq<u16>,
    builder: BuilderView,
    share: Option<ContextHack>,
    replies: Seq<Reply>,
    reply: Reply,
)
    requires
        InitView::start(title, builder, share).accepts_all(replies),
        InitView::start(title, builder, share).run(replies).accepts(reply),
    ensures
        ({
            let start = InitView::start(title, builder, share);
            let s = start.run(replies);
            let p = start.past(replies);
            follows(
                builder,
                share,
                p.then_came(s.call(), reply),
                s.call(),
                s.after(reply).call(),
            )
        }),
{
    let start = InitView::start(title, builder, share);
    let s = start.run(replies);
    let p = start.past(replies);
    lemma_run_is_tracked(title, builder, share, replies);
    lemma_step_tracks_handles(s, p, reply);
    lemma_step_tracks_context(s, p, reply);
    lemma_step_tracks_end(s, p, reply);
    s.lemma_after_is_wf(reply);
    lemma_step_follows(s, p, reply);
}

/// Wherever in a creation a format is chosen, the next call is for the description of that format
/// on the device context of the window that is being made, and wherever a format is set, it is the
/// one that was chosen last.
pub proof fn law_every_choice_is_carried_out(
    title: Seq<u16>,
    builder: BuilderView,
    share: Option<ContextHack>,
    replies: Seq<Reply>,
    i: int,
)
    requires
        InitView::start(title, builder, share).accepts_all(replies),
        0 <= i < replies.len(),
    ensures
        ({
            let start = InitView::start(title, builder, share);
            let calls = start.calls(replies);
            &&& i + 1 < replies.len() ==> (replies[i] matches Reply::Chosen { id } ==> calls[i + 1]
                == (ActionView::DescribeChosen { hdc: start.past(replies.take(i)).dc, id }))
            &&& calls[i] matches ActionView::SetPixelFormat { id, .. } ==> id == start.past(
                replies.take(i),
            ).chosen
        }),
{
    let start = InitView::start(title, builder, share);
    law_calls_are_made_in_turn(start, replies, i);
    law_chosen_format_is_the_one_that_is_set(title, builder, share, replies.take(i));
    if i + 1 < replies.len() {
        let more = replies.take(i + 1);
        law_calls_are_made_in_turn(start, replies, i + 1);
        law_chosen_format_is_the_one_that_is_set(title, builder, share, more);
        assert(more.drop_last() =~= replies.take(i));
        assert(more.last() == replies[i]);
        lemma_run_is_tracked(title, builder, share, replies.take(i));
    }
}

} // verus!
