//! What holds of every creation of a window, whatever the system replies.

use vstd::prelude::*;

use crate::arb_formats::attribute_value;
use crate::arb_formats::driver_formats;
use crate::arb_formats::law_arb_enumeration_finds_the_accelerated_formats;
use crate::arb_formats::ArbEnumeration;
use crate::constants::CDS_FULLSCREEN;
use crate::constants::NUMBER_PIXEL_FORMATS_ARB;
use crate::constants::WS_VISIBLE;
use crate::context::ContextCreationView;
use crate::geometry::law_creation_style_tells_visibility;
use crate::geometry::mode_for;
use crate::geometry::moved;
use crate::geometry::rect_at_origin;
use crate::init::numbered;
use crate::init::InitView;
use crate::init::Role;
use crate::init::StageView;
use crate::native_formats::native_formats;
use crate::native_formats::NativeEnumeration;
use crate::protocol::ActionView;
use crate::protocol::Reply;
use crate::protocol::Resource;
use crate::text::signed_decimal;
use crate::text::wide;
use crate::types::BuilderView;
use crate::types::ContextHack;
use crate::types::ContextWrapper;
use crate::types::CreationError;
use crate::types::Failure;
use crate::types::WindowWrapper;

verus! {

impl InitView {
    /// The creation behind all of `replies`.
    pub open spec fn run(self, replies: Seq<Reply>) -> InitView
        decreases replies.len(),
    {
        if replies.len() == 0 {
            self
        } else {
            self.run(replies.drop_last()).after(replies.last())
        }
    }

    /// Each of `replies` can be taken in behind those before it.
    pub open spec fn accepts_all(self, replies: Seq<Reply>) -> bool
        decreases replies.len(),
    {
        if replies.len() == 0 {
            true
        } else {
            &&& self.accepts_all(replies.drop_last())
            &&& self.run(replies.drop_last()).accepts(replies.last())
        }
    }

    /// The calls that `replies` are the replies to.
    pub open spec fn calls(self, replies: Seq<Reply>) -> Seq<ActionView>
        decreases replies.len(),
    {
        if replies.len() == 0 {
            Seq::empty()
        } else {
            self.calls(replies.drop_last()).push(self.run(replies.drop_last()).call())
        }
    }

    /// The resources that have been acquired and not been given back, going by the calls and
    /// their replies alone.
    pub open spec fn ledger(self, replies: Seq<Reply>) -> Seq<Resource>
        decreases replies.len(),
    {
        if replies.len() == 0 {
            Seq::empty()
        } else {
            entered(
                self.ledger(replies.drop_last()),
                self.run(replies.drop_last()).call(),
                replies.last(),
            )
        }
    }

    /// What is held, with a context that exists but is still being worked on.
    pub open spec fn resources(self) -> Seq<Resource> {
        match self.stage {
            StageView::CreateContext(
                _,
                ContextCreationView::Share { context, .. },
            ) => self.holding.resources().push(Resource::Context(ContextWrapper(context))),
            _ => self.holding.resources(),
        }
    }
}

/// The resource that `call` brought, if its reply is `reply`.
pub open spec fn acquired(call: ActionView, reply: Reply) -> Option<Resource> {
    match (call, reply) {
        (ActionView::GetDc { window }, Reply::Handle { value, .. }) => if value != 0 {
            Some(Resource::Window(WindowWrapper(window, value)))
        } else {
            None
        },
        (ActionView::CreateContext { .. }, Reply::Handle { value, .. }) => if value != 0 {
            Some(Resource::Context(ContextWrapper(value)))
        } else {
            None
        },
        (ActionView::CreateContextAttribs { .. }, Reply::Handle { value, .. }) => if value != 0 {
            Some(Resource::Context(ContextWrapper(value)))
        } else {
            None
        },
        (ActionView::MakeCurrent { window, context }, Reply::Current(Ok(_))) => Some(
            Resource::Current(window, context),
        ),
        _ => None,
    }
}

/// The resources behind one more call, where `before` were there before it.
pub open spec fn entered(before: Seq<Resource>, call: ActionView, reply: Reply) -> Seq<Resource> {
    match call {
        ActionView::Release(_) => before.drop_last(),
        _ => match acquired(call, reply) {
            Some(resource) => before.push(resource),
            None => before,
        },
    }
}

/// The failure that `reply` to `call` is, if it is one.
pub open spec fn failure_of(call: ActionView, reply: Reply) -> Option<Failure> {
    match (call, reply) {
        (ActionView::ChangeDisplaySettings { .. }, Reply::Code { value, .. }) => if value != 0 {
            Some(Failure::ChangeDisplaySettings(value))
        } else {
            None
        },
        (ActionView::CreateWindow { .. }, Reply::Handle { value, os_error }) => if value == 0 {
            Some(Failure::CreateWindowEx(os_error))
        } else {
            None
        },
        (ActionView::GetDc { .. }, Reply::Handle { value, os_error }) => if value == 0 {
            Some(Failure::GetDc(os_error))
        } else {
            None
        },
        (ActionView::DescribeChosen { .. }, Reply::Described { value, os_error, .. }) => if value
            == 0 {
            Some(Failure::DescribePixelFormat(os_error))
        } else {
            None
        },
        (ActionView::SetPixelFormat { .. }, Reply::Code { value, os_error }) => if value == 0 {
            Some(Failure::SetPixelFormat(os_error))
        } else {
            None
        },
        (ActionView::CreateContext { .. }, Reply::Handle { value, os_error }) => if value == 0 {
            Some(Failure::CreateContext(os_error))
        } else {
            None
        },
        (ActionView::CreateContextAttribs { .. }, Reply::Handle { value, os_error }) => if value
            == 0 {
            Some(Failure::CreateContext(os_error))
        } else {
            None
        },
        (ActionView::MakeCurrent { .. }, Reply::Current(Err(error))) => Some(
            Failure::MakeCurrent(error),
        ),
        (ActionView::LoadLibrary { .. }, Reply::Handle { value, os_error }) => if value == 0 {
            Some(Failure::LoadLibrary(os_error))
        } else {
            None
        },
        (ActionView::SwapInterval { .. }, Reply::Code { value, .. }) => if value == 0 {
            Some(Failure::SwapInterval)
        } else {
            None
        },
        _ => None,
    }
}

/// The failure is there and is told by `text`.
pub open spec fn is_told(failure: Option<Failure>, text: Seq<char>) -> bool {
    failure matches Some(f) && f.message() == text
}

/// A failure is told with the name of the call whose reply it was, and with what the system said
/// of it. There are no failures but these: a number other than zero for a display mode, zero for a
/// window, a device context, a context or a library, zero for the description or the setting of
/// the format that was chosen, zero for the interval, and the error for a context that did not
/// become current.
pub proof fn law_failures_are_told_with_their_call(call: ActionView, reply: Reply)
    ensures
        ({
            let failure = failure_of(call, reply);
            match (call, reply) {
                (ActionView::ChangeDisplaySettings { .. }, Reply::Code { value, .. }) => {
                    &&& value == 0 ==> failure is None
                    &&& value != 0 ==> is_told(
                        failure,
                        "ChangeDisplaySettings failed: "@ + signed_decimal(value as int),
                    )
                },
                (ActionView::CreateWindow { .. }, Reply::Handle { value, os_error }) => {
                    &&& value != 0 ==> failure is None
                    &&& value == 0 ==> is_told(
                        failure,
                        "CreateWindowEx function failed: "@ + os_error@,
                    )
                },
                (ActionView::GetDc { .. }, Reply::Handle { value, os_error }) => {
                    &&& value != 0 ==> failure is None
                    &&& value == 0 ==> is_told(failure, "GetDC function failed: "@ + os_error@)
                },
                (ActionView::DescribeChosen { .. }, Reply::Described { value, os_error, .. }) => {
                    &&& value != 0 ==> failure is None
                    &&& value == 0 ==> is_told(
                        failure,
                        "DescribePixelFormat function failed: "@ + os_error@,
                    )
                },
                (ActionView::SetPixelFormat { .. }, Reply::Code { value, os_error }) => {
                    &&& value != 0 ==> failure is None
                    &&& value == 0 ==> is_told(
                        failure,
                        "SetPixelFormat function failed: "@ + os_error@,
                    )
                },
                (ActionView::CreateContext { .. }, Reply::Handle { value, os_error }) => {
                    &&& value != 0 ==> failure is None
                    &&& value == 0 ==> is_told(
                        failure,
                        "OpenGL context creation failed: "@ + os_error@,
                    )
                },
                (ActionView::CreateContextAttribs { .. }, Reply::Handle { value, os_error }) => {
                    &&& value != 0 ==> failure is None
                    &&& value == 0 ==> is_told(
                        failure,
                        "OpenGL context creation failed: "@ + os_error@,
                    )
                },
                (
                    ActionView::MakeCurrent { .. },
                    Reply::Current(Err(CreationError::OsError(text))),
                ) => is_told(failure, text@),
                (ActionView::LoadLibrary { .. }, Reply::Handle { value, os_error }) => {
                    &&& value != 0 ==> failure is None
                    &&& value == 0 ==> is_told(
                        failure,
                        "LoadLibrary function failed: "@ + os_error@,
                    )
                },
                (ActionView::SwapInterval { .. }, Reply::Code { value, .. }) => {
                    &&& value != 0 ==> failure is None
                    &&& value == 0 ==> is_told(failure, "wglSwapIntervalEXT failed"@)
                },
                _ => failure is None,
            }
        }),
{
}

/// A creation stays well-formed from its beginning on.
pub proof fn law_creation_is_well_formed(
    title: Seq<u16>,
    builder: BuilderView,
    share: Option<ContextHack>,
    replies: Seq<Reply>,
)
    requires
        InitView::start(title, builder, share).accepts_all(replies),
    ensures
        InitView::start(title, builder, share).run(replies).wf(),
        InitView::start(title, builder, share).run(replies).title == title,
        InitView::start(title, builder, share).run(replies).builder == builder,
        InitView::start(title, builder, share).run(replies).share == share,
    decreases replies.len(),
{
    if replies.len() > 0 {
        law_creation_is_well_formed(title, builder, share, replies.drop_last());
        let before = InitView::start(title, builder, share).run(replies.drop_last());
        before.lemma_after_is_wf(replies.last());
    }
}

proof fn lemma_step_keeps_the_ledger(s: InitView, reply: Reply)
    requires
        s.wf(),
        s.accepts(reply),
    ensures
        s.after(reply).resources() == entered(s.resources(), s.call(), reply),
{
    let after = s.after(reply).resources();
    let wanted = entered(s.resources(), s.call(), reply);
    assert(after =~= wanted);
}

proof fn lemma_newest_is_released(s: InitView)
    requires
        s.wf(),
    ensures
        s.call() matches ActionView::Release(resource) ==> s.resources().len() > 0
            && s.resources().last() == resource,
{
}

/// What a creation holds is what it has acquired and not given back, and what it gives back is
/// always the newest of that.
pub proof fn law_newest_is_given_back_first(
    title: Seq<u16>,
    builder: BuilderView,
    share: Option<ContextHack>,
    replies: Seq<Reply>,
)
    requires
        InitView::start(title, builder, share).accepts_all(replies),
    ensures
        ({
            let start = InitView::start(title, builder, share);
            let s = start.run(replies);
            &&& s.resources() == start.ledger(replies)
            &&& s.call() matches ActionView::Release(resource) ==> {
                &&& start.ledger(replies).len() > 0
                &&& start.ledger(replies).last() == resource
            }
        }),
{
    let start = InitView::start(title, builder, share);
    law_creation_is_well_formed(title, builder, share, replies);
    lemma_newest_is_released(start.run(replies));
    lemma_resources_follow_the_ledger(title, builder, share, replies);
}

proof fn lemma_resources_follow_the_ledger(
    title: Seq<u16>,
    builder: BuilderView,
    share: Option<ContextHack>,
    replies: Seq<Reply>,
)
    requires
        InitView::start(title, builder, share).accepts_all(replies),
    ensures
        InitView::start(title, builder, share).run(replies).resources() == InitView::start(
            title,
            builder,
            share,
        ).ledger(replies),
    decreases replies.len(),
{
    let start = InitView::start(title, builder, share);
    if replies.len() == 0 {
        assert(start.resources() =~= Seq::empty());
    } else {
        lemma_resources_follow_the_ledger(title, builder, share, replies.drop_last());
        law_creation_is_well_formed(title, builder, share, replies.drop_last());
        lemma_step_keeps_the_ledger(start.run(replies.drop_last()), replies.last());
    }
}

/// A creation that succeeds leaves nothing acquired but the window and the context that it
/// returns, and one that fails leaves nothing acquired; no context is left current by either.
///
/// A window counts as acquired once its device context is there: one whose device context cannot
/// be got is not given back.
pub proof fn law_nothing_is_left_behind(
    title: Seq<u16>,
    builder: BuilderView,
    share: Option<ContextHack>,
    replies: Seq<Reply>,
)
    requires
        InitView::start(title, builder, share).accepts_all(replies),
        InitView::start(title, builder, share).run(replies).is_finished(),
    ensures
        ({
            let start = InitView::start(title, builder, share);
            let s = start.run(replies);
            if s.stage is Failed {
                start.ledger(replies) == Seq::<Resource>::empty()
            } else {
                start.ledger(replies) == seq![
                    Resource::Window(s.window().window),
                    Resource::Context(s.window().context),
                ]
            }
        }),
{
    let start = InitView::start(title, builder, share);
    law_creation_is_well_formed(title, builder, share, replies);
    law_newest_is_given_back_first(title, builder, share, replies);
    if start.run(replies).stage is Failed {
        assert(start.ledger(replies) =~= Seq::<Resource>::empty());
    }
}

/// The window, the device context, the context and the library of a window that is ready are
/// all there, and the window is open.
pub proof fn law_ready_window_is_complete(
    title: Seq<u16>,
    builder: BuilderView,
    share: Option<ContextHack>,
    replies: Seq<Reply>,
)
    requires
        InitView::start(title, builder, share).accepts_all(replies),
        InitView::start(title, builder, share).run(replies).stage is Ready,
    ensures
        ({
            let window = InitView::start(title, builder, share).run(replies).window();
            &&& window.window.0 != 0
            &&& window.window.1 != 0
            &&& window.context.0 != 0
            &&& window.gl_library != 0
            &&& !window.is_closed
        }),
{
    law_creation_is_well_formed(title, builder, share, replies);
}

proof fn lemma_step_fails_by_its_reply(s: InitView, reply: Reply)
    requires
        s.wf(),
        s.accepts(reply),
    ensures
        s.stage is Failed ==> s.after(reply).stage == s.stage && failure_of(s.call(), reply)
            is None,
        s.stage !is Failed ==> match failure_of(s.call(), reply) {
            Some(failure) => s.after(reply).stage == StageView::Failed(failure),
            None => s.after(reply).stage !is Failed,
        },
{
}

/// A creation fails exactly if one of the replies is a failure, and the failure that it reports
/// is that one.
pub proof fn law_creation_fails_exactly_by_a_reply(
    title: Seq<u16>,
    builder: BuilderView,
    share: Option<ContextHack>,
    replies: Seq<Reply>,
    failure: Failure,
)
    requires
        InitView::start(title, builder, share).accepts_all(replies),
    ensures
        ({
            let start = InitView::start(title, builder, share);
            start.run(replies).stage == StageView::Failed(failure) <==> exists|i: int|
                0 <= i < replies.len() && #[trigger] failure_of(start.calls(replies)[i], replies[i])
                    == Some(failure)
        }),
    decreases replies.len(),
{
    let start = InitView::start(title, builder, share);
    lemma_one_call_per_reply(start, replies);
    if replies.len() > 0 {
        let front = replies.drop_last();
        let last = replies.len() - 1;
        let before = start.run(front);
        lemma_one_call_per_reply(start, front);
        law_creation_is_well_formed(title, builder, share, front);
        law_creation_fails_exactly_by_a_reply(title, builder, share, front, failure);
        lemma_step_fails_by_its_reply(before, replies.last());
        let calls = start.calls(replies);
        assert(calls[last] == before.call());
        assert forall|i: int| 0 <= i < last implies #[trigger] calls[i] == start.calls(front)[i]
            && replies[i] == front[i] by {}
        if start.run(replies).stage == StageView::Failed(failure) {
            if before.stage is Failed {
                let i = choose|i: int|
                    0 <= i < front.len() && #[trigger] failure_of(start.calls(front)[i], front[i])
                        == Some(failure);
                assert(failure_of(calls[i], replies[i]) == Some(failure));
            } else {
                assert(failure_of(calls[last], replies[last]) == Some(failure));
            }
        }
        if exists|i: int|
            0 <= i < replies.len() && #[trigger] failure_of(calls[i], replies[i]) == Some(failure) {
            let i = choose|i: int|
                0 <= i < replies.len() && #[trigger] failure_of(calls[i], replies[i]) == Some(
                    failure,
                );
            if i < last {
                assert(failure_of(start.calls(front)[i], front[i]) == Some(failure));
            }
        }
    }
}

proof fn lemma_one_call_per_reply(s: InitView, replies: Seq<Reply>)
    ensures
        s.calls(replies).len() == replies.len(),
    decreases replies.len(),
{
    if replies.len() > 0 {
        lemma_one_call_per_reply(s, replies.drop_last());
    }
}

/// More calls than a walk through pixel formats can take: one for the count, and twelve for each
/// of the formats that a number of 32 bits can count.
pub open spec fn walk_bound() -> int {
    51539607554
}

/// A bound on the calls that are left.
pub open spec fn calls_left(s: InitView) -> int {
    let (phase, rest): (int, int) = match s.stage {
        StageView::RegisterClass => (24, 0),
        StageView::ChangeDisplaySettings(_) => (23, 0),
        StageView::AdjustRect => (22, 0),
        StageView::CreateWindow(role) => (if role == Role::Dummy { 21 } else { 12 }, 0),
        StageView::GetDc(role, _) => (if role == Role::Dummy { 20 } else { 11 }, 0),
        StageView::NativeFormats(role, walk) => (
            if role == Role::Dummy { 19 } else { 10 },
            match walk {
                NativeEnumeration::Count { .. } => 0x8000_0000,
                NativeEnumeration::Describe { index, num, .. } => num - index,
                NativeEnumeration::Finished => 0,
            },
        ),
        StageView::ArbFormats(walk) => (
            10,
            match walk {
                ArbEnumeration::Count { .. } => walk_bound() - 1,
                ArbEnumeration::Query { index, num, field, .. } => 12 * (num - index)
                    - field.position(),
                ArbEnumeration::Finished => 0,
            },
        ),
        StageView::ChooseFormat(role) => (if role == Role::Dummy { 18 } else { 9 }, 0),
        StageView::SetFormat(role, setting) => (
            if role == Role::Dummy { 17 } else { 8 },
            if setting is Describe { 1 } else { 0 },
        ),
        StageView::CreateContext(role, creation) => (
            if role == Role::Dummy { 16 } else { 7 },
            if creation is Share { 0 } else { 1 },
        ),
        StageView::MakeDummyCurrent => (15, 0),
        StageView::LoadExtensions => (14, 0),
        StageView::ReleaseDummy => (13, s.holding.resources().len() as int),
        StageView::SetForeground => (6, 0),
        StageView::InstallCallback => (5, 0),
        StageView::LoadLibrary => (4, 0),
        StageView::MakeCurrent(_) => (3, 0),
        StageView::SwapInterval(_) => (2, 0),
        StageView::ReleaseCurrent(_) => (1, 0),
        StageView::Ready(_) => (0, 0),
        StageView::Failed(_) => (0, s.holding.resources().len() as int),
    };
    phase * walk_bound() + rest
}

#[verifier::spinoff_prover]
#[verifier::rlimit(40)]
proof fn lemma_step_leaves_fewer_calls(s: InitView, reply: Reply)
    requires
        s.wf(),
        s.accepts(reply),
    ensures
        0 <= calls_left(s.after(reply)) < calls_left(s),
{
}

/// A creation ends: no system can keep it waiting for ever more calls.
pub proof fn law_creation_ends(
    title: Seq<u16>,
    builder: BuilderView,
    share: Option<ContextHack>,
    replies: Seq<Reply>,
)
    requires
        InitView::start(title, builder, share).accepts_all(replies),
    ensures
        replies.len() + calls_left(InitView::start(title, builder, share).run(replies)) <= 24
            * walk_bound(),
        calls_left(InitView::start(title, builder, share).run(replies)) >= 0,
    decreases replies.len(),
{
    if replies.len() > 0 {
        law_creation_ends(title, builder, share, replies.drop_last());
        law_creation_is_well_formed(title, builder, share, replies.drop_last());
        lemma_step_leaves_fewer_calls(
            InitView::start(title, builder, share).run(replies.drop_last()),
            replies.last(),
        );
    }
}

/// The window that the driver is asked through is never visible, and the other one is created
/// visible exactly if it is asked to be visible and not headless.
pub proof fn law_dummy_window_is_never_seen(s: InitView, role: Role)
    requires
        s.stage == StageView::CreateWindow(role),
    ensures
        s.call() matches ActionView::CreateWindow { style, .. } && (style & WS_VISIBLE != 0 <==> {
            &&& role == Role::Real
            &&& s.builder.visible
            &&& !s.builder.headless
        }),
{
    law_creation_style_tells_visibility(
        s.builder.fullscreen(),
        role == Role::Real && s.builder.shown(),
    );
}

/// The call that gives the monitor the size that was asked for.
pub open spec fn display_change_of(builder: BuilderView) -> ActionView {
    let monitor = builder.monitor->Some_0;
    ActionView::ChangeDisplaySettings {
        adapter_name: monitor.adapter_name,
        settings: mode_for(moved(rect_at_origin(builder.dimensions), monitor.position)),
        flags: CDS_FULLSCREEN,
    }
}

/// The calls that a creation has made on its way to where it stands.
spec fn came_this_way(s: InitView, calls: Seq<ActionView>) -> bool {
    let window = s.holding.window->Some_0.0;
    let fullscreen = s.builder.fullscreen();
    let ready = s.stage is Ready;
    let loaded = s.stage is MakeCurrent || s.stage is SwapInterval || s.stage is ReleaseCurrent
        || ready;
    let installed = s.stage is LoadLibrary || loaded;
    let in_front = s.stage is InstallCallback || installed;
    let swaps = s.builder.vsync && s.extensions is Some && s.extensions->Some_0.swap_interval_ext;
    &&& s.stage is ChangeDisplaySettings ==> s.call() == display_change_of(s.builder)
    &&& s.stage is MakeCurrent || s.stage is SwapInterval || s.stage is ReleaseCurrent ==> swaps
    &&& s.stage is RegisterClass ==> s.rect == rect_at_origin(s.builder.dimensions)
    &&& fullscreen && s.stage !is RegisterClass && s.stage !is ChangeDisplaySettings
        ==> calls.contains(display_change_of(s.builder))
    &&& fullscreen && in_front ==> calls.contains(ActionView::SetForegroundWindow { window })
    &&& installed ==> calls.contains(ActionView::InstallCallback { window })
    &&& loaded ==> calls.contains(ActionView::LoadLibrary { name: wide("opengl32.dll"@) })
    &&& swaps && (s.stage is ReleaseCurrent || ready) ==> calls.contains(
        ActionView::SwapInterval { interval: 1 },
    )
    &&& forall|i: int|
        0 <= i < calls.len() ==> {
            &&& (#[trigger] calls[i]) is ChangeDisplaySettings ==> fullscreen
            &&& calls[i] is SetForegroundWindow ==> fullscreen
            &&& calls[i] is SwapInterval ==> swaps
        }
}

proof fn lemma_step_comes_this_way(s: InitView, calls: Seq<ActionView>, reply: Reply)
    requires
        s.wf(),
        s.accepts(reply),
        came_this_way(s, calls),
    ensures
        came_this_way(s.after(reply), calls.push(s.call())),
{
    let more = calls.push(s.call());
    assert forall|call: ActionView| calls.contains(call) implies #[trigger] more.contains(call) by {
        let i = choose|i: int| 0 <= i < calls.len() && calls[i] == call;
        assert(more[i] == call);
    }
    assert(more[calls.len() as int] == s.call());
    assert(more.contains(s.call()));
    assert forall|i: int| 0 <= i < more.len() implies {
        let fullscreen = s.builder.fullscreen();
        let after = s.after(reply);
        &&& (#[trigger] more[i]) is ChangeDisplaySettings ==> fullscreen
        &&& more[i] is SetForegroundWindow ==> fullscreen
        &&& more[i] is SwapInterval ==> after.builder.vsync && after.extensions is Some
            && after.extensions->Some_0.swap_interval_ext
    } by {
        if i < calls.len() {
            assert(more[i] == calls[i]);
        }
    }
}

proof fn lemma_run_comes_this_way(
    title: Seq<u16>,
    builder: BuilderView,
    share: Option<ContextHack>,
    replies: Seq<Reply>,
)
    requires
        InitView::start(title, builder, share).accepts_all(replies),
    ensures
        ({
            let start = InitView::start(title, builder, share);
            came_this_way(start.run(replies), start.calls(replies))
        }),
    decreases replies.len(),
{
    if replies.len() > 0 {
        let start = InitView::start(title, builder, share);
        lemma_run_comes_this_way(title, builder, share, replies.drop_last());
        law_creation_is_well_formed(title, builder, share, replies.drop_last());
        lemma_step_comes_this_way(
            start.run(replies.drop_last()),
            start.calls(replies.drop_last()),
            replies.last(),
        );
    }
}

/// A window that is ready and covers a monitor has had the monitor's mode changed and was brought
/// to the front; for any other window neither was asked for.
pub proof fn law_fullscreen_alone_takes_the_monitor(
    title: Seq<u16>,
    builder: BuilderView,
    share: Option<ContextHack>,
    replies: Seq<Reply>,
)
    requires
        InitView::start(title, builder, share).accepts_all(replies),
    ensures
        ({
            let start = InitView::start(title, builder, share);
            let s = start.run(replies);
            let calls = start.calls(replies);
            &&& builder.fullscreen() && s.stage is Ready ==> {
                &&& calls.contains(display_change_of(builder))
                &&& calls.contains(
                    ActionView::SetForegroundWindow { window: s.window().window.0 },
                )
            }
            &&& !builder.fullscreen() ==> forall|i: int|
                0 <= i < calls.len() ==> (#[trigger] calls[i]) !is ChangeDisplaySettings
                    && calls[i] !is SetForegroundWindow
        }),
{
    law_creation_is_well_formed(title, builder, share, replies);
    lemma_run_comes_this_way(title, builder, share, replies);
}

/// The events of a window that is ready go to its receiver, and the library that holds OpenGL has
/// been loaded.
pub proof fn law_ready_window_is_connected(
    title: Seq<u16>,
    builder: BuilderView,
    share: Option<ContextHack>,
    replies: Seq<Reply>,
)
    requires
        InitView::start(title, builder, share).accepts_all(replies),
        InitView::start(title, builder, share).run(replies).stage is Ready,
    ensures
        ({
            let start = InitView::start(title, builder, share);
            let window = start.run(replies).window().window.0;
            let calls = start.calls(replies);
            &&& calls.contains(ActionView::InstallCallback { window })
            &&& calls.contains(ActionView::LoadLibrary { name: wide("opengl32.dll"@) })
        }),
{
    law_creation_is_well_formed(title, builder, share, replies);
    lemma_run_comes_this_way(title, builder, share, replies);
}

/// The driver is told to wait for the screen exactly if that was asked for and the driver can.
pub proof fn law_vsync_is_set_where_it_can_be(
    title: Seq<u16>,
    builder: BuilderView,
    share: Option<ContextHack>,
    replies: Seq<Reply>,
)
    requires
        InitView::start(title, builder, share).accepts_all(replies),
        InitView::start(title, builder, share).run(replies).stage is Ready,
    ensures
        ({
            let start = InitView::start(title, builder, share);
            let s = start.run(replies);
            &&& s.extensions is Some
            &&& start.calls(replies).contains(ActionView::SwapInterval { interval: 1 })
                <==> builder.vsync && s.extensions->Some_0.swap_interval_ext
        }),
{
    law_creation_is_well_formed(title, builder, share, replies);
    lemma_run_comes_this_way(title, builder, share, replies);
    let start = InitView::start(title, builder, share);
    let calls = start.calls(replies);
    if calls.contains(ActionView::SwapInterval { interval: 1 }) {
        let i = choose|i: int|
            0 <= i < calls.len() && calls[i] == (ActionView::SwapInterval { interval: 1 });
        assert(calls[i] is SwapInterval);
    }
}

/// Where the formats of a window come from the system, the choice is offered exactly the usable
/// ones among them, in order and with their numbers.
pub proof fn law_native_formats_are_offered(
    s: InitView,
    role: Role,
    num: i32,
    os_error: String,
    descriptions: Seq<Reply>,
)
    requires
        s.wf(),
        s.stage == StageView::NativeFormats(role, NativeEnumeration::Count { hdc: s.hdc() }),
        s.found.len() == 0,
        descriptions.len() == num || num <= 0 && descriptions.len() == 0,
        forall|i: int| 0 <= i < descriptions.len() ==> descriptions[i] is Described,
    ensures
        ({
            let replies = seq![Reply::Code { value: num, os_error }] + descriptions;
            &&& s.accepts_all(replies)
            &&& s.run(replies).call() == (ActionView::ChoosePixelFormat {
                candidates: numbered(native_formats(descriptions)),
            })
        }),
{
    lemma_native_walk(s, role, num, os_error, descriptions);
}

proof fn lemma_native_walk(
    s: InitView,
    role: Role,
    num: i32,
    os_error: String,
    descriptions: Seq<Reply>,
)
    requires
        s.wf(),
        s.stage == StageView::NativeFormats(role, NativeEnumeration::Count { hdc: s.hdc() }),
        s.found.len() == 0,
        descriptions.len() <= num || descriptions.len() == 0,
        forall|i: int| 0 <= i < descriptions.len() ==> descriptions[i] is Described,
    ensures
        ({
            let replies = seq![Reply::Code { value: num, os_error }] + descriptions;
            &&& s.accepts_all(replies)
            &&& s.run(replies).found == native_formats(descriptions)
            &&& s.run(replies).stage == if descriptions.len() < num {
                StageView::NativeFormats(
                    role,
                    NativeEnumeration::Describe {
                        hdc: s.hdc(),
                        index: descriptions.len() as i32,
                        num,
                    },
                )
            } else {
                StageView::ChooseFormat(role)
            }
        }),
    decreases descriptions.len(),
{
    let counted = Reply::Code { value: num, os_error };
    let replies = seq![counted] + descriptions;
    if descriptions.len() == 0 {
        assert(replies.drop_last() =~= Seq::<Reply>::empty());
        assert(replies.last() == counted);
        assert(s.run(replies.drop_last()) == s);
        assert(s.accepts_all(replies.drop_last()));
        assert(s.found =~= native_formats(descriptions));
    } else {
        lemma_native_walk(s, role, num, os_error, descriptions.drop_last());
        assert(replies.drop_last() =~= seq![counted] + descriptions.drop_last());
        assert(replies.last() == descriptions.last());
    }
}

/// What a driver replies to the first `calls` calls of a walk through its formats.
pub open spec fn driver_replies(hdc: usize, driver: spec_fn(u32, u32) -> i32, calls: nat) -> Seq<
    Reply,
> {
    Seq::new(
        calls,
        |i: int| (ArbEnumeration::Count { hdc }).run(driver, i as nat).0.answer(driver),
    )
}

/// Where the formats of the window come from the driver, the choice is offered exactly the
/// accelerated ones among them, in order and with their numbers.
///
/// `calls` is the number of calls before the last one of the walk.
pub proof fn law_driver_formats_are_offered(
    s: InitView,
    driver: spec_fn(u32, u32) -> i32,
    calls: nat,
)
    requires
        s.wf(),
        s.stage == StageView::ArbFormats(ArbEnumeration::Count { hdc: s.hdc() }),
        s.found.len() == 0,
        (ArbEnumeration::Count { hdc: s.hdc() }).run(driver, calls).0 !is Finished,
        (ArbEnumeration::Count { hdc: s.hdc() }).run(driver, calls + 1).0 is Finished,
    ensures
        ({
            let replies = driver_replies(s.hdc(), driver, calls + 1);
            &&& s.accepts_all(replies)
            &&& s.run(replies).call() == (ActionView::ChoosePixelFormat {
                candidates: numbered(
                    driver_formats(driver, attribute_value(driver, 1, NUMBER_PIXEL_FORMATS_ARB)),
                ),
            })
        }),
{
    let start = ArbEnumeration::Count { hdc: s.hdc() };
    let replies = driver_replies(s.hdc(), driver, calls + 1);
    lemma_driver_walk(s, driver, calls);
    assert(replies.drop_last() =~= driver_replies(s.hdc(), driver, calls));
    law_arb_enumeration_finds_the_accelerated_formats(s.hdc(), driver, calls + 1);
    let (walk, found) = start.run(driver, calls);
    assert(replies.last() == walk.answer(driver));
}

proof fn lemma_driver_walk(s: InitView, driver: spec_fn(u32, u32) -> i32, calls: nat)
    requires
        s.wf(),
        s.stage == StageView::ArbFormats(ArbEnumeration::Count { hdc: s.hdc() }),
        s.found.len() == 0,
        (ArbEnumeration::Count { hdc: s.hdc() }).run(driver, calls).0 !is Finished,
    ensures
        ({
            let replies = driver_replies(s.hdc(), driver, calls);
            let (walk, found) = (ArbEnumeration::Count { hdc: s.hdc() }).run(driver, calls);
            &&& s.accepts_all(replies)
            &&& s.run(replies).wf()
            &&& s.run(replies).stage == StageView::ArbFormats(walk)
            &&& s.run(replies).found == found
        }),
    decreases calls,
{
    let start = ArbEnumeration::Count { hdc: s.hdc() };
    let replies = driver_replies(s.hdc(), driver, calls);
    if calls == 0 {
        assert(s.found =~= start.run(driver, 0).1);
    } else {
        let (before, _) = start.run(driver, (calls - 1) as nat);
        assert(before !is Finished) by {
            if before is Finished {
                assert(before.after(before.answer(driver)) is Finished);
            }
        }
        lemma_driver_walk(s, driver, (calls - 1) as nat);
        assert(replies.drop_last() =~= driver_replies(s.hdc(), driver, (calls - 1) as nat));
        assert(replies.last() == before.answer(driver));
        let t = s.run(replies.drop_last());
        t.lemma_after_is_wf(replies.last());
    }
}

} // verus!
