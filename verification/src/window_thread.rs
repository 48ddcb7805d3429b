//! The thread of a window: it creates the window, tells what came of it, and then passes on the
//! window's events.
//!
//! The system hands the events of a window only to the thread that created it, so that every
//! window has a thread of its own.

use vstd::prelude::*;

use crate::init::init;
use crate::init::Init;
use crate::init::InitView;
use crate::init::Refusal;
use crate::init::StageView;
use crate::protocol::Action;
use crate::protocol::ActionView;
use crate::protocol::Reply;
use crate::text::wide;
use crate::text::wide_string;
use crate::trace::law_finished_creation_asks_for_nothing;
use crate::trace::law_ready_window_is_the_one_that_was_made;
use crate::trace::law_windows_have_the_class_that_is_registered;
use crate::trace::law_windows_have_the_title_and_the_styles_asked_for;
use crate::types::BuilderAttribs;
use crate::types::BuilderView;
use crate::types::ContextHack;
use crate::types::ContextWrapper;
use crate::types::CreationError;
use crate::types::Window;
use crate::types::WindowWrapper;

verus! {

/// Something that the thread is to do.
#[derive(Debug, PartialEq, Eq)]
pub enum ThreadAction {
    /// A call that the creation of the window needs.
    Create(Action),
    /// Tells the one who asked for the window what came of it. It does not matter whether
    /// anybody listens.
    Report(Result<Window, CreationError>),
    /// `GetMessageW`, for a window or, where that is zero, for all windows of the thread.
    GetMessage { window: usize, filter_min: u32, filter_max: u32 },
    /// `TranslateMessage` on the message that was got.
    TranslateMessage,
    /// `DispatchMessageW` on the message that was got.
    DispatchMessage,
    /// The end of the thread.
    Exit,
}

/// The content of a [`ThreadAction`].
pub enum ThreadActionView {
    Create(ActionView),
    Report(Result<Window, Seq<char>>),
    GetMessage { window: usize, filter_min: u32, filter_max: u32 },
    TranslateMessage,
    DispatchMessage,
    Exit,
}

/// What came of a creation: the window, or the text of the error.
pub open spec fn result_view(result: Result<Window, CreationError>) -> Result<Window, Seq<char>> {
    match result {
        Ok(window) => Ok(window),
        Err(error) => Err(error@),
    }
}

impl View for ThreadAction {
    type V = ThreadActionView;

    open spec fn view(&self) -> ThreadActionView {
        match *self {
            ThreadAction::Create(action) => ThreadActionView::Create(action@),
            ThreadAction::Report(result) => ThreadActionView::Report(result_view(result)),
            ThreadAction::GetMessage {
                window,
                filter_min,
                filter_max,
            } => ThreadActionView::GetMessage { window, filter_min, filter_max },
            ThreadAction::TranslateMessage => ThreadActionView::TranslateMessage,
            ThreadAction::DispatchMessage => ThreadActionView::DispatchMessage,
            ThreadAction::Exit => ThreadActionView::Exit,
        }
    }
}

/// Where the thread of a window stands.
#[derive(Debug)]
pub enum WindowThread {
    Creating(Init),
    Reporting(Result<Window, CreationError>),
    /// Waiting for the next message.
    Fetching,
    Translating,
    Dispatching,
    Ended,
}

/// The content of a [`WindowThread`].
pub enum WindowThreadView {
    Creating(InitView),
    Reporting(Result<Window, Seq<char>>),
    Fetching,
    Translating,
    Dispatching,
    Ended,
}

impl View for WindowThread {
    type V = WindowThreadView;

    open spec fn view(&self) -> WindowThreadView {
        match *self {
            WindowThread::Creating(init) => WindowThreadView::Creating(init@),
            WindowThread::Reporting(result) => WindowThreadView::Reporting(result_view(result)),
            WindowThread::Fetching => WindowThreadView::Fetching,
            WindowThread::Translating => WindowThreadView::Translating,
            WindowThread::Dispatching => WindowThreadView::Dispatching,
            WindowThread::Ended => WindowThreadView::Ended,
        }
    }
}

/// What a creation that is finished came to.
pub open spec fn outcome_of(init: InitView) -> Result<Window, Seq<char>>
    recommends
        init.is_finished(),
{
    match init.stage {
        StageView::Failed(failure) => Err(failure.message()),
        _ => Ok(init.window()),
    }
}

impl WindowThreadView {
    /// The beginning of the thread of a window.
    pub open spec fn start(builder: BuilderView, share: Option<ContextHack>) -> WindowThreadView {
        WindowThreadView::Creating(InitView::start(wide(builder.title), builder, share))
    }

    /// The creation is well-formed and not finished.
    pub open spec fn wf(self) -> bool {
        self matches WindowThreadView::Creating(init) ==> init.wf() && !init.is_finished()
    }

    /// What the thread is to do.
    pub open spec fn call(self) -> ThreadActionView {
        match self {
            WindowThreadView::Creating(init) => ThreadActionView::Create(init.call()),
            WindowThreadView::Reporting(result) => ThreadActionView::Report(result),
            WindowThreadView::Fetching => ThreadActionView::GetMessage {
                window: 0,
                filter_min: 0,
                filter_max: 0,
            },
            WindowThreadView::Translating => ThreadActionView::TranslateMessage,
            WindowThreadView::Dispatching => ThreadActionView::DispatchMessage,
            WindowThreadView::Ended => ThreadActionView::Exit,
        }
    }

    /// Why `reply` cannot be taken in; `None` where it can.
    pub open spec fn refuses(self, reply: Reply) -> Option<Refusal> {
        let expected = match self {
            WindowThreadView::Creating(_) => true,
            WindowThreadView::Reporting(_) => reply is Done,
            WindowThreadView::Fetching => reply is Code,
            WindowThreadView::Translating => reply is Done,
            WindowThreadView::Dispatching => reply is Done,
            WindowThreadView::Ended => false,
        };
        match self {
            WindowThreadView::Creating(init) => init.refuses(reply),
            _ => if expected {
                None
            } else {
                Some(Refusal::WrongReply)
            },
        }
    }

    /// `reply` can be taken in.
    pub open spec fn accepts(self, reply: Reply) -> bool {
        self.refuses(reply) is None
    }

    /// The thread behind `reply`: an error ends it once it has been reported, and a window lets
    /// it go through messages until the one that asks it to quit.
    pub open spec fn after(self, reply: Reply) -> WindowThreadView {
        match (self, reply) {
            (WindowThreadView::Creating(init), _) => if init.after(reply).is_finished() {
                WindowThreadView::Reporting(outcome_of(init.after(reply)))
            } else {
                WindowThreadView::Creating(init.after(reply))
            },
            (WindowThreadView::Reporting(result), Reply::Done) => if result is Ok {
                WindowThreadView::Fetching
            } else {
                WindowThreadView::Ended
            },
            (WindowThreadView::Fetching, Reply::Code { value, .. }) => if value == 0 {
                WindowThreadView::Ended
            } else {
                WindowThreadView::Translating
            },
            (WindowThreadView::Translating, Reply::Done) => WindowThreadView::Dispatching,
            (WindowThreadView::Dispatching, Reply::Done) => WindowThreadView::Fetching,
            _ => self,
        }
    }

    /// The thread behind all of `replies`.
    pub open spec fn run(self, replies: Seq<Reply>) -> WindowThreadView
        decreases replies.len(),
    {
        if replies.len() == 0 {
            self
        } else {
            self.run(replies.drop_last()).after(replies.last())
        }
    }

    /// Each of `replies` can be taken in behind those before it.
    pub open spec fn accepts_all(self, replies: Seq<Reply>) -> bool
        decreases replies.len(),
    {
        if replies.len() == 0 {
            true
        } else {
            &&& self.accepts_all(replies.drop_last())
            &&& self.run(replies.drop_last()).accepts(replies.last())
        }
    }

    /// What the thread has done to get `replies`.
    pub open spec fn calls(self, replies: Seq<Reply>) -> Seq<ThreadActionView>
        decreases replies.len(),
    {
        if replies.len() == 0 {
            Seq::empty()
        } else {
            self.calls(replies.drop_last()).push(self.run(replies.drop_last()).call())
        }
    }
}

/// Begins to create a window, in a thread of its own.
///
/// The new context shares its objects with `builder_sharelists`, where that is given.
pub fn new_window(builder: BuilderAttribs, builder_sharelists: Option<ContextHack>) -> (thread:
    WindowThread)
    ensures
        thread@ == WindowThreadView::start(builder@, builder_sharelists),
        thread@.wf(),
{
    let title = wide_string(builder.title.as_str());
    WindowThread::Creating(init(title, builder, builder_sharelists))
}

fn copy_result(result: &Result<Window, CreationError>) -> (copy: Result<Window, CreationError>)
    ensures
        copy == *result,
{
    match result {
        Ok(window) => Ok(*window),
        Err(CreationError::OsError(message)) => Err(CreationError::OsError(message.clone())),
    }
}

impl WindowThread {
    /// What the thread is to do next.
    pub fn action(&self) -> (action: ThreadAction)
        requires
            self@.wf(),
        ensures
            action@ == self@.call(),
    {
        match self {
            WindowThread::Creating(init) => ThreadAction::Create(init.action()),
            WindowThread::Reporting(result) => ThreadAction::Report(copy_result(result)),
            WindowThread::Fetching => ThreadAction::GetMessage {
                window: 0,
                filter_min: 0,
                filter_max: 0,
            },
            WindowThread::Translating => ThreadAction::TranslateMessage,
            WindowThread::Dispatching => ThreadAction::DispatchMessage,
            WindowThread::Ended => ThreadAction::Exit,
        }
    }

    /// Why `reply` cannot be taken in; `None` where it can.
    pub fn refusal(&self, reply: &Reply) -> (refusal: Option<Refusal>)
        requires
            self@.wf(),
        ensures
            refusal == self@.refuses(*reply),
    {
        let expected = match self {
            WindowThread::Creating(init) => {
                return init.refusal(reply);
            },
            WindowThread::Reporting(_) => matches!(reply, Reply::Done),
            WindowThread::Fetching => matches!(reply, Reply::Code { .. }),
            WindowThread::Translating => matches!(reply, Reply::Done),
            WindowThread::Dispatching => matches!(reply, Reply::Done),
            WindowThread::Ended => false,
        };
        if expected {
            None
        } else {
            Some(Refusal::WrongReply)
        }
    }

    /// Takes in the reply to what was done.
    pub fn step(self, reply: Reply) -> (thread: WindowThread)
        requires
            self@.wf(),
            self@.accepts(reply),
        ensures
            thread@ == self@.after(reply),
            thread@.wf(),
    {
        match (self, reply) {
            (WindowThread::Creating(init), reply) => {
                let mut init = init;
                init.step(reply);
                if init.finished() {
                    WindowThread::Reporting(init.outcome())
                } else {
                    WindowThread::Creating(init)
                }
            },
            (WindowThread::Reporting(Ok(_)), _) => WindowThread::Fetching,
            (WindowThread::Reporting(Err(_)), _) => WindowThread::Ended,
            (WindowThread::Fetching, Reply::Code { value, .. }) => {
                if value == 0 {
                    WindowThread::Ended
                } else {
                    WindowThread::Translating
                }
            },
            (WindowThread::Translating, _) => WindowThread::Dispatching,
            (WindowThread::Dispatching, _) => WindowThread::Fetching,
            (thread, _) => thread,
        }
    }
}

proof fn lemma_calls_come_from_the_states(s: WindowThreadView, replies: Seq<Reply>, i: int)
    requires
        0 <= i < replies.len(),
    ensures
        s.calls(replies).len() == replies.len(),
        s.calls(replies)[i] == s.run(replies.take(i)).call(),
        s.run(replies.take(i + 1)) == s.run(replies.take(i)).after(replies[i]),
        s.accepts_all(replies) ==> s.accepts_all(replies.take(i)),
        s.accepts_all(replies) ==> s.run(replies.take(i)).accepts(replies[i]),
    decreases replies.len(),
{
    let front = replies.drop_last();
    if i < front.len() {
        lemma_calls_come_from_the_states(s, front, i);
        assert(front.take(i) =~= replies.take(i));
        assert(front.take(i + 1) =~= replies.take(i + 1));
    } else {
        assert(replies.take(i) =~= front);
        assert(replies.take(i + 1) =~= replies);
        if front.len() > 0 {
            lemma_calls_come_from_the_states(s, front, 0);
        }
    }
}

/// Every message that was got is translated and then dispatched before the next one is got, and
/// behind the one that says to quit nothing is done any more.
#[verifier::spinoff_prover]
#[verifier::rlimit(40)]
pub proof fn law_messages_are_passed_on_one_by_one(
    s: WindowThreadView,
    replies: Seq<Reply>,
    i: int,
    value: i32,
    os_error: String,
)
    requires
        s.accepts_all(replies),
        0 <= i < replies.len(),
        s.calls(replies)[i] is GetMessage,
        replies[i] == (Reply::Code { value, os_error }),
    ensures
        value == 0 ==> i == replies.len() - 1 && s.run(replies).call() == ThreadActionView::Exit,
        value != 0 && i + 1 < replies.len() ==> s.calls(replies)[i + 1]
            == ThreadActionView::TranslateMessage,
        value != 0 && i + 2 < replies.len() ==> s.calls(replies)[i + 2]
            == ThreadActionView::DispatchMessage,
        value != 0 && i + 3 < replies.len() ==> s.calls(replies)[i + 3] is GetMessage,
{
    lemma_calls_come_from_the_states(s, replies, i);
    assert(s.run(replies.take(i)) == WindowThreadView::Fetching);
    if i + 1 < replies.len() {
        lemma_calls_come_from_the_states(s, replies, i + 1);
    } else {
        assert(replies.take(i + 1) =~= replies);
    }
    if i + 2 < replies.len() {
        lemma_calls_come_from_the_states(s, replies, i + 2);
    }
    if i + 3 < replies.len() {
        lemma_calls_come_from_the_states(s, replies, i + 3);
    }
}

/// The outcome stands at place `k` of the calls, the creation before it, and messages behind it.
pub open spec fn reported_at(calls: Seq<ThreadActionView>, k: int, result: Result<
    Window,
    Seq<char>,
>) -> bool {
    &&& 0 <= k < calls.len()
    &&& calls[k] == ThreadActionView::Report(result)
    &&& forall|i: int| 0 <= i < k ==> (#[trigger] calls[i]) is Create
    &&& forall|i: int|
        k < i < calls.len() ==> {
            ||| (#[trigger] calls[i]) is GetMessage
            ||| calls[i] is TranslateMessage
            ||| calls[i] is DispatchMessage
        }
    &&& result is Err ==> k == calls.len() - 1
}

/// The thread reports once, when the creation is over and before it asks for any message; a
/// thread without a window never asks for one.
pub proof fn law_outcome_is_reported_once(
    builder: BuilderView,
    share: Option<ContextHack>,
    replies: Seq<Reply>,
)
    requires
        WindowThreadView::start(builder, share).accepts_all(replies),
    ensures
        ({
            let start = WindowThreadView::start(builder, share);
            let s = start.run(replies);
            let calls = start.calls(replies);
            if s is Creating || s is Reporting {
                forall|i: int| 0 <= i < calls.len() ==> (#[trigger] calls[i]) is Create
            } else {
                exists|k: int, result: Result<Window, Seq<char>>|
                    #[trigger] reported_at(calls, k, result) && (s !is Ended ==> result is Ok)
            }
        }),
    decreases replies.len(),
{
    if replies.len() > 0 {
        let start = WindowThreadView::start(builder, share);
        let front = replies.drop_last();
        law_outcome_is_reported_once(builder, share, front);
        let before = start.run(front);
        let calls = start.calls(front);
        let more = start.calls(replies);
        assert(more == calls.push(before.call()));
        match before {
            WindowThreadView::Creating(_) => {},
            WindowThreadView::Reporting(result) => {
                assert(reported_at(more, calls.len() as int, result));
            },
            _ => {
                let (k, result) = choose|k: int, result: Result<Window, Seq<char>>|
                    #[trigger] reported_at(calls, k, result) && (before !is Ended ==> result is Ok);
                assert(reported_at(more, k, result));
            },
        }
    }
}

/// As long as the window is being created, the thread does what the creation asks for, with the
/// title in UTF-16.
pub proof fn law_thread_creates_the_window(
    builder: BuilderView,
    share: Option<ContextHack>,
    replies: Seq<Reply>,
)
    requires
        WindowThreadView::start(builder, share).accepts_all(replies),
        WindowThreadView::start(builder, share).run(replies) is Creating,
    ensures
        ({
            let creation = InitView::start(wide(builder.title), builder, share);
            &&& creation.accepts_all(replies)
            &&& WindowThreadView::start(builder, share).run(replies) == WindowThreadView::Creating(
                creation.run(replies),
            )
        }),
    decreases replies.len(),
{
    if replies.len() > 0 {
        let before = WindowThreadView::start(builder, share).run(replies.drop_last());
        assert(before is Creating);
        law_thread_creates_the_window(builder, share, replies.drop_last());
    }
}

/// What the thread reports is what the creation of the window came to.
pub proof fn law_report_is_the_outcome(
    builder: BuilderView,
    share: Option<ContextHack>,
    replies: Seq<Reply>,
)
    requires
        WindowThreadView::start(builder, share).accepts_all(replies),
        WindowThreadView::start(builder, share).run(replies) is Reporting,
    ensures
        ({
            let creation = InitView::start(wide(builder.title), builder, share);
            &&& creation.accepts_all(replies)
            &&& creation.run(replies).is_finished()
            &&& WindowThreadView::start(builder, share).run(replies) == WindowThreadView::Reporting(
                outcome_of(creation.run(replies)),
            )
        }),
{
    let before = WindowThreadView::start(builder, share).run(replies.drop_last());
    assert(replies.len() > 0);
    assert(before is Creating);
    law_thread_creates_the_window(builder, share, replies.drop_last());
}

/// What the thread does is read as it stands: a call of the creation, the report, or one of the
/// calls that pass on messages.
pub proof fn law_thread_actions_are_read_as_they_stand(action: ThreadAction)
    ensures
        match (action, action@) {
            (ThreadAction::Create(call), ThreadActionView::Create(view)) => view == call@,
            (
                ThreadAction::Report(Ok(window)),
                ThreadActionView::Report(Ok(view)),
            ) => view == window,
            (
                ThreadAction::Report(Err(CreationError::OsError(text))),
                ThreadActionView::Report(Err(view)),
            ) => view == text@,
            (
                ThreadAction::GetMessage { window, filter_min, filter_max },
                ThreadActionView::GetMessage { window: w, filter_min: min, filter_max: max },
            ) => w == window && min == filter_min && max == filter_max,
            (ThreadAction::TranslateMessage, ThreadActionView::TranslateMessage) => true,
            (ThreadAction::DispatchMessage, ThreadActionView::DispatchMessage) => true,
            (ThreadAction::Exit, ThreadActionView::Exit) => true,
            _ => false,
        },
{
}

/// In every thread, every window that is created has the title that is asked for, in UTF-16 and
/// with a zero behind it.
pub proof fn law_windows_of_a_thread_have_its_title(
    builder: BuilderView,
    share: Option<ContextHack>,
    replies: Seq<Reply>,
    i: int,
)
    requires
        WindowThreadView::start(builder, share).accepts_all(replies),
    ensures
        ({
            let start = WindowThreadView::start(builder, share);
            &&& start.run(replies).call() matches ThreadActionView::Create(
                ActionView::CreateWindow { title, .. },
            ) ==> title == wide(builder.title)
            &&& 0 <= i < replies.len() ==> (start.calls(replies)[i] matches ThreadActionView::Create(
                ActionView::CreateWindow { title, .. },
            ) ==> title == wide(builder.title))
        }),
{
    let start = WindowThreadView::start(builder, share);
    let creation = wide(builder.title);
    if start.run(replies) is Creating {
        law_thread_creates_the_window(builder, share, replies);
        law_windows_have_the_title_and_the_styles_asked_for(creation, builder, share, replies);
    }
    if 0 <= i < replies.len() {
        let front = replies.take(i);
        lemma_calls_come_from_the_states(start, replies, i);
        if start.run(front) is Creating {
            law_thread_creates_the_window(builder, share, front);
            law_windows_have_the_title_and_the_styles_asked_for(creation, builder, share, front);
        }
    }
}

/// A thread begins by registering the class of its windows.
pub proof fn law_thread_begins_with_the_class(builder: BuilderView, share: Option<ContextHack>)
    ensures
        WindowThreadView::start(builder, share).call() == ThreadActionView::Create(
            ActionView::RegisterClass {
                style: 0x0023,
                cls_extra: 0,
                wnd_extra: 0,
                class_name: wide("Window Class"@),
            },
        ),
{
    law_windows_have_the_class_that_is_registered(
        wide(builder.title),
        builder,
        share,
        Seq::empty(),
    );
}

/// What the thread does next. It makes the calls that the creation asks for, until that asks for
/// nothing more. Then it reports: the failure, where there was one, and otherwise the window,
/// device context, context and library that were got last. Behind a failure it ends; behind a
/// window it gets, translates and dispatches messages of all windows until it is told to quit.
pub proof fn law_thread_goes_on(
    builder: BuilderView,
    share: Option<ContextHack>,
    replies: Seq<Reply>,
    reply: Reply,
)
    requires
        WindowThreadView::start(builder, share).accepts_all(replies),
        WindowThreadView::start(builder, share).run(replies).accepts(reply),
    ensures
        ({
            let thread = WindowThreadView::start(builder, share).run(replies);
            let creation = InitView::start(wide(builder.title), builder, share);
            let all = replies.push(reply);
            let p = creation.past(all);
            let next = thread.after(reply).call();
            let any_message = ThreadActionView::GetMessage {
                window: 0,
                filter_min: 0,
                filter_max: 0,
            };
            match thread.call() {
                ThreadActionView::Create(call) => {
                    &&& call == creation.run(replies).call()
                    &&& creation.accepts_all(all)
                    &&& next == if creation.run(all).call() != ActionView::Finish {
                        ThreadActionView::Create(creation.run(all).call())
                    } else if p.failure is Some {
                        ThreadActionView::Report(Err(p.failure->Some_0.message()))
                    } else {
                        ThreadActionView::Report(
                            Ok(
                                Window {
                                    window: WindowWrapper(p.window, p.dc),
                                    context: ContextWrapper(p.context),
                                    gl_library: p.library,
                                    is_closed: false,
                                },
                            ),
                        )
                    }
                },
                ThreadActionView::Report(result) => next == if result is Ok {
                    any_message
                } else {
                    ThreadActionView::Exit
                },
                ThreadActionView::GetMessage { .. } => {
                    &&& thread.call() == any_message
                    &&& reply matches Reply::Code { value, .. }
                    &&& next == if value == 0 {
                        ThreadActionView::Exit
                    } else {
                        ThreadActionView::TranslateMessage
                    }
                },
                ThreadActionView::TranslateMessage => next == ThreadActionView::DispatchMessage,
                ThreadActionView::DispatchMessage => next == any_message,
                ThreadActionView::Exit => false,
            }
        }),
{
    let thread = WindowThreadView::start(builder, share).run(replies);
    let creation = InitView::start(wide(builder.title), builder, share);
    let all = replies.push(reply);
    if thread is Creating {
        law_thread_creates_the_window(builder, share, replies);
        assert(all.drop_last() =~= replies);
        assert(all.last() == reply);
        law_finished_creation_asks_for_nothing(wide(builder.title), builder, share, all);
        if creation.run(all).stage is Ready {
            law_ready_window_is_the_one_that_was_made(wide(builder.title), builder, share, all);
        }
    }
}

/// The thread takes in what the creation takes in, the word that the report is made or the message
/// passed on, and a number for the message that it asked for; nothing else, and nothing behind its
/// end.
pub proof fn law_thread_refuses_wrong_replies_only(
    builder: BuilderView,
    share: Option<ContextHack>,
    replies: Seq<Reply>,
    reply: Reply,
)
    requires
        WindowThreadView::start(builder, share).accepts_all(replies),
    ensures
        ({
            let thread = WindowThreadView::start(builder, share).run(replies);
            let creation = InitView::start(wide(builder.title), builder, share);
            let refusal = thread.refuses(reply);
            &&& thread.accepts(reply) <==> refusal is None
            &&& match thread.call() {
                ThreadActionView::Create(_) => refusal == creation.run(replies).refuses(reply),
                ThreadActionView::GetMessage { .. } => {
                    &&& reply is Code ==> refusal is None
                    &&& reply !is Code ==> refusal == Some(Refusal::WrongReply)
                },
                ThreadActionView::Exit => refusal == Some(Refusal::WrongReply),
                _ => {
                    &&& reply is Done ==> refusal is None
                    &&& reply !is Done ==> refusal == Some(Refusal::WrongReply)
                },
            }
        }),
{
    if WindowThreadView::start(builder, share).run(replies) is Creating {
        law_thread_creates_the_window(builder, share, replies);
    }
}

} // verus!
