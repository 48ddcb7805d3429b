//! Creating a rendering context.

use vstd::prelude::*;

use crate::constants::CONTEXT_DEBUG_BIT_ARB;
use crate::constants::CONTEXT_FLAGS_ARB;
use crate::constants::CONTEXT_MAJOR_VERSION_ARB;
use crate::constants::CONTEXT_MINOR_VERSION_ARB;
use crate::protocol::Action;
use crate::protocol::ActionView;
use crate::protocol::Reply;
use crate::types::Api;
use crate::types::ContextHack;
use crate::types::Extensions;
use crate::types::Failure;
use crate::types::GlRequest;
use crate::types::WindowWrapper;

verus! {

/// The driver's context attributes can say what `request` asks for: it asks for OpenGL.
pub open spec fn is_supported(request: GlRequest) -> bool {
    request matches GlRequest::Specific(api, _) ==> api == Api::OpenGl
}

/// The version of OpenGL that `request` asks for; `None` where any will do.
pub open spec fn requested_version(request: GlRequest) -> Option<(u8, u8)> {
    match request {
        GlRequest::Latest => None,
        GlRequest::Specific(_, version) => Some(version),
        GlRequest::GlThenGles { opengl_version, .. } => Some(opengl_version),
    }
}

/// The attributes of a context: names and values in turn, and a zero behind them.
pub open spec fn attributes_of(request: GlRequest, debug: bool) -> Seq<i32> {
    let version = match requested_version(request) {
        Some((major, minor)) => seq![
            CONTEXT_MAJOR_VERSION_ARB,
            major as i32,
            CONTEXT_MINOR_VERSION_ARB,
            minor as i32,
        ],
        None => Seq::empty(),
    };
    let flags = if debug {
        seq![CONTEXT_FLAGS_ARB, CONTEXT_DEBUG_BIT_ARB]
    } else {
        Seq::empty()
    };
    version + flags + seq![0i32]
}

/// Whether [`is_supported`] holds.
pub fn supported(request: GlRequest) -> (yes: bool)
    ensures
        yes == is_supported(request),
{
    match request {
        GlRequest::Specific(api, _) => api == Api::OpenGl,
        _ => true,
    }
}

/// Lists the attributes of the context that is asked for.
pub fn context_attributes(request: GlRequest, debug: bool) -> (attributes: Vec<i32>)
    requires
        is_supported(request),
    ensures
        attributes@ == attributes_of(request, debug),
{
    let mut attributes: Vec<i32> = Vec::new();
    match request {
        GlRequest::Latest => {},
        GlRequest::Specific(_, (major, minor)) => {
            attributes.push(CONTEXT_MAJOR_VERSION_ARB);
            attributes.push(major as i32);
            attributes.push(CONTEXT_MINOR_VERSION_ARB);
            attributes.push(minor as i32);
        },
        GlRequest::GlThenGles { opengl_version: (major, minor), .. } => {
            attributes.push(CONTEXT_MAJOR_VERSION_ARB);
            attributes.push(major as i32);
            attributes.push(CONTEXT_MINOR_VERSION_ARB);
            attributes.push(minor as i32);
        },
    }
    if debug {
        attributes.push(CONTEXT_FLAGS_ARB);
        attributes.push(CONTEXT_DEBUG_BIT_ARB);
    }
    attributes.push(0);
    assert(attributes@ =~= attributes_of(request, debug));
    attributes
}

/// How far the creation of a context has got.
#[derive(Debug, PartialEq, Eq)]
pub enum ContextCreation {
    /// Creating the context with the driver's own function.
    WithAttributes { hdc: usize, share: usize, attributes: Vec<i32> },
    /// Creating the context with the system's function.
    Plain { hdc: usize, share: usize },
    /// Sharing the objects of `share` with the new context.
    Share { share: usize, context: usize },
    /// The context is there.
    Finished { context: usize },
}

/// The content of a [`ContextCreation`].
pub enum ContextCreationView {
    WithAttributes { hdc: usize, share: usize, attributes: Seq<i32> },
    Plain { hdc: usize, share: usize },
    Share { share: usize, context: usize },
    Finished { context: usize },
}

impl View for ContextCreation {
    type V = ContextCreationView;

    open spec fn view(&self) -> ContextCreationView {
        match *self {
            ContextCreation::WithAttributes {
                hdc,
                share,
                attributes,
            } => ContextCreationView::WithAttributes { hdc, share, attributes: attributes@ },
            ContextCreation::Plain { hdc, share } => ContextCreationView::Plain { hdc, share },
            ContextCreation::Share { share, context } => ContextCreationView::Share {
                share,
                context,
            },
            ContextCreation::Finished { context } => ContextCreationView::Finished { context },
        }
    }
}

/// The driver's own function for creating a context was found.
pub open spec fn has_attributes(extra: Option<Extensions>) -> bool {
    extra matches Some(extensions) && extensions.create_context_attribs_arb
}

/// The context whose objects are to be shared; zero where there is none.
pub open spec fn shared_handle(share: Option<ContextHack>) -> usize {
    match share {
        Some(hack) => hack.0,
        None => 0,
    }
}

/// The first step of the creation of a context.
pub open spec fn context_creation(
    extra: Option<Extensions>,
    request: GlRequest,
    debug: bool,
    hdc: usize,
    share: Option<ContextHack>,
) -> ContextCreationView {
    if has_attributes(extra) {
        ContextCreationView::WithAttributes {
            hdc,
            share: shared_handle(share),
            attributes: attributes_of(request, debug),
        }
    } else {
        ContextCreationView::Plain { hdc, share: shared_handle(share) }
    }
}

/// Begins to create a context for a window.
///
/// The driver's own function is used where it was found, and only then does it matter what
/// the context is asked to be.
pub fn create_context(
    extra: Option<Extensions>,
    request: GlRequest,
    debug: bool,
    hdc: &WindowWrapper,
    share: Option<ContextHack>,
) -> (creation: ContextCreation)
    requires
        has_attributes(extra) ==> is_supported(request),
    ensures
        creation@ == context_creation(extra, request, debug, hdc.1, share),
{
    let share: usize = match share {
        Some(hack) => hack.0,
        None => 0,
    };
    if let Some(extensions) = extra {
        if extensions.create_context_attribs_arb {
            let attributes = context_attributes(request, debug);
            return ContextCreation::WithAttributes { hdc: hdc.1, share, attributes };
        }
    }
    ContextCreation::Plain { hdc: hdc.1, share }
}

impl ContextCreationView {
    /// The call that the creation waits for.
    pub open spec fn call(self) -> ActionView {
        match self {
            ContextCreationView::WithAttributes {
                hdc,
                share,
                attributes,
            } => ActionView::CreateContextAttribs { hdc, share, attributes },
            ContextCreationView::Plain { hdc, share } => ActionView::CreateContext { hdc },
            ContextCreationView::Share { share, context } => ActionView::ShareLists {
                share,
                context,
            },
            ContextCreationView::Finished { context } => ActionView::Finish,
        }
    }

    /// `reply` is a reply to the call that the creation waits for.
    pub open spec fn accepts(self, reply: Reply) -> bool {
        match self {
            ContextCreationView::WithAttributes { .. } => reply is Handle,
            ContextCreationView::Plain { .. } => reply is Handle,
            ContextCreationView::Share { .. } => reply is Done,
            ContextCreationView::Finished { .. } => false,
        }
    }

    /// Where the creation stands behind `reply`. A null context is a failure; the system's
    /// function does not share by itself, so that there the sharing is a call of its own,
    /// whose result is ignored.
    pub open spec fn after(self, reply: Reply) -> Result<ContextCreationView, Failure> {
        match (self, reply) {
            (
                ContextCreationView::WithAttributes { .. },
                Reply::Handle { value, os_error },
            ) => if value == 0 {
                Err(Failure::CreateContext(os_error))
            } else {
                Ok(ContextCreationView::Finished { context: value })
            },
            (
                ContextCreationView::Plain { hdc, share },
                Reply::Handle { value, os_error },
            ) => if value == 0 {
                Err(Failure::CreateContext(os_error))
            } else if share != 0 {
                Ok(ContextCreationView::Share { share, context: value })
            } else {
                Ok(ContextCreationView::Finished { context: value })
            },
            (ContextCreationView::Share { share, context }, Reply::Done) => Ok(
                ContextCreationView::Finished { context },
            ),
            _ => Ok(self),
        }
    }
}

impl ContextCreation {
    /// The call to be made next.
    pub fn action(&self) -> (action: Action)
        ensures
            action@ == self@.call(),
    {
        match self {
            ContextCreation::WithAttributes { hdc, share, attributes } => {
                let copy = attributes.clone();
                assert(copy@ =~= attributes@);
                Action::CreateContextAttribs { hdc: *hdc, share: *share, attributes: copy }
            },
            ContextCreation::Plain { hdc, .. } => Action::CreateContext { hdc: *hdc },
            ContextCreation::Share { share, context } => Action::ShareLists {
                share: *share,
                context: *context,
            },
            ContextCreation::Finished { .. } => Action::Finish,
        }
    }

    /// Takes in the reply to the call.
    pub fn step(self, reply: Reply) -> (outcome: Result<ContextCreation, Failure>)
        requires
            self@.accepts(reply),
        ensures
            outcome matches Ok(creation) ==> self@.after(reply) == Ok::<
                ContextCreationView,
                Failure,
            >(creation@),
            outcome matches Err(failure) ==> self@.after(reply) == Err::<
                ContextCreationView,
                Failure,
            >(failure),
    {
        match (self, reply) {
            (ContextCreation::WithAttributes { .. }, Reply::Handle { value, os_error }) => {
                if value == 0 {
                    return Err(Failure::CreateContext(os_error));
                }
                Ok(ContextCreation::Finished { context: value })
            },
            (ContextCreation::Plain { share, .. }, Reply::Handle { value, os_error }) => {
                if value == 0 {
                    return Err(Failure::CreateContext(os_error));
                }
                if share != 0 {
                    return Ok(ContextCreation::Share { share, context: value });
                }
                Ok(ContextCreation::Finished { context: value })
            },
            (ContextCreation::Share { context, .. }, _) => Ok(
                ContextCreation::Finished { context },
            ),
            (creation, _) => Ok(creation),
        }
    }
}

/// A list of attributes consists of pairs of a name and a value, ends with a zero, and holds no
/// zero in the place of a name before that: the driver reads all of it and nothing behind it.
pub proof fn law_attributes_are_terminated(request: GlRequest, debug: bool)
    ensures
        attributes_of(request, debug).len() % 2 == 1,
        attributes_of(request, debug).last() == 0,
        forall|i: int|
            0 <= 2 * i < attributes_of(request, debug).len() - 1 ==> #[trigger] attributes_of(
                request,
                debug,
            )[2 * i] != 0,
{
}

/// Where there is a context to share with, its objects are shared either by the creation
/// itself or by a call behind it.
pub proof fn law_objects_are_shared(
    extra: Option<Extensions>,
    request: GlRequest,
    debug: bool,
    hdc: usize,
    hack: ContextHack,
    context: usize,
    os_error: String,
)
    requires
        hack.0 != 0,
        context != 0,
    ensures
        ({
            let start = context_creation(extra, request, debug, hdc, Some(hack));
            let created = Reply::Handle { value: context, os_error };
            if has_attributes(extra) {
                start.call() == (ActionView::CreateContextAttribs {
                    hdc,
                    share: hack.0,
                    attributes: attributes_of(request, debug),
                })
            } else {
                &&& start.after(created) is Ok
                &&& start.after(created)->Ok_0.call() == (ActionView::ShareLists {
                    share: hack.0,
                    context,
                })
            }
        }),
{
}

/// The `i`-th pair of the list is `name` with `value`.
pub open spec fn pair_at(attributes: Seq<i32>, i: int, name: i32, value: i32) -> bool {
    attributes[2 * i] == name && attributes[2 * i + 1] == value
}

/// The list gives `name` the value `value`.
pub open spec fn gives(attributes: Seq<i32>, name: i32, value: i32) -> bool {
    exists|i: int|
        0 <= i && 2 * i + 1 < attributes.len() && #[trigger] pair_at(attributes, i, name, value)
}

/// The list says nothing of `name`.
pub open spec fn is_silent_on(attributes: Seq<i32>, name: i32) -> bool {
    forall|i: int, value: i32|
        0 <= i && 2 * i + 1 < attributes.len() ==> !#[trigger] pair_at(attributes, i, name, value)
}

/// Read as pairs of a name and a value up to the zero behind them, the list asks for the version
/// and the debugging that a context is to have, and for nothing else; the names only grow.
pub open spec fn asks_for(attributes: Seq<i32>, version: Option<(u8, u8)>, debug: bool) -> bool {
    &&& match version {
        Some((major, minor)) => {
            &&& gives(attributes, 0x2091, major as i32)
            &&& gives(attributes, 0x2092, minor as i32)
        },
        None => is_silent_on(attributes, 0x2091) && is_silent_on(attributes, 0x2092),
    }
    &&& if debug {
        gives(attributes, 0x2094, 1)
    } else {
        is_silent_on(attributes, 0x2094)
    }
    &&& attributes.len() == 1 + (if version is Some {
        4int
    } else {
        0
    }) + (if debug {
        2int
    } else {
        0
    })
    &&& attributes.last() == 0
    &&& forall|i: int, j: int|
        0 <= i < j && 2 * j + 1 < attributes.len() ==> #[trigger] attributes[2 * i]
            < #[trigger] attributes[2 * j]
}

/// The attributes of a context ask for exactly the version that was asked for. Where OpenGL ES
/// would do as well, that is the version of OpenGL; where the latest version is wanted, none.
pub proof fn law_attributes_ask_for_the_version(
    api: Api,
    version: (u8, u8),
    other: (u8, u8),
    debug: bool,
)
    ensures
        asks_for(attributes_of(GlRequest::Latest, debug), None, debug),
        asks_for(attributes_of(GlRequest::Specific(api, version), debug), Some(version), debug),
        asks_for(
            attributes_of(
                GlRequest::GlThenGles { opengl_version: version, opengles_version: other },
                debug,
            ),
            Some(version),
            debug,
        ),
        attributes_of(
            GlRequest::GlThenGles { opengl_version: version, opengles_version: other },
            debug,
        ) == attributes_of(GlRequest::Specific(Api::OpenGl, version), debug),
{
    let latest = attributes_of(GlRequest::Latest, debug);
    let specific = attributes_of(GlRequest::Specific(api, version), debug);
    let either = attributes_of(
        GlRequest::GlThenGles { opengl_version: version, opengles_version: other },
        debug,
    );
    assert(pair_at(specific, 0, 0x2091, version.0 as i32));
    assert(pair_at(specific, 1, 0x2092, version.1 as i32));
    assert(pair_at(either, 0, 0x2091, version.0 as i32));
    assert(pair_at(either, 1, 0x2092, version.1 as i32));
    if debug {
        assert(pair_at(latest, 0, 0x2094, 1));
        assert(pair_at(specific, 2, 0x2094, 1));
        assert(pair_at(either, 2, 0x2094, 1));
    }
}

/// The driver's own function is asked exactly where it was found, for a context as it was asked
/// for. A null context is a failure with the system's text. Where the system's function made the
/// context, a call that shares the objects follows it if there is a context to share with; what
/// comes of that call does not matter.
pub proof fn law_creation_goes_by_its_replies(
    extra: Option<Extensions>,
    request: GlRequest,
    debug: bool,
    hdc: usize,
    share: Option<ContextHack>,
    value: usize,
    os_error: String,
    reply: Reply,
)
    requires
        request matches GlRequest::Specific(api, _) ==> api == Api::OpenGl,
    ensures
        ({
            let start = context_creation(extra, request, debug, hdc, share);
            let next = start.after(Reply::Handle { value, os_error });
            let other = match share {
                Some(hack) => hack.0,
                None => 0,
            };
            let version = match request {
                GlRequest::Latest => None,
                GlRequest::Specific(_, version) => Some(version),
                GlRequest::GlThenGles { opengl_version, .. } => Some(opengl_version),
            };
            let by_driver = extra matches Some(found) && found.create_context_attribs_arb;
            let done = ContextCreationView::Finished { context: value };
            let sharing = ContextCreationView::Share { share: other, context: value };
            &&& if by_driver {
                &&& start.call() matches ActionView::CreateContextAttribs {
                    hdc: given,
                    share: shared,
                    attributes,
                }
                &&& given == hdc
                &&& shared == other
                &&& asks_for(attributes, version, debug)
            } else {
                start.call() == (ActionView::CreateContext { hdc })
            }
            &&& start.accepts(reply) <==> reply is Handle
            &&& value == 0 ==> next == Err::<ContextCreationView, Failure>(
                Failure::CreateContext(os_error),
            )
            &&& value != 0 ==> next == Ok::<ContextCreationView, Failure>(
                if !by_driver && other != 0 {
                    sharing
                } else {
                    done
                },
            )
            &&& sharing.call() == (ActionView::ShareLists { share: other, context: value })
            &&& sharing.accepts(reply) <==> reply is Done
            &&& sharing.after(Reply::Done) == Ok::<ContextCreationView, Failure>(done)
            &&& done.call() == ActionView::Finish
            &&& !done.accepts(reply)
        }),
{
    match request {
        GlRequest::Latest => {
            law_attributes_ask_for_the_version(Api::OpenGl, (0, 0), (0, 0), debug);
        },
        GlRequest::Specific(api, version) => {
            law_attributes_ask_for_the_version(api, version, (0, 0), debug);
        },
        GlRequest::GlThenGles { opengl_version, opengles_version } => {
            law_attributes_ask_for_the_version(
                Api::OpenGl,
                opengl_version,
                opengles_version,
                debug,
            );
        },
    }
}

} // verus!
