use glwindow::context::{context_attributes, create_context, supported, ContextCreation};
use glwindow::protocol::{Action, Reply};
use glwindow::types::{Api, ContextHack, Extensions, Failure, GlRequest, WindowWrapper};

const WINDOW: WindowWrapper = WindowWrapper(7, 9);

fn extensions(create_context_attribs_arb: bool) -> Option<Extensions> {
    Some(Extensions {
        get_pixel_format_attribiv_arb: true,
        create_context_attribs_arb,
        swap_interval_ext: true,
    })
}

fn handle(value: usize) -> Reply {
    Reply::Handle { value, os_error: String::from("no") }
}

#[test]
fn attributes_of_the_latest_version() {
    assert_eq!(context_attributes(GlRequest::Latest, false), vec![0]);
    assert_eq!(context_attributes(GlRequest::Latest, true), vec![0x2094, 1, 0]);
}

#[test]
fn attributes_of_a_version() {
    let request = GlRequest::Specific(Api::OpenGl, (3, 2));
    assert_eq!(context_attributes(request, false), vec![0x2091, 3, 0x2092, 2, 0]);
    assert_eq!(context_attributes(request, true), vec![0x2091, 3, 0x2092, 2, 0x2094, 1, 0]);
}

#[test]
fn attributes_of_the_desktop_version_of_two() {
    let request = GlRequest::GlThenGles { opengl_version: (4, 0), opengles_version: (2, 1) };
    assert_eq!(context_attributes(request, false), vec![0x2091, 4, 0x2092, 0, 0]);
}

#[test]
fn embedded_versions_alone_are_not_supported() {
    assert!(!supported(GlRequest::Specific(Api::OpenGlEs, (2, 0))));
    assert!(supported(GlRequest::Specific(Api::OpenGl, (2, 0))));
    assert!(supported(GlRequest::Latest));
    assert!(supported(GlRequest::GlThenGles {
        opengl_version: (4, 0),
        opengles_version: (2, 1)
    }));
}

#[test]
fn context_by_the_driver_shares_by_itself() {
    let creation = create_context(
        extensions(true),
        GlRequest::Latest,
        true,
        &WINDOW,
        Some(ContextHack(55)),
    );
    assert_eq!(
        creation.action(),
        Action::CreateContextAttribs { hdc: 9, share: 55, attributes: vec![0x2094, 1, 0] }
    );
    assert_eq!(creation.step(handle(3)), Ok(ContextCreation::Finished { context: 3 }));
}

#[test]
fn context_by_the_system_shares_in_a_second_call() {
    for extra in [None, extensions(false)] {
        let creation =
            create_context(extra, GlRequest::Latest, true, &WINDOW, Some(ContextHack(55)));
        assert_eq!(creation.action(), Action::CreateContext { hdc: 9 });
        let creation = creation.step(handle(3)).unwrap();
        assert_eq!(creation.action(), Action::ShareLists { share: 55, context: 3 });
        assert_eq!(creation.step(Reply::Done), Ok(ContextCreation::Finished { context: 3 }));
    }
}

#[test]
fn context_by_the_system_without_sharing() {
    for share in [None, Some(ContextHack(0))] {
        let creation = create_context(None, GlRequest::Latest, false, &WINDOW, share);
        assert_eq!(creation.step(handle(3)), Ok(ContextCreation::Finished { context: 3 }));
    }
}

#[test]
fn request_does_not_matter_to_the_system() {
    let request = GlRequest::Specific(Api::OpenGlEs, (2, 0));
    let creation = create_context(extensions(false), request, false, &WINDOW, None);
    assert_eq!(creation.action(), Action::CreateContext { hdc: 9 });
}

#[test]
fn null_context_is_a_failure() {
    for extra in [None, extensions(true)] {
        let creation =
            create_context(extra, GlRequest::Latest, false, &WINDOW, Some(ContextHack(55)));
        assert_eq!(creation.step(handle(0)), Err(Failure::CreateContext(String::from("no"))));
    }
}
