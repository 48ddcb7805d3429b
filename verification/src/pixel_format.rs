//! Giving a window the pixel format that was chosen for it.

use vstd::prelude::*;

use crate::protocol::Action;
use crate::protocol::ActionView;
use crate::protocol::Reply;
use crate::types::Failure;
use crate::types::PixelFormatDescriptor;
use crate::types::WindowWrapper;

verus! {

/// How far the setting of a pixel format has got.
#[derive(Clone, Copy, Debug, PartialEq, Eq)]
pub enum FormatSetting {
    /// Asking for the description of format `id`.
    Describe { hdc: usize, id: i32 },
    /// Setting format `id`, of which `descriptor` is the description.
    Apply { hdc: usize, id: i32, descriptor: PixelFormatDescriptor },
    /// The format is set.
    Finished,
}

/// Begins to give a window the pixel format `id`.
pub fn set_pixel_format(hdc: &WindowWrapper, id: i32) -> (setting: FormatSetting)
    ensures
        setting == (FormatSetting::Describe { hdc: hdc.1, id }),
{
    FormatSetting::Describe { hdc: hdc.1, id }
}

impl FormatSetting {
    /// The call that the setting waits for.
    pub open spec fn call(self) -> ActionView {
        match self {
            FormatSetting::Describe { hdc, id } => ActionView::DescribeChosen { hdc, id },
            FormatSetting::Apply { hdc, id, descriptor } => ActionView::SetPixelFormat {
                hdc,
                id,
                descriptor,
            },
            FormatSetting::Finished => ActionView::Finish,
        }
    }

    /// `reply` is a reply to the call that the setting waits for.
    pub open spec fn accepts(self, reply: Reply) -> bool {
        match self {
            FormatSetting::Describe { .. } => reply is Described,
            FormatSetting::Apply { .. } => reply is Code,
            FormatSetting::Finished => false,
        }
    }

    /// Where the setting stands behind `reply`: zero from either call is a failure.
    pub open spec fn after(self, reply: Reply) -> Result<FormatSetting, Failure> {
        match (self, reply) {
            (
                FormatSetting::Describe { hdc, id },
                Reply::Described { value, descriptor, os_error },
            ) => if value == 0 {
                Err(Failure::DescribePixelFormat(os_error))
            } else {
                Ok(FormatSetting::Apply { hdc, id, descriptor })
            },
            (FormatSetting::Apply { .. }, Reply::Code { value, os_error }) => if value == 0 {
                Err(Failure::SetPixelFormat(os_error))
            } else {
                Ok(FormatSetting::Finished)
            },
            _ => Ok(self),
        }
    }

    /// The call to be made next.
    pub fn action(&self) -> (action: Action)
        ensures
            action@ == self.call(),
    {
        match *self {
            FormatSetting::Describe { hdc, id } => Action::DescribeChosen { hdc, id },
            FormatSetting::Apply { hdc, id, descriptor } => Action::SetPixelFormat {
                hdc,
                id,
                descriptor,
            },
            FormatSetting::Finished => Action::Finish,
        }
    }

    /// Takes in the reply to the call.
    pub fn step(self, reply: Reply) -> (outcome: Result<FormatSetting, Failure>)
        requires
            self.accepts(reply),
        ensures
            outcome == self.after(reply),
    {
        match (self, reply) {
            (
                FormatSetting::Describe { hdc, id },
                Reply::Described { value, descriptor, os_error },
            ) => {
                if value == 0 {
                    return Err(Failure::DescribePixelFormat(os_error));
                }
                Ok(FormatSetting::Apply { hdc, id, descriptor })
            },
            (FormatSetting::Apply { .. }, Reply::Code { value, os_error }) => {
                if value == 0 {
                    return Err(Failure::SetPixelFormat(os_error));
                }
                Ok(FormatSetting::Finished)
            },
            _ => Ok(self),
        }
    }
}

/// What is set is the format that was asked for, with the description that the system gave
/// of it.
pub proof fn law_format_is_set_as_described(
    hdc: usize,
    id: i32,
    value: i32,
    descriptor: PixelFormatDescriptor,
    os_error: String,
)
    requires
        value != 0,
    ensures
        ({
            let start = FormatSetting::Describe { hdc, id };
            let described = Reply::Described { value, descriptor, os_error };
            &&& start.after(described) is Ok
            &&& start.after(described)->Ok_0.call() == (ActionView::SetPixelFormat {
                hdc,
                id,
                descriptor,
            })
        }),
{
}

/// The format that was asked for is described and then set, in this order. Zero from either call
/// is a failure with the system's text; anything else is not.
pub proof fn law_setting_goes_by_its_replies(
    hdc: usize,
    id: i32,
    value: i32,
    descriptor: PixelFormatDescriptor,
    os_error: String,
    reply: Reply,
)
    ensures
        ({
            let describe = FormatSetting::Describe { hdc, id };
            let apply = FormatSetting::Apply { hdc, id, descriptor };
            let described = Reply::Described { value, descriptor, os_error };
            let applied = Reply::Code { value, os_error };
            &&& describe.call() == (ActionView::DescribeChosen { hdc, id })
            &&& describe.accepts(reply) <==> reply is Described
            &&& value == 0 ==> describe.after(described) == Err::<FormatSetting, Failure>(
                Failure::DescribePixelFormat(os_error),
            )
            &&& value != 0 ==> describe.after(described) == Ok::<FormatSetting, Failure>(apply)
            &&& apply.call() == (ActionView::SetPixelFormat { hdc, id, descriptor })
            &&& apply.accepts(reply) <==> reply is Code
            &&& value == 0 ==> apply.after(applied) == Err::<FormatSetting, Failure>(
                Failure::SetPixelFormat(os_error),
            )
            &&& value != 0 ==> apply.after(applied) == Ok::<FormatSetting, Failure>(
                FormatSetting::Finished,
            )
            &&& FormatSetting::Finished.call() == ActionView::Finish
            &&& !FormatSetting::Finished.accepts(reply)
        }),
{
}

} // verus!
