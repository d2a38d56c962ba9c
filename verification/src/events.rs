//! Display events: which handler an event of the window system goes to.

use vstd::prelude::*;

verus! {

/// The type `XEvent` of the x11 crate, an event of the window system. The
/// library only passes it through.
#[verifier::external_type_specification]
#[verifier::external_body]
pub struct ExXEvent(x11::xlib::XEvent);

/// The handlers of display events.
#[derive(Clone, Copy, Debug, PartialEq, Eq, Structural)]
pub enum Handler {
    KPress,
    CMessage,
    Resize,
    Visibility,
    Unmap,
    Expose,
    Focus,
    BMotion,
    BPress,
    BRelease,
    SelNotify,
    PropNotify,
    SelRequest,
    /// the event is of no interest
    Ignore,
}

// The numbers by which the X protocol names the kinds of events.
pub const KEY_PRESS: i32 = 2;
pub const BUTTON_PRESS: i32 = 4;
pub const BUTTON_RELEASE: i32 = 5;
pub const MOTION_NOTIFY: i32 = 6;
pub const FOCUS_IN: i32 = 9;
pub const FOCUS_OUT: i32 = 10;
pub const EXPOSE: i32 = 12;
pub const VISIBILITY_NOTIFY: i32 = 15;
pub const UNMAP_NOTIFY: i32 = 18;
pub const CONFIGURE_NOTIFY: i32 = 22;
pub const PROPERTY_NOTIFY: i32 = 28;
pub const SELECTION_REQUEST: i32 = 30;
pub const SELECTION_NOTIFY: i32 = 31;
pub const CLIENT_MESSAGE: i32 = 33;

/// The handler for events of the kind with number `type_`: key presses,
/// client messages, changes of size, visibility and mapping, exposure,
/// focus, pointer motion and buttons, and the three kinds of events that
/// carry a selection. An event that gives up the selection is ignored, so
/// that the selection stays when another window selects; so is every other
/// kind.
pub open spec fn handler_of(type_: int) -> Handler {
    if type_ == KEY_PRESS {
        Handler::KPress
    } else if type_ == CLIENT_MESSAGE {
        Handler::CMessage
    } else if type_ == CONFIGURE_NOTIFY {
        Handler::Resize
    } else if type_ == VISIBILITY_NOTIFY {
        Handler::Visibility
    } else if type_ == UNMAP_NOTIFY {
        Handler::Unmap
    } else if type_ == EXPOSE {
        Handler::Expose
    } else if type_ == FOCUS_IN || type_ == FOCUS_OUT {
        Handler::Focus
    } else if type_ == MOTION_NOTIFY {
        Handler::BMotion
    } else if type_ == BUTTON_PRESS {
        Handler::BPress
    } else if type_ == BUTTON_RELEASE {
        Handler::BRelease
    } else if type_ == SELECTION_NOTIFY {
        Handler::SelNotify
    } else if type_ == PROPERTY_NOTIFY {
        Handler::PropNotify
    } else if type_ == SELECTION_REQUEST {
        Handler::SelRequest
    } else {
        Handler::Ignore
    }
}

/// The number of the kind that an event says it is of: what
/// `XEvent::get_type` of the x11 crate hands out for the event.
pub uninterp spec fn xevent_kind(ev: x11::xlib::XEvent) -> i32;

/// Reads the kind of an event with `XEvent::get_type` of the x11 crate,
/// which hands out the number that heads every event. The contract claims
/// that the number depends on the event alone, and gives it its name.
#[verifier::external_body]
fn xevent_type(ev: &x11::xlib::XEvent) -> (r: i32)
    ensures
        r == xevent_kind(*ev),
{
    ev.get_type()
}

/// The handler for events of the kind with number `type_`.
pub fn handler_for(type_: i32) -> (h: Handler)
    ensures
        h == handler_of(type_ as int),
{
    if type_ == KEY_PRESS {
        Handler::KPress
    } else if type_ == CLIENT_MESSAGE {
        Handler::CMessage
    } else if type_ == CONFIGURE_NOTIFY {
        Handler::Resize
    } else if type_ == VISIBILITY_NOTIFY {
        Handler::Visibility
    } else if type_ == UNMAP_NOTIFY {
        Handler::Unmap
    } else if type_ == EXPOSE {
        Handler::Expose
    } else if type_ == FOCUS_IN {
        Handler::Focus
    } else if type_ == FOCUS_OUT {
        Handler::Focus
    } else if type_ == MOTION_NOTIFY {
        Handler::BMotion
    } else if type_ == BUTTON_PRESS {
        Handler::BPress
    } else if type_ == BUTTON_RELEASE {
        Handler::BRelease
    } else if type_ == SELECTION_NOTIFY {
        Handler::SelNotify
    } else if type_ == PROPERTY_NOTIFY {
        Handler::PropNotify
    } else if type_ == SELECTION_REQUEST {
        Handler::SelRequest
    } else {
        Handler::Ignore
    }
}

/// The number of the kind that an event says it is of, and the handler
/// that events of that kind go to.
pub fn call_handler(ev: &x11::xlib::XEvent) -> (r: (i32, Handler))
    ensures
        r.0 == xevent_kind(*ev),
        r.1 == handler_of(xevent_kind(*ev) as int),
{
    let t = xevent_type(ev);
    (t, handler_for(t))
}

} // verus!
