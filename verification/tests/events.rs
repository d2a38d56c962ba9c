use stru::events::{
    call_handler, handler_for, Handler, BUTTON_PRESS, BUTTON_RELEASE, CLIENT_MESSAGE,
    CONFIGURE_NOTIFY, EXPOSE, FOCUS_IN, FOCUS_OUT, KEY_PRESS, MOTION_NOTIFY, PROPERTY_NOTIFY,
    SELECTION_NOTIFY, SELECTION_REQUEST, UNMAP_NOTIFY, VISIBILITY_NOTIFY,
};
use stru::input::tputc;
use stru::report::{
    kpress, XK_BACKSPACE, XK_DELETE, XK_DOWN, XK_END, XK_HOME, XK_INSERT, XK_LEFT, XK_PAGE_DOWN,
    XK_PAGE_UP, XK_RIGHT, XK_UP,
};
use stru::term::{tnew, TimeSpec};
use x11::xlib;

#[test]
fn event_numbers_are_those_of_the_window_system() {
    assert_eq!(KEY_PRESS, xlib::KeyPress);
    assert_eq!(BUTTON_PRESS, xlib::ButtonPress);
    assert_eq!(BUTTON_RELEASE, xlib::ButtonRelease);
    assert_eq!(MOTION_NOTIFY, xlib::MotionNotify);
    assert_eq!(FOCUS_IN, xlib::FocusIn);
    assert_eq!(FOCUS_OUT, xlib::FocusOut);
    assert_eq!(EXPOSE, xlib::Expose);
    assert_eq!(VISIBILITY_NOTIFY, xlib::VisibilityNotify);
    assert_eq!(UNMAP_NOTIFY, xlib::UnmapNotify);
    assert_eq!(CONFIGURE_NOTIFY, xlib::ConfigureNotify);
    assert_eq!(PROPERTY_NOTIFY, xlib::PropertyNotify);
    assert_eq!(SELECTION_REQUEST, xlib::SelectionRequest);
    assert_eq!(SELECTION_NOTIFY, xlib::SelectionNotify);
    assert_eq!(CLIENT_MESSAGE, xlib::ClientMessage);
}

#[test]
fn each_kind_of_event_has_its_handler() {
    assert_eq!(handler_for(xlib::KeyPress), Handler::KPress);
    assert_eq!(handler_for(xlib::ClientMessage), Handler::CMessage);
    assert_eq!(handler_for(xlib::ConfigureNotify), Handler::Resize);
    assert_eq!(handler_for(xlib::VisibilityNotify), Handler::Visibility);
    assert_eq!(handler_for(xlib::UnmapNotify), Handler::Unmap);
    assert_eq!(handler_for(xlib::Expose), Handler::Expose);
    assert_eq!(handler_for(xlib::FocusIn), Handler::Focus);
    assert_eq!(handler_for(xlib::FocusOut), Handler::Focus);
    assert_eq!(handler_for(xlib::MotionNotify), Handler::BMotion);
    assert_eq!(handler_for(xlib::ButtonPress), Handler::BPress);
    assert_eq!(handler_for(xlib::ButtonRelease), Handler::BRelease);
    assert_eq!(handler_for(xlib::SelectionNotify), Handler::SelNotify);
    assert_eq!(handler_for(xlib::PropertyNotify), Handler::PropNotify);
    assert_eq!(handler_for(xlib::SelectionRequest), Handler::SelRequest);
    assert_eq!(handler_for(xlib::SelectionClear), Handler::Ignore);
    assert_eq!(handler_for(xlib::MapNotify), Handler::Ignore);
    assert_eq!(handler_for(0), Handler::Ignore);
    assert_eq!(handler_for(-1), Handler::Ignore);
}

#[test]
fn an_event_goes_to_the_handler_of_its_kind() {
    let ev = xlib::XEvent { type_: xlib::ButtonPress };
    assert_eq!(call_handler(&ev), (xlib::ButtonPress, Handler::BPress));
    let ev = xlib::XEvent { type_: xlib::KeyPress };
    assert_eq!(call_handler(&ev), (xlib::KeyPress, Handler::KPress));
    let ev = xlib::XEvent { type_: xlib::FocusOut };
    assert_eq!(call_handler(&ev), (xlib::FocusOut, Handler::Focus));
    let ev = xlib::XEvent { pad: [0; 24] };
    assert_eq!(call_handler(&ev), (0, Handler::Ignore));
}

#[test]
fn key_numbers_are_those_of_the_window_system() {
    assert_eq!(XK_BACKSPACE, x11::keysym::XK_BackSpace);
    assert_eq!(XK_HOME, x11::keysym::XK_Home);
    assert_eq!(XK_LEFT, x11::keysym::XK_Left);
    assert_eq!(XK_UP, x11::keysym::XK_Up);
    assert_eq!(XK_RIGHT, x11::keysym::XK_Right);
    assert_eq!(XK_DOWN, x11::keysym::XK_Down);
    assert_eq!(XK_PAGE_UP, x11::keysym::XK_Page_Up);
    assert_eq!(XK_PAGE_DOWN, x11::keysym::XK_Page_Down);
    assert_eq!(XK_END, x11::keysym::XK_End);
    assert_eq!(XK_INSERT, x11::keysym::XK_Insert);
    assert_eq!(XK_DELETE, x11::keysym::XK_Delete);
}

#[test]
fn keys_send_their_sequences() {
    let mut t = tnew(10, 2, 0, TimeSpec { tv_sec: 0, tv_nsec: 0 });
    assert_eq!(kpress(&t, x11::keysym::XK_Up, &vec![]), b"\x1b[A".to_vec());
    assert_eq!(kpress(&t, x11::keysym::XK_Left, &vec![]), b"\x1b[D".to_vec());
    assert_eq!(kpress(&t, x11::keysym::XK_Home, &vec![]), b"\x1b[H".to_vec());
    assert_eq!(kpress(&t, x11::keysym::XK_Delete, &b"\x7f".to_vec()), b"\x1b[3~".to_vec());
    assert_eq!(kpress(&t, x11::keysym::XK_Page_Down, &vec![]), b"\x1b[6~".to_vec());
    assert_eq!(kpress(&t, x11::keysym::XK_BackSpace, &b"\x08".to_vec()), b"\x7f".to_vec());
    assert_eq!(kpress(&t, x11::keysym::XK_a, &b"a".to_vec()), b"a".to_vec());
    assert_eq!(kpress(&t, x11::keysym::XK_Return, &b"\r".to_vec()), b"\r".to_vec());
    assert_eq!(kpress(&t, x11::keysym::XK_Shift_L, &vec![]), Vec::<u8>::new());
    for ch in "\x1b[?1h\x1b[20h".chars() {
        tputc(&mut t, ch as u32);
    }
    assert_eq!(kpress(&t, x11::keysym::XK_Up, &vec![]), b"\x1bOA".to_vec());
    assert_eq!(kpress(&t, x11::keysym::XK_Home, &vec![]), b"\x1b[H".to_vec());
    assert_eq!(kpress(&t, x11::keysym::XK_Return, &b"\r".to_vec()), b"\r\n".to_vec());
    assert_eq!(kpress(&t, x11::keysym::XK_a, &b"\r\r".to_vec()), b"\r\r".to_vec());
    for ch in "\x1b[2h".chars() {
        tputc(&mut t, ch as u32);
    }
    assert_eq!(kpress(&t, x11::keysym::XK_Up, &vec![]), Vec::<u8>::new());
    assert_eq!(kpress(&t, x11::keysym::XK_a, &b"a".to_vec()), Vec::<u8>::new());
}
