use x11_dl::{glx, xlib};
use x11_window::protocol::{
    ALLOC_NONE, ALREADY_GRABBED, BUTTON_1, BUTTON_1_MOTION_MASK, BUTTON_2, BUTTON_2_MOTION_MASK,
    BUTTON_3, BUTTON_3_MOTION_MASK, BUTTON_4, BUTTON_4_MOTION_MASK, BUTTON_5,
    BUTTON_5_MOTION_MASK, BUTTON_MOTION_MASK, BUTTON_PRESS, BUTTON_PRESS_MASK, BUTTON_RELEASE,
    BUTTON_RELEASE_MASK, CLIENT_MESSAGE, CONFIGURE_NOTIFY, CURRENT_TIME, CW_BORDER_PIXEL,
    CW_EVENT_MASK, CW_OVERRIDE_REDIRECT, ENTER_WINDOW_MASK, EXPOSE, EXPOSURE_MASK,
    GLX_ALPHA_SIZE, GLX_BLUE_SIZE, GLX_DEPTH_SIZE, GLX_DOUBLEBUFFER, GLX_DRAWABLE_TYPE,
    GLX_FRAMEBUFFER_SRGB_CAPABLE_ARB, GLX_GREEN_SIZE, GLX_RED_SIZE, GLX_RENDER_TYPE,
    GLX_RGBA_BIT, GLX_SAMPLES, GLX_SAMPLE_BUFFERS, GLX_STENCIL_SIZE, GLX_STEREO, GLX_TRUE_COLOR,
    GLX_WINDOW_BIT, GLX_X_RENDERABLE, GLX_X_VISUAL_TYPE, GRAB_EVENT_MASK, GRAB_FROZEN,
    GRAB_INVALID_TIME, GRAB_MODE_ASYNC, GRAB_NOT_VIEWABLE, GRAB_SUCCESS, INPUT_OUTPUT,
    INPUT_STYLE, KEYMAP_NOTIFY, KEYMAP_STATE_MASK, KEY_PRESS, KEY_PRESS_MASK, KEY_RELEASE,
    KEY_RELEASE_MASK, LEAVE_WINDOW_MASK, MOTION_NOTIFY, POINTER_MOTION_HINT_MASK,
    POINTER_MOTION_MASK, STRUCTURE_NOTIFY_MASK, VISIBILITY_CHANGE_MASK, WINDOW_EVENT_MASK,
    XIM_PREEDIT_NOTHING, XIM_STATUS_NOTHING, X_FALSE, X_TRUE,
};

#[test]
fn event_types_are_those_of_xlib() {
    assert_eq!(KEY_PRESS, xlib::KeyPress);
    assert_eq!(KEY_RELEASE, xlib::KeyRelease);
    assert_eq!(BUTTON_PRESS, xlib::ButtonPress);
    assert_eq!(BUTTON_RELEASE, xlib::ButtonRelease);
    assert_eq!(MOTION_NOTIFY, xlib::MotionNotify);
    assert_eq!(KEYMAP_NOTIFY, xlib::KeymapNotify);
    assert_eq!(EXPOSE, xlib::Expose);
    assert_eq!(CONFIGURE_NOTIFY, xlib::ConfigureNotify);
    assert_eq!(CLIENT_MESSAGE, xlib::ClientMessage);
}

#[test]
fn buttons_are_those_of_xlib() {
    assert_eq!(BUTTON_1, xlib::Button1);
    assert_eq!(BUTTON_2, xlib::Button2);
    assert_eq!(BUTTON_3, xlib::Button3);
    assert_eq!(BUTTON_4, xlib::Button4);
    assert_eq!(BUTTON_5, xlib::Button5);
}

#[test]
fn event_masks_are_those_of_xlib() {
    assert_eq!(KEY_PRESS_MASK, xlib::KeyPressMask);
    assert_eq!(KEY_RELEASE_MASK, xlib::KeyReleaseMask);
    assert_eq!(BUTTON_PRESS_MASK, xlib::ButtonPressMask);
    assert_eq!(BUTTON_RELEASE_MASK, xlib::ButtonReleaseMask);
    assert_eq!(ENTER_WINDOW_MASK, xlib::EnterWindowMask);
    assert_eq!(LEAVE_WINDOW_MASK, xlib::LeaveWindowMask);
    assert_eq!(POINTER_MOTION_MASK, xlib::PointerMotionMask);
    assert_eq!(POINTER_MOTION_HINT_MASK, xlib::PointerMotionHintMask);
    assert_eq!(BUTTON_1_MOTION_MASK, xlib::Button1MotionMask);
    assert_eq!(BUTTON_2_MOTION_MASK, xlib::Button2MotionMask);
    assert_eq!(BUTTON_3_MOTION_MASK, xlib::Button3MotionMask);
    assert_eq!(BUTTON_4_MOTION_MASK, xlib::Button4MotionMask);
    assert_eq!(BUTTON_5_MOTION_MASK, xlib::Button5MotionMask);
    assert_eq!(BUTTON_MOTION_MASK, xlib::ButtonMotionMask);
    assert_eq!(KEYMAP_STATE_MASK, xlib::KeymapStateMask);
    assert_eq!(EXPOSURE_MASK, xlib::ExposureMask);
    assert_eq!(VISIBILITY_CHANGE_MASK, xlib::VisibilityChangeMask);
    assert_eq!(STRUCTURE_NOTIFY_MASK, xlib::StructureNotifyMask);
}

#[test]
fn a_window_hears_of_these_events() {
    let mask = xlib::ExposureMask
        | xlib::StructureNotifyMask
        | xlib::VisibilityChangeMask
        | xlib::KeyPressMask
        | xlib::PointerMotionMask
        | xlib::KeyReleaseMask
        | xlib::ButtonPressMask
        | xlib::ButtonReleaseMask
        | xlib::KeymapStateMask;
    assert_eq!(WINDOW_EVENT_MASK, mask);
}

#[test]
fn a_grab_hears_of_these_events() {
    let mask = xlib::ButtonPressMask
        | xlib::ButtonReleaseMask
        | xlib::EnterWindowMask
        | xlib::LeaveWindowMask
        | xlib::PointerMotionMask
        | xlib::PointerMotionHintMask
        | xlib::Button1MotionMask
        | xlib::Button2MotionMask
        | xlib::Button3MotionMask
        | xlib::Button4MotionMask
        | xlib::Button5MotionMask
        | xlib::ButtonMotionMask
        | xlib::KeymapStateMask;
    assert_eq!(GRAB_EVENT_MASK, mask);
}

#[test]
fn other_numbers_are_those_of_xlib() {
    assert_eq!(CW_BORDER_PIXEL, xlib::CWBorderPixel);
    assert_eq!(CW_EVENT_MASK, xlib::CWEventMask);
    assert_eq!(CW_OVERRIDE_REDIRECT, xlib::CWOverrideRedirect);
    assert_eq!(INPUT_OUTPUT, xlib::InputOutput as u32);
    assert_eq!(ALLOC_NONE, xlib::AllocNone);
    assert_eq!(CURRENT_TIME, xlib::CurrentTime);
    assert_eq!(X_FALSE, xlib::False);
    assert_eq!(X_TRUE, xlib::True);
    assert_eq!(GRAB_MODE_ASYNC, xlib::GrabModeAsync);
    assert_eq!(GRAB_SUCCESS, xlib::GrabSuccess);
    assert_eq!(ALREADY_GRABBED, xlib::AlreadyGrabbed);
    assert_eq!(GRAB_INVALID_TIME, xlib::GrabInvalidTime);
    assert_eq!(GRAB_NOT_VIEWABLE, xlib::GrabNotViewable);
    assert_eq!(GRAB_FROZEN, xlib::GrabFrozen);
    assert_eq!(XIM_PREEDIT_NOTHING, xlib::XIMPreeditNothing);
    assert_eq!(XIM_STATUS_NOTHING, xlib::XIMStatusNothing);
    assert_eq!(INPUT_STYLE, xlib::XIMPreeditNothing | xlib::XIMStatusNothing);
}

#[test]
fn attributes_are_those_of_glx() {
    assert_eq!(GLX_DOUBLEBUFFER, glx::GLX_DOUBLEBUFFER);
    assert_eq!(GLX_STEREO, glx::GLX_STEREO);
    assert_eq!(GLX_RED_SIZE, glx::GLX_RED_SIZE);
    assert_eq!(GLX_GREEN_SIZE, glx::GLX_GREEN_SIZE);
    assert_eq!(GLX_BLUE_SIZE, glx::GLX_BLUE_SIZE);
    assert_eq!(GLX_ALPHA_SIZE, glx::GLX_ALPHA_SIZE);
    assert_eq!(GLX_DEPTH_SIZE, glx::GLX_DEPTH_SIZE);
    assert_eq!(GLX_STENCIL_SIZE, glx::GLX_STENCIL_SIZE);
    assert_eq!(GLX_X_VISUAL_TYPE, glx::GLX_X_VISUAL_TYPE);
    assert_eq!(GLX_DRAWABLE_TYPE, glx::GLX_DRAWABLE_TYPE);
    assert_eq!(GLX_RENDER_TYPE, glx::GLX_RENDER_TYPE);
    assert_eq!(GLX_X_RENDERABLE, glx::GLX_X_RENDERABLE);
    assert_eq!(GLX_SAMPLE_BUFFERS, glx::GLX_SAMPLE_BUFFERS);
    assert_eq!(GLX_SAMPLES, glx::GLX_SAMPLES);
    assert_eq!(GLX_WINDOW_BIT, glx::GLX_WINDOW_BIT);
    assert_eq!(GLX_RGBA_BIT, glx::GLX_RGBA_BIT);
    assert_eq!(GLX_TRUE_COLOR, glx::GLX_TRUE_COLOR);
    // From the extension GLX_ARB_framebuffer_sRGB.
    assert_eq!(GLX_FRAMEBUFFER_SRGB_CAPABLE_ARB, 0x20b2);
}
