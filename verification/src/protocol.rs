//! Numbers of the X11 protocol and of GLX that the window logic reads or sends.
use vstd::prelude::*;

verus! {

/// Event type: a key went down.
pub const KEY_PRESS: i32 = 2;

/// Event type: a key went up.
pub const KEY_RELEASE: i32 = 3;

/// Event type: a pointer button went down.
pub const BUTTON_PRESS: i32 = 4;

/// Event type: a pointer button went up.
pub const BUTTON_RELEASE: i32 = 5;

/// Event type: the pointer moved.
pub const MOTION_NOTIFY: i32 = 6;

/// Event type: the keyboard state after the focus or the pointer entered.
pub const KEYMAP_NOTIFY: i32 = 11;

/// Event type: a part of the window has to be redrawn.
pub const EXPOSE: i32 = 12;

/// Event type: the window was moved, resized or restacked.
pub const CONFIGURE_NOTIFY: i32 = 22;

/// Event type: another client sent a message.
pub const CLIENT_MESSAGE: i32 = 33;

/// The left pointer button.
pub const BUTTON_1: u32 = 1;

/// The middle pointer button.
pub const BUTTON_2: u32 = 2;

/// The right pointer button.
pub const BUTTON_3: u32 = 3;

/// The wheel, turned up.
pub const BUTTON_4: u32 = 4;

/// The wheel, turned down.
pub const BUTTON_5: u32 = 5;

/// Event mask bit: key presses.
pub const KEY_PRESS_MASK: i64 = 0x0001;

/// Event mask bit: key releases.
pub const KEY_RELEASE_MASK: i64 = 0x0002;

/// Event mask bit: button presses.
pub const BUTTON_PRESS_MASK: i64 = 0x0004;

/// Event mask bit: button releases.
pub const BUTTON_RELEASE_MASK: i64 = 0x0008;

/// Event mask bit: the pointer enters a window.
pub const ENTER_WINDOW_MASK: i64 = 0x0010;

/// Event mask bit: the pointer leaves a window.
pub const LEAVE_WINDOW_MASK: i64 = 0x0020;

/// Event mask bit: pointer motion.
pub const POINTER_MOTION_MASK: i64 = 0x0040;

/// Event mask bit: pointer motion hints.
pub const POINTER_MOTION_HINT_MASK: i64 = 0x0080;

/// Event mask bit: motion while the first button is down.
pub const BUTTON_1_MOTION_MASK: i64 = 0x0100;

/// Event mask bit: motion while the second button is down.
pub const BUTTON_2_MOTION_MASK: i64 = 0x0200;

/// Event mask bit: motion while the third button is down.
pub const BUTTON_3_MOTION_MASK: i64 = 0x0400;

/// Event mask bit: motion while the fourth button is down.
pub const BUTTON_4_MOTION_MASK: i64 = 0x0800;

/// Event mask bit: motion while the fifth button is down.
pub const BUTTON_5_MOTION_MASK: i64 = 0x1000;

/// Event mask bit: motion while any button is down.
pub const BUTTON_MOTION_MASK: i64 = 0x2000;

/// Event mask bit: keyboard state on entry.
pub const KEYMAP_STATE_MASK: i64 = 0x4000;

/// Event mask bit: exposures.
pub const EXPOSURE_MASK: i64 = 0x8000;

/// Event mask bit: visibility changes.
pub const VISIBILITY_CHANGE_MASK: i64 = 0x1_0000;

/// Event mask bit: changes of the window's structure.
pub const STRUCTURE_NOTIFY_MASK: i64 = 0x2_0000;

/// Every event that has a mask bit.
pub const ANY_EVENT_MASK: i64 = -1;

/// The events that a window of this library asks the server for.
pub const WINDOW_EVENT_MASK: i64 = EXPOSURE_MASK | STRUCTURE_NOTIFY_MASK | VISIBILITY_CHANGE_MASK
    | KEY_PRESS_MASK | POINTER_MOTION_MASK | KEY_RELEASE_MASK | BUTTON_PRESS_MASK
    | BUTTON_RELEASE_MASK | KEYMAP_STATE_MASK;

/// The events that stay reported while the pointer is grabbed.
pub const GRAB_EVENT_MASK: i64 = BUTTON_PRESS_MASK | BUTTON_RELEASE_MASK | ENTER_WINDOW_MASK
    | LEAVE_WINDOW_MASK | POINTER_MOTION_MASK | POINTER_MOTION_HINT_MASK | BUTTON_1_MOTION_MASK
    | BUTTON_2_MOTION_MASK | BUTTON_3_MOTION_MASK | BUTTON_4_MOTION_MASK | BUTTON_5_MOTION_MASK
    | BUTTON_MOTION_MASK | KEYMAP_STATE_MASK;

/// Value mask bit of window creation: the border's pixel value is given.
pub const CW_BORDER_PIXEL: u64 = 0x0008;

/// Value mask bit of window creation: whether the window manager is bypassed is given.
pub const CW_OVERRIDE_REDIRECT: u64 = 0x0200;

/// Value mask bit of window creation: the event mask is given.
pub const CW_EVENT_MASK: u64 = 0x0800;

/// Window class: takes input and shows output.
pub const INPUT_OUTPUT: u32 = 1;

/// Colormap allocation: no entry is allocated at first.
pub const ALLOC_NONE: i32 = 0;

/// The time stamp that stands for now.
pub const CURRENT_TIME: u64 = 0;

/// The resource number that stands for no resource.
pub const NO_RESOURCE: u64 = 0;

/// Boolean false, as the server writes it.
pub const X_FALSE: i32 = 0;

/// Boolean true, as the server writes it.
pub const X_TRUE: i32 = 1;

/// Grab mode: events go on while the grab holds.
pub const GRAB_MODE_ASYNC: i32 = 1;

/// Grab status: the pointer is grabbed.
pub const GRAB_SUCCESS: i32 = 0;

/// Grab status: another client holds the pointer.
pub const ALREADY_GRABBED: i32 = 1;

/// Grab status: the time given is out of order.
pub const GRAB_INVALID_TIME: i32 = 2;

/// Grab status: the window is not viewable.
pub const GRAB_NOT_VIEWABLE: i32 = 3;

/// Grab status: the pointer is frozen by another grab.
pub const GRAB_FROZEN: i32 = 4;

/// Input style: text being composed is not shown.
pub const XIM_PREEDIT_NOTHING: i32 = 0x0008;

/// Input style: the input method's status is not shown.
pub const XIM_STATUS_NOTHING: i32 = 0x0400;

/// The input style of the windows of this library.
pub const INPUT_STYLE: i32 = XIM_PREEDIT_NOTHING | XIM_STATUS_NOTHING;

/// Number of bits in one item of a client message.
pub const CLIENT_MESSAGE_FORMAT: i32 = 32;

/// Number of bytes of text that one key event may commit.
pub const TEXT_CAPACITY: usize = 16;

/// GLX attribute: the configuration is double buffered.
pub const GLX_DOUBLEBUFFER: i32 = 5;

/// GLX attribute: the configuration is stereoscopic.
pub const GLX_STEREO: i32 = 6;

/// GLX attribute: bits of red.
pub const GLX_RED_SIZE: i32 = 8;

/// GLX attribute: bits of green.
pub const GLX_GREEN_SIZE: i32 = 9;

/// GLX attribute: bits of blue.
pub const GLX_BLUE_SIZE: i32 = 10;

/// GLX attribute: bits of alpha.
pub const GLX_ALPHA_SIZE: i32 = 11;

/// GLX attribute: bits of depth.
pub const GLX_DEPTH_SIZE: i32 = 12;

/// GLX attribute: bits of stencil.
pub const GLX_STENCIL_SIZE: i32 = 13;

/// GLX attribute: the kind of X visual.
pub const GLX_X_VISUAL_TYPE: i32 = 0x22;

/// GLX attribute: what can be drawn to.
pub const GLX_DRAWABLE_TYPE: i32 = 0x8010;

/// GLX attribute: how is rendered.
pub const GLX_RENDER_TYPE: i32 = 0x8011;

/// GLX attribute: whether X can render too.
pub const GLX_X_RENDERABLE: i32 = 0x8012;

/// GLX attribute: number of multisample buffers.
pub const GLX_SAMPLE_BUFFERS: i32 = 100000;

/// GLX attribute: samples per pixel.
pub const GLX_SAMPLES: i32 = 100001;

/// GLX attribute: the frame buffer can be sRGB.
pub const GLX_FRAMEBUFFER_SRGB_CAPABLE_ARB: i32 = 0x20B2;

/// GLX value: windows can be drawn to.
pub const GLX_WINDOW_BIT: i32 = 1;

/// GLX value: colours are rendered, not indices.
pub const GLX_RGBA_BIT: i32 = 1;

/// GLX value: a true colour visual.
pub const GLX_TRUE_COLOR: i32 = 0x8002;

} // verus!
