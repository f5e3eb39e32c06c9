//! The looks of the pointer, and its being held by a window.
use vstd::prelude::*;

use crate::attributes::CursorState;
use crate::protocol::{
    ALREADY_GRABBED, GRAB_FROZEN, GRAB_INVALID_TIME, GRAB_NOT_VIEWABLE, GRAB_SUCCESS,
};
use crate::text::is_c_str_spec;

verus! {

/// A look of the pointer.
#[derive(Clone, Copy, Debug, PartialEq, Eq, Structural)]
pub enum MouseCursor {
    Default,
    Crosshair,
    Hand,
    Arrow,
    Move,
    Text,
    Wait,
    Help,
    Progress,
    NotAllowed,
    ContextMenu,
    NoneCursor,
    Cell,
    VerticalText,
    Alias,
    Copy,
    NoDrop,
    Grab,
    Grabbing,
    AllScroll,
    ZoomIn,
    ZoomOut,
    EResize,
    NResize,
    NeResize,
    NwResize,
    SResize,
    SeResize,
    SwResize,
    WResize,
    EwResize,
    NsResize,
    NeswResize,
    NwseResize,
    ColResize,
    RowResize,
}

/// The name of a look in the X cursor themes. A look that the themes lack is the default one.
pub open spec fn cursor_name_spec(cursor: MouseCursor) -> Seq<char> {
    match cursor {
        MouseCursor::Alias => "link"@,
        MouseCursor::Arrow => "arrow"@,
        MouseCursor::Cell => "plus"@,
        MouseCursor::Copy => "copy"@,
        MouseCursor::Crosshair => "crosshair"@,
        MouseCursor::Default => "left_ptr"@,
        MouseCursor::Grabbing => "grabbing"@,
        MouseCursor::Hand | MouseCursor::Grab => "hand"@,
        MouseCursor::Help => "question_arrow"@,
        MouseCursor::Move => "move"@,
        MouseCursor::NoDrop => "circle"@,
        MouseCursor::NotAllowed => "crossed_circle"@,
        MouseCursor::Progress => "left_ptr_watch"@,
        MouseCursor::EResize => "right_side"@,
        MouseCursor::NResize => "top_side"@,
        MouseCursor::NeResize => "top_right_corner"@,
        MouseCursor::NwResize => "top_left_corner"@,
        MouseCursor::SResize => "bottom_side"@,
        MouseCursor::SeResize => "bottom_right_corner"@,
        MouseCursor::SwResize => "bottom_left_corner"@,
        MouseCursor::WResize => "left_side"@,
        MouseCursor::EwResize | MouseCursor::ColResize => "h_double_arrow"@,
        MouseCursor::NsResize | MouseCursor::RowResize => "v_double_arrow"@,
        MouseCursor::NwseResize => "bd_double_arrow"@,
        MouseCursor::NeswResize => "fd_double_arrow"@,
        MouseCursor::Text | MouseCursor::VerticalText => "xterm"@,
        MouseCursor::Wait => "watch"@,
        MouseCursor::ContextMenu
        | MouseCursor::NoneCursor
        | MouseCursor::AllScroll
        | MouseCursor::ZoomIn
        | MouseCursor::ZoomOut => "left_ptr"@,
    }
}

/// Every look has a name that can be handed over as a string of C.
pub proof fn law_cursor_names_are_c_strings(cursor: MouseCursor)
    ensures
        is_c_str_spec(cursor_name_spec(cursor)),
        cursor_name_spec(cursor).len() > 0,
{
    reveal_strlit("link");
    reveal_strlit("arrow");
    reveal_strlit("plus");
    reveal_strlit("copy");
    reveal_strlit("crosshair");
    reveal_strlit("left_ptr");
    reveal_strlit("grabbing");
    reveal_strlit("hand");
    reveal_strlit("question_arrow");
    reveal_strlit("move");
    reveal_strlit("circle");
    reveal_strlit("crossed_circle");
    reveal_strlit("left_ptr_watch");
    reveal_strlit("right_side");
    reveal_strlit("top_side");
    reveal_strlit("top_right_corner");
    reveal_strlit("top_left_corner");
    reveal_strlit("bottom_side");
    reveal_strlit("bottom_right_corner");
    reveal_strlit("bottom_left_corner");
    reveal_strlit("left_side");
    reveal_strlit("h_double_arrow");
    reveal_strlit("v_double_arrow");
    reveal_strlit("bd_double_arrow");
    reveal_strlit("fd_double_arrow");
    reveal_strlit("xterm");
    reveal_strlit("watch");
}

/// The name of a look in the X cursor themes.
pub fn cursor_name(cursor: MouseCursor) -> (r: &'static str)
    ensures
        r@ == cursor_name_spec(cursor),
{
    match cursor {
        MouseCursor::Alias => "link",
        MouseCursor::Arrow => "arrow",
        MouseCursor::Cell => "plus",
        MouseCursor::Copy => "copy",
        MouseCursor::Crosshair => "crosshair",
        MouseCursor::Default => "left_ptr",
        MouseCursor::Grabbing => "grabbing",
        MouseCursor::Hand | MouseCursor::Grab => "hand",
        MouseCursor::Help => "question_arrow",
        MouseCursor::Move => "move",
        MouseCursor::NoDrop => "circle",
        MouseCursor::NotAllowed => "crossed_circle",
        MouseCursor::Progress => "left_ptr_watch",
        MouseCursor::EResize => "right_side",
        MouseCursor::NResize => "top_side",
        MouseCursor::NeResize => "top_right_corner",
        MouseCursor::NwResize => "top_left_corner",
        MouseCursor::SResize => "bottom_side",
        MouseCursor::SeResize => "bottom_right_corner",
        MouseCursor::SwResize => "bottom_left_corner",
        MouseCursor::WResize => "left_side",
        MouseCursor::EwResize | MouseCursor::ColResize => "h_double_arrow",
        MouseCursor::NsResize | MouseCursor::RowResize => "v_double_arrow",
        MouseCursor::NwseResize => "bd_double_arrow",
        MouseCursor::NeswResize => "fd_double_arrow",
        MouseCursor::Text | MouseCursor::VerticalText => "xterm",
        MouseCursor::Wait => "watch",
        // The themes have no match for these.
        MouseCursor::ContextMenu
        | MouseCursor::NoneCursor
        | MouseCursor::AllScroll
        | MouseCursor::ZoomIn
        | MouseCursor::ZoomOut => "left_ptr",
    }
}

/// Whether a window whose hold on the pointer is `current` can be asked for `state`: a free
/// pointer can be grabbed, and a grabbed one let go. Nothing else can be asked for.
pub open spec fn cursor_change_possible(state: CursorState, current: CursorState) -> bool {
    ||| state == CursorState::Normal && current == CursorState::Grab
    ||| state == CursorState::Grab && current == CursorState::Normal
}

/// Whether `status` is one that the server can answer to a grab.
pub open spec fn is_grab_status(status: i32) -> bool {
    ||| status == GRAB_SUCCESS
    ||| status == ALREADY_GRABBED
    ||| status == GRAB_INVALID_TIME
    ||| status == GRAB_NOT_VIEWABLE
    ||| status == GRAB_FROZEN
}

/// What the server's answer to a grab means.
pub fn grab_result(status: i32) -> (r: Result<(), String>)
    requires
        is_grab_status(status),
    ensures
        r is Ok <==> status == GRAB_SUCCESS,
        r matches Err(message) ==> message@ == "cursor could not be grabbed"@,
{
    if status == GRAB_SUCCESS {
        Ok(())
    } else {
        Err("cursor could not be grabbed".to_owned())
    }
}

} // verus!
