//! What the operations on a window hand over and return, item by item.
use vstd::prelude::*;
use vstd::utf8::*;

use crate::attributes::Context;
use crate::attributes::CursorState;
use crate::attributes::PixelFormat;
use crate::cursor::cursor_name;
use crate::cursor::cursor_name_spec;
use crate::cursor::grab_result;
use crate::cursor::law_cursor_names_are_c_strings;
use crate::cursor::MouseCursor;
use crate::gl::ContextRef;
use crate::gl::GlCall;
use crate::protocol::{CLIENT_MESSAGE, GRAB_EVENT_MASK, GRAB_MODE_ASYNC};
use crate::request::requests_view;
use crate::request::Geometry;
use crate::request::GetGeometry;
use crate::request::LoadCursor;
use crate::request::Request;
use crate::text::c_string;
use crate::text::is_c_str;
use crate::text::text_of;
use crate::window::CursorStep;
use crate::window::Window;
use crate::window::WindowProxy;
use crate::window::WindowView;
use crate::window::XWindow;

verus! {

/// A list of requests and what it is to a contract have the same length, and the same requests
/// at the same places.
pub proof fn law_requests_are_seen(requests: Seq<Request>)
    ensures
        requests_view(requests).len() == requests.len(),
        forall|i: int|
            0 <= i < requests.len() ==> requests_view(requests)[i] == (#[trigger] requests[i])@,
{
}

/// A request is to a contract just what it is, with the bytes of its names: each kind of request
/// is seen as that kind, with its own numbers.
pub proof fn law_request_is_seen(r: Request)
    ensures
        match r {
            Request::ReleaseContext(c) => r@ == Request::<Seq<u8>>::ReleaseContext(c),
            Request::Flush => r@ == Request::<Seq<u8>>::Flush,
            Request::Free(a) => r@ == Request::<Seq<u8>>::Free(a),
            Request::SwitchToMode { screen: a, mode: b } => r@ matches Request::SwitchToMode {
                screen,
                mode,
            } && screen == a && mode == b,
            Request::SetViewPort { screen: a, x: b, y: c } => r@ matches Request::SetViewPort {
                screen,
                x,
                y,
            } && screen == a && x == b && y == c,
            Request::DestroyIc(a) => r@ == Request::<Seq<u8>>::DestroyIc(a),
            Request::CloseIm(a) => r@ == Request::<Seq<u8>>::CloseIm(a),
            Request::DestroyWindow(a) => r@ == Request::<Seq<u8>>::DestroyWindow(a),
            Request::SendEvent { window: a, propagate: b, event_mask: c, event: d } =>
            r@ matches Request::SendEvent { window, propagate, event_mask, event } && window == a
                && propagate == b && event_mask == c && event == d,
            Request::MapRaised(a) => r@ == Request::<Seq<u8>>::MapRaised(a),
            Request::UnmapWindow(a) => r@ == Request::<Seq<u8>>::UnmapWindow(a),
            Request::MoveWindow { window: a, x: b, y: c } => r@ matches Request::MoveWindow {
                window,
                x,
                y,
            } && window == a && x == b && y == c,
            Request::StoreName { window: a, name: b } => r@ matches Request::StoreName {
                window,
                name,
            } && window == a && name == b@,
            Request::SetWmProtocols { window: a, protocol: b } => r@ matches
            Request::SetWmProtocols { window, protocol } && window == a && protocol == b,
            Request::SetIcFocus(a) => r@ == Request::<Seq<u8>>::SetIcFocus(a),
            Request::SetClassHint { window: a, hint: b, res_name: c, res_class: d } => r@ matches
            Request::SetClassHint { window, hint, res_name, res_class } && window == a && hint == b
                && res_name == c@ && res_class == d@,
            Request::DefineCursor { window: a, cursor: b } => r@ matches Request::DefineCursor {
                window,
                cursor,
            } && window == a && cursor == b,
            Request::UngrabPointer { time: a } => r@ matches Request::UngrabPointer { time }
                && time == a,
            Request::WarpPointer {
                src_window: a,
                dest_window: b,
                src_x: c,
                src_y: d,
                src_width: e,
                src_height: f,
                dest_x: g,
                dest_y: h,
            } => r@ matches Request::WarpPointer {
                src_window,
                dest_window,
                src_x,
                src_y,
                src_width,
                src_height,
                dest_x,
                dest_y,
            } && src_window == a && dest_window == b && src_x == c && src_y == d && src_width == e
                && src_height == f && dest_x == g && dest_y == h,
            Request::RefreshKeyboardMapping => r@ == Request::<Seq<u8>>::RefreshKeyboardMapping,
            Request::FilterEvent { window: a } => r@ matches Request::FilterEvent { window }
                && window == a,
        },
{
}

/// A text can be handed over exactly where none of its characters is NUL.
pub proof fn law_c_str_holds_no_nul(s: &str, r: bool)
    requires
        call_ensures(is_c_str, (s,), r),
    ensures
        r <==> forall|i: int| 0 <= i < s@.len() ==> #[trigger] s@[i] != '\0',
{
    if !r {
        let i = choose|i: int| 0 <= i < s@.len() && s@[i] == '\0';
        assert(s@[i] == '\0');
    }
}

/// A text is handed over as its UTF-8 bytes, all of them and in their order, with one zero byte
/// behind them.
pub proof fn law_c_string_is_the_text(s: &str, r: Vec<u8>)
    requires
        call_ensures(c_string, (s,), r),
    ensures
        r@.len() == encode_utf8(s@).len() + 1,
        forall|i: int| 0 <= i < encode_utf8(s@).len() ==> #[trigger] r@[i] == encode_utf8(s@)[i],
        r@[r@.len() - 1] == 0,
        r@.drop_last() == encode_utf8(s@),
{
    assert(r@.drop_last() =~= encode_utf8(s@));
}

/// What a key wrote is read back as it is: where the first `count` bytes are the UTF-8 bytes of a
/// text, that is the text, whatever stands behind them; and where they are no UTF-8 there is none.
pub proof fn law_text_is_read_back(buffer: &[u8; 16], count: i32, text: Seq<char>, r: String)
    requires
        call_ensures(text_of, (buffer, count), r),
        0 <= count <= 16,
    ensures
        encode_utf8(text) == buffer@.take(count as int) ==> r@ == text,
        !valid_utf8(buffer@.take(count as int)) ==> r@.len() == 0,
        valid_utf8(buffer@.take(count as int)) ==> encode_utf8(r@) == buffer@.take(count as int),
{
    encode_utf8_valid_utf8(text);
    encode_utf8_decode_utf8(text);
    if valid_utf8(buffer@.take(count as int)) {
        decode_utf8_encode_utf8(buffer@.take(count as int));
    }
}

/// The title that is stored is the one given, on the window itself, and then it is sent out.
pub proof fn law_title_is_stored(w: &Window, title: &str, r: Vec<Request>)
    requires
        call_ensures(Window::set_title, (w, title), r),
    ensures
        r@.len() == 2,
        r@[0] matches Request::StoreName { window, name } && window == w@.x.window
            && name@.drop_last() == encode_utf8(title@) && name@.len() > 0 && name@.last() == 0,
        r@[1] == Request::<Vec<u8>>::Flush,
{
    law_requests_are_seen(r@);
    assert(r@[0]@ == requests_view(r@)[0]);
    assert(r@[1]@ == requests_view(r@)[1]);
    let name = r@[0]->StoreName_name@;
    assert(name.drop_last() =~= encode_utf8(title@));
}

/// Showing raises the window itself, and then it is sent out.
pub proof fn law_show_raises(w: &Window, r: Vec<Request>)
    requires
        call_ensures(Window::show, (w,), r),
    ensures
        r@.len() == 2,
        r@[0] == Request::<Vec<u8>>::MapRaised(w@.x.window),
        r@[1] == Request::<Vec<u8>>::Flush,
{
    law_requests_are_seen(r@);
    assert(r@[0]@ == requests_view(r@)[0]);
    assert(r@[1]@ == requests_view(r@)[1]);
}

/// Hiding unmaps the window itself, and then it is sent out.
pub proof fn law_hide_unmaps(w: &Window, r: Vec<Request>)
    requires
        call_ensures(Window::hide_window, (w,), r),
    ensures
        r@.len() == 2,
        r@[0] == Request::<Vec<u8>>::UnmapWindow(w@.x.window),
        r@[1] == Request::<Vec<u8>>::Flush,
{
    law_requests_are_seen(r@);
    assert(r@[0]@ == requests_view(r@)[0]);
    assert(r@[1]@ == requests_view(r@)[1]);
}

/// A window is moved to the place that is asked for.
pub proof fn law_moved_where_asked(w: &Window, to_x: i32, to_y: i32, r: Vec<Request>)
    requires
        call_ensures(Window::set_position, (w, to_x, to_y), r),
    ensures
        r@.len() == 1,
        r@[0] matches Request::MoveWindow { window, x, y } && window == w@.x.window && x == to_x
            && y == to_y,
{
    law_requests_are_seen(r@);
    assert(r@[0]@ == requests_view(r@)[0]);
}

/// The server is asked about the window itself.
pub proof fn law_geometry_is_its_own(w: &Window, r: GetGeometry)
    requires
        call_ensures(Window::geometry_query, (w,), r),
    ensures
        r.window == w@.x.window,
{
}

/// The place and the sizes are told exactly where the server told them. The place is the server's,
/// the inner size is the server's, and the outer one is larger by the border, both ways.
pub proof fn law_geometry_is_told(
    w: &Window,
    g: Geometry,
    position: Option<(i32, i32)>,
    inner: Option<(u32, u32)>,
    outer: Option<(u32, u32)>,
)
    requires
        call_ensures(Window::get_position, (w, g), position),
        call_ensures(Window::get_inner_size, (w, g), inner),
        call_ensures(Window::get_outer_size, (w, g), outer),
        g.width + g.border <= u32::MAX,
        g.height + g.border <= u32::MAX,
    ensures
        position is Some <==> g.status != 0,
        inner is Some <==> g.status != 0,
        outer is Some <==> g.status != 0,
        position matches Some(p) ==> p.0 == g.x && p.1 == g.y,
        inner matches Some(i) ==> i.0 == g.width && i.1 == g.height,
        outer matches Some(o) ==> o.0 - g.border == g.width && o.1 - g.border == g.height,
{
}

/// A window and its proxies are about the same numbers of the server, and so is a copy of a proxy.
pub proof fn law_proxy_is_of_its_window(w: &Window, proxy: WindowProxy, copy: WindowProxy)
    requires
        call_ensures(Window::create_window_proxy, (w,), proxy),
        call_ensures(WindowProxy::clone, (&proxy,), copy),
    ensures
        proxy@ == w@.x,
        copy@ == w@.x,
{
}

/// A proxy sends one message to its window, about that window, which says nothing: it is a client
/// message of five items of 32 bits, all of them zero. It goes to that window alone.
pub proof fn law_wakeup_is_sent(proxy: &WindowProxy, r: Vec<Request>)
    requires
        call_ensures(WindowProxy::wakeup_event_loop, (proxy,), r),
    ensures
        r@.len() == 2,
        r@[0] matches Request::SendEvent { window, propagate, event_mask, event } && {
            &&& window == proxy@.window
            &&& propagate == 0
            &&& event_mask == 0
            &&& event.type_ == CLIENT_MESSAGE
            &&& event.window == proxy@.window
            &&& event.format == 32
            &&& event.message_type == 0
            &&& event.serial == 0
            &&& event.send_event == 0
            &&& forall|i: int| 0 <= i < 5 ==> #[trigger] event.data@[i] == 0
        },
        r@[1] == Request::<Vec<u8>>::Flush,
{
    law_requests_are_seen(r@);
    assert(r@[0]@ == requests_view(r@)[0]);
    assert(r@[1]@ == requests_view(r@)[1]);
}

/// A window gives back its own context, input context, input method and number, once each and in
/// this order. Where it fills a monitor, its screen first gets back the mode that it had, and the
/// upper left corner becomes visible.
pub proof fn law_window_is_given_back(x: &XWindow, r: Vec<Request>)
    requires
        call_ensures(XWindow::drop, (x,), r),
    ensures
        x.is_fullscreen ==> r@.len() == 6 && r@[1] == (Request::<Vec<u8>>::SwitchToMode {
            screen: x.screen_id,
            mode: x.xf86_desk_mode,
        }) && r@[2] == (Request::<Vec<u8>>::SetViewPort { screen: x.screen_id, x: 0, y: 0 }),
        !x.is_fullscreen ==> r@.len() == 4,
        r@[0] == Request::<Vec<u8>>::ReleaseContext(x.context),
        r@[r@.len() - 3] == Request::<Vec<u8>>::DestroyIc(x.ic),
        r@[r@.len() - 2] == Request::<Vec<u8>>::CloseIm(x.im),
        r@[r@.len() - 1] == Request::<Vec<u8>>::DestroyWindow(x.window),
{
    law_requests_are_seen(r@);
    let n = r@.len() as int;
    assert(n == if x.is_fullscreen {
        6int
    } else {
        4int
    });
    assert(r@[0]@ == requests_view(r@)[0]);
    assert(r@[1]@ == requests_view(r@)[1]);
    assert(r@[2]@ == requests_view(r@)[2]);
    assert(r@[n - 3]@ == requests_view(r@)[n - 3]);
    assert(r@[n - 2]@ == requests_view(r@)[n - 2]);
    assert(r@[n - 1]@ == requests_view(r@)[n - 1]);
}

/// The numbers that a window tells are its own.
pub proof fn law_numbers_are_told(
    w: &Window,
    display: usize,
    window: u64,
    closed: bool,
    pixels: PixelFormat,
)
    requires
        call_ensures(Window::platform_display, (w,), display),
        call_ensures(Window::platform_window, (w,), window),
        call_ensures(Window::is_closed, (w,), closed),
        call_ensures(Window::get_pixel_format, (w,), pixels),
    ensures
        display == w@.x.display.display,
        window == w@.x.window,
        closed == w@.closed,
        pixels == w@.pixel_format,
{
}

/// A resize callback changes nothing of a window.
pub proof fn law_resize_callback_is_ignored<F>(w: &mut Window, callback: Option<F>)
    requires
        call_ensures(Window::set_window_resize_callback::<F>, (w, callback), ()),
    ensures
        final(w)@ == old(w)@,
{
}

/// The name of a look is handed over whole: it is some bytes without a zero, and a zero behind
/// them. Looks for which the themes have no own name get the default one, and a look that stands
/// for a direction gets the same name as the other look for that direction.
pub proof fn law_looks_that_are_alike(
    w: &Window,
    a: MouseCursor,
    b: MouseCursor,
    load_a: LoadCursor,
    load_b: LoadCursor,
)
    requires
        call_ensures(Window::set_cursor, (w, a), load_a),
        call_ensures(Window::set_cursor, (w, b), load_b),
        a == b || (a is Hand && b is Grab) || (a is EwResize && b is ColResize) || (a is NsResize
            && b is RowResize) || (a is Text && b is VerticalText) || (a is Default && (b is
            ContextMenu || b is NoneCursor || b is AllScroll || b is ZoomIn || b is ZoomOut)),
    ensures
        load_a.name@ == load_b.name@,
        load_a.name@.len() > 1,
        load_a.name@.last() == 0,
{
    law_cursor_names_are_c_strings(a);
    let name = cursor_name_spec(a);
    assert(encode_utf8(name).len() > 0) by {
        encode_utf8_decode_utf8(name);
        if encode_utf8(name).len() == 0 {
            assert(encode_utf8(name) =~= encode_utf8(Seq::<char>::empty()));
            encode_utf8_decode_utf8(Seq::<char>::empty());
            assert(name == Seq::<char>::empty());
        }
    }
}

/// What is loaded for a look is its name, whole, as a string of C.
pub proof fn law_look_is_loaded_by_name(
    w: &Window,
    look: MouseCursor,
    name: &'static str,
    load: LoadCursor,
)
    requires
        call_ensures(cursor_name, (look,), name),
        call_ensures(Window::set_cursor, (w, look), load),
    ensures
        load.name@.len() == encode_utf8(name@).len() + 1,
        load.name@.drop_last() == encode_utf8(name@),
        load.name@.last() == 0,
{
    assert(load.name@.drop_last() =~= encode_utf8(name@));
}

/// The look that was loaded is the one that the window itself gets, and then it is sent out.
pub proof fn law_loaded_look_is_defined(w: &Window, loaded: u64, r: Vec<Request>)
    requires
        call_ensures(Window::define_cursor, (w, loaded), r),
    ensures
        r@.len() == 2,
        r@[0] matches Request::DefineCursor { window, cursor } && window == w@.x.window && cursor
            == loaded,
        r@[1] == Request::<Vec<u8>>::Flush,
{
    law_requests_are_seen(r@);
    assert(r@[0]@ == requests_view(r@)[0]);
    assert(r@[1]@ == requests_view(r@)[1]);
}

/// The pointer can be asked for exactly where it is free, and let go exactly where it was asked
/// for. It can never be hidden.
pub proof fn law_hold_can_change(w: &Window, grab: bool, release: bool, hidden: bool)
    requires
        call_ensures(Window::can_set_cursor_state, (w, CursorState::Grab), grab),
        call_ensures(Window::can_set_cursor_state, (w, CursorState::Normal), release),
        call_ensures(Window::can_set_cursor_state, (w, CursorState::Hide), hidden),
    ensures
        grab <==> w@.cursor == CursorState::Normal,
        release <==> w@.cursor == CursorState::Grab,
        !hidden,
{
}

/// A window that asks for the pointer asks for itself, and keeps the pointer inside itself: both
/// the window that grabs and the one that the pointer is confined to are its own number. The
/// pointer keeps its looks, all its events go on, and it is held from now on. Nothing else of the
/// window changes.
pub proof fn law_grab_keeps_pointer_inside(w: &mut Window, r: CursorStep)
    requires
        call_ensures(Window::set_cursor_state, (w, CursorState::Grab), r),
    ensures
        r matches CursorStep::Ask(grab) && {
            &&& grab.window == old(w)@.x.window
            &&& grab.confine_to == old(w)@.x.window
            &&& grab.owner_events == 0
            &&& grab.event_mask == GRAB_EVENT_MASK as u32
            &&& grab.pointer_mode == GRAB_MODE_ASYNC
            &&& grab.keyboard_mode == GRAB_MODE_ASYNC
            &&& grab.cursor == 0
            &&& grab.time == 0
        },
        final(w)@ == (WindowView { cursor: CursorState::Grab, ..old(w)@ }),
{
}

/// A window that lets the pointer go does only that, at once.
pub proof fn law_release_lets_pointer_go(w: &mut Window, r: CursorStep)
    requires
        call_ensures(Window::set_cursor_state, (w, CursorState::Normal), r),
    ensures
        r matches CursorStep::Done(requests) && requests@.len() == 1 && requests@[0] == (Request::<
            Vec<u8>,
        >::UngrabPointer { time: 0 }),
        final(w)@ == (WindowView { cursor: CursorState::Normal, ..old(w)@ }),
{
    let requests = r->Done_0@;
    law_requests_are_seen(requests);
    assert(requests[0]@ == requests_view(requests)[0]);
}

/// A grab succeeds exactly where the server says so.
pub proof fn law_grab_result(status: i32, r: Result<(), String>)
    requires
        call_ensures(grab_result, (status,), r),
    ensures
        r is Ok <==> status == 0,
        r is Err ==> r->Err_0@ == "cursor could not be grabbed"@,
{
}

/// The pointer is moved to the place that is asked for, counted from the window itself, wherever
/// it was before.
pub proof fn law_pointer_is_moved(w: &Window, x: i32, y: i32, r: Result<Vec<Request>, ()>)
    requires
        call_ensures(Window::set_cursor_position, (w, x, y), r),
    ensures
        r is Ok,
        r->Ok_0@.len() == 1,
        r->Ok_0@[0] matches Request::WarpPointer {
            src_window,
            dest_window,
            src_x,
            src_y,
            src_width,
            src_height,
            dest_x,
            dest_y,
        } && {
            &&& src_window == 0
            &&& src_x == 0
            &&& src_y == 0
            &&& src_width == 0
            &&& src_height == 0
            &&& dest_window == w@.x.window
            &&& dest_x == x
            &&& dest_y == y
        },
{
    law_requests_are_seen(r->Ok_0@);
    assert(r->Ok_0@[0]@ == requests_view(r->Ok_0@)[0]);
}

/// Every call goes to the window's own context, by the library that made it and under its number.
/// Without a context nothing is called.
pub proof fn law_calls_go_to_own_context(
    w: &Window,
    name: &str,
    make_current: Option<GlCall>,
    swap: Option<GlCall>,
    address: Option<GlCall>,
)
    requires
        call_ensures(Window::make_current, (w,), make_current),
        call_ensures(Window::swap_buffers, (w,), swap),
        call_ensures(Window::get_proc_address, (w, name), address),
    ensures
        match w@.x.context {
            Context::Glx(number) => {
                &&& make_current == Some(GlCall::<String>::MakeCurrent(ContextRef::Glx(number)))
                &&& swap == Some(GlCall::<String>::SwapBuffers(ContextRef::Glx(number)))
                &&& address matches Some(GlCall::GetProcAddress(context, asked)) && context
                    == ContextRef::Glx(number) && asked@ == name@
            },
            Context::Egl(number) => {
                &&& make_current == Some(GlCall::<String>::MakeCurrent(ContextRef::Egl(number)))
                &&& swap == Some(GlCall::<String>::SwapBuffers(ContextRef::Egl(number)))
                &&& address matches Some(GlCall::GetProcAddress(context, asked)) && context
                    == ContextRef::Egl(number) && asked@ == name@
            },
            Context::NoContext => make_current is None && swap is None && address is None,
        },
{
}

/// Questions about the context go to the window's own one, too.
pub proof fn law_questions_go_to_own_context(w: &Window, is_current: GlCall, api: GlCall)
    requires
        call_ensures(Window::is_current, (w,), is_current),
        call_ensures(Window::get_api, (w,), api),
    ensures
        w@.x.context matches Context::Glx(number) ==> {
            &&& is_current == GlCall::<String>::IsCurrent(ContextRef::Glx(number))
            &&& api == GlCall::<String>::GetApi(ContextRef::Glx(number))
        },
        w@.x.context matches Context::Egl(number) ==> {
            &&& is_current == GlCall::<String>::IsCurrent(ContextRef::Egl(number))
            &&& api == GlCall::<String>::GetApi(ContextRef::Egl(number))
        },
{
}

} // verus!
