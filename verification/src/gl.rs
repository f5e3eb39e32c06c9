//! Calls of a window's context.
use vstd::prelude::*;

use crate::attributes::Context;
use crate::attributes::PixelFormat;
use crate::window::Window;

verus! {

/// The context that a call goes to, by its maker and its number.
#[derive(Clone, Copy, Debug, PartialEq, Eq, Structural)]
pub enum ContextRef {
    Glx(u64),
    Egl(u64),
}

/// The context of a window, if it has one.
pub open spec fn context_ref(context: Context) -> Option<ContextRef> {
    match context {
        Context::Glx(number) => Some(ContextRef::Glx(number)),
        Context::Egl(number) => Some(ContextRef::Egl(number)),
        Context::NoContext => None,
    }
}

/// A call of a context. `S` is the type of names.
pub enum GlCall<S = String> {
    /// Make the context the current one of the thread.
    MakeCurrent(ContextRef),
    /// Whether the context is the current one of the thread.
    IsCurrent(ContextRef),
    /// The address of a function of the interface.
    GetProcAddress(ContextRef, S),
    /// Show what was drawn.
    SwapBuffers(ContextRef),
    /// The interface that the context has.
    GetApi(ContextRef),
}

impl View for GlCall {
    type V = GlCall<Seq<char>>;

    open spec fn view(&self) -> GlCall<Seq<char>> {
        match self {
            GlCall::MakeCurrent(context) => GlCall::MakeCurrent(*context),
            GlCall::IsCurrent(context) => GlCall::IsCurrent(*context),
            GlCall::GetProcAddress(context, name) => GlCall::GetProcAddress(*context, name@),
            GlCall::SwapBuffers(context) => GlCall::SwapBuffers(*context),
            GlCall::GetApi(context) => GlCall::GetApi(*context),
        }
    }
}

impl Window {
    /// The context of the window, if it has one.
    fn context(&self) -> (r: Option<ContextRef>)
        ensures
            r == context_ref(self@.x.context),
    {
        match self.x_window().context {
            Context::Glx(number) => Some(ContextRef::Glx(number)),
            Context::Egl(number) => Some(ContextRef::Egl(number)),
            Context::NoContext => None,
        }
    }

    /// Makes the context the current one of the thread. Without a context nothing is called.
    pub fn make_current(&self) -> (r: Option<GlCall>)
        ensures
            match context_ref(self@.x.context) {
                Some(context) => r == Some(GlCall::<String>::MakeCurrent(context)),
                None => r is None,
            },
    {
        match self.context() {
            Some(context) => Some(GlCall::MakeCurrent(context)),
            None => None,
        }
    }

    /// Whether the context is the current one of the thread. There has to be a context.
    pub fn is_current(&self) -> (r: GlCall)
        requires
            self@.x.context != Context::NoContext,
        ensures
            Some(r) == (match context_ref(self@.x.context) {
                Some(context) => Some(GlCall::<String>::IsCurrent(context)),
                None => None,
            }),
    {
        GlCall::IsCurrent(self.context().unwrap())
    }

    /// The address of a function of the interface. Without a context nothing is called, and the
    /// address is null.
    pub fn get_proc_address(&self, addr: &str) -> (r: Option<GlCall>)
        ensures
            match context_ref(self@.x.context) {
                Some(context) => r matches Some(call) && call@ == GlCall::GetProcAddress(
                    context,
                    addr@,
                ),
                None => r is None,
            },
    {
        match self.context() {
            Some(context) => Some(GlCall::GetProcAddress(context, addr.to_owned())),
            None => None,
        }
    }

    /// Shows what was drawn. Without a context nothing is called.
    pub fn swap_buffers(&self) -> (r: Option<GlCall>)
        ensures
            match context_ref(self@.x.context) {
                Some(context) => r == Some(GlCall::<String>::SwapBuffers(context)),
                None => r is None,
            },
    {
        match self.context() {
            Some(context) => Some(GlCall::SwapBuffers(context)),
            None => None,
        }
    }

    /// The interface that the context has. There has to be a context.
    pub fn get_api(&self) -> (r: GlCall)
        requires
            self@.x.context != Context::NoContext,
        ensures
            Some(r) == (match context_ref(self@.x.context) {
                Some(context) => Some(GlCall::<String>::GetApi(context)),
                None => None,
            }),
    {
        GlCall::GetApi(self.context().unwrap())
    }

    /// The pixels that the window has got.
    pub fn get_pixel_format(&self) -> (r: PixelFormat)
        ensures
            r == self@.pixel_format,
    {
        self.pixels()
    }
}

} // verus!
