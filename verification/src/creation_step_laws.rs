//! What each step of the making of a window does with an answer, item by item.
use vstd::prelude::*;
use vstd::utf8::*;

use crate::attributes::Api;
use crate::attributes::BuilderAttribs;
use crate::attributes::Context;
use crate::attributes::CreationError;
use crate::attributes::CursorState;
use crate::attributes::GlRequest;
use crate::attributes::PixelFormat;
use crate::attributes::PlatformMonitorID;
use crate::attributes::XConnection;
use crate::creation::best_mode;
use crate::creation::context_choice;
use crate::creation::dimensions;
use crate::creation::visual_attributes;
use crate::creation::visual_attributes_spec;
use crate::creation::ContextChoice;
use crate::creation::Creation;
use crate::creation::CreationNext;
use crate::creation::CreationQuery;
use crate::creation::CreationReply;
use crate::creation::CreationStage;
use crate::creation::CreationState;
use crate::creation::CreationStep;
use crate::creation::Facts;
use crate::creation::ModeLine;
use crate::creation::VisualInfo;
use crate::creation_laws::creation_result;
use crate::creation_laws::law_best_mode_is_last;
use crate::creation_laws::Server;
use crate::operation_laws::law_requests_are_seen;
use crate::protocol::{
    ALLOC_NONE, CW_BORDER_PIXEL, CW_EVENT_MASK, CW_OVERRIDE_REDIRECT, GLX_ALPHA_SIZE,
    GLX_BLUE_SIZE, GLX_DEPTH_SIZE, GLX_DOUBLEBUFFER, GLX_DRAWABLE_TYPE,
    GLX_FRAMEBUFFER_SRGB_CAPABLE_ARB, GLX_GREEN_SIZE, GLX_RED_SIZE, GLX_RENDER_TYPE, GLX_RGBA_BIT,
    GLX_SAMPLES, GLX_SAMPLE_BUFFERS, GLX_STENCIL_SIZE, GLX_STEREO, GLX_TRUE_COLOR, GLX_WINDOW_BIT,
    GLX_X_RENDERABLE, GLX_X_VISUAL_TYPE, INPUT_OUTPUT, INPUT_STYLE, WINDOW_EVENT_MASK,
};
use crate::request::requests_view;
use crate::request::Request;
use crate::text::c_bytes;
use crate::window::Window;

verus! {

/// Whether an attribute list asks for just one value of a name: the name stands at an even place,
/// the value behind it, and wherever else the name stands the value is the same.
pub open spec fn asks_for(list: Seq<i32>, name: i32, value: int) -> bool {
    &&& exists|i: int| 0 <= i < list.len() - 1 && i % 2 == 0 && #[trigger] list[i] == name
    &&& forall|i: int|
        0 <= i < list.len() - 1 && i % 2 == 0 && #[trigger] list[i] == name ==> list[i + 1] == value
}

/// Whether an attribute list does not ask for a name.
pub open spec fn leaves_open(list: Seq<i32>, name: i32) -> bool {
    forall|i: int| 0 <= i < list.len() - 1 && i % 2 == 0 ==> #[trigger] list[i] != name
}

/// Whether a name is one that attribute lists are made of.
pub open spec fn known_attribute(name: i32) -> bool {
    ||| name == GLX_X_RENDERABLE
    ||| name == GLX_DRAWABLE_TYPE
    ||| name == GLX_RENDER_TYPE
    ||| name == GLX_X_VISUAL_TYPE
    ||| name == GLX_RED_SIZE
    ||| name == GLX_GREEN_SIZE
    ||| name == GLX_BLUE_SIZE
    ||| name == GLX_ALPHA_SIZE
    ||| name == GLX_DEPTH_SIZE
    ||| name == GLX_STENCIL_SIZE
    ||| name == GLX_DOUBLEBUFFER
    ||| name == GLX_SAMPLE_BUFFERS
    ||| name == GLX_SAMPLES
    ||| name == GLX_FRAMEBUFFER_SRGB_CAPABLE_ARB
}

/// Whether an attribute list asks for what every window needs, for as many samples as are wanted
/// and for sRGB as it is wanted, and for nothing else.
pub open spec fn asks_as_wanted(list: Seq<i32>, samples: Option<u16>, srgb: Option<bool>) -> bool {
    &&& asks_for(list, GLX_X_RENDERABLE, 1)
    &&& asks_for(list, GLX_DRAWABLE_TYPE, GLX_WINDOW_BIT as int)
    &&& asks_for(list, GLX_RENDER_TYPE, GLX_RGBA_BIT as int)
    &&& asks_for(list, GLX_X_VISUAL_TYPE, GLX_TRUE_COLOR as int)
    &&& asks_for(list, GLX_RED_SIZE, 8)
    &&& asks_for(list, GLX_GREEN_SIZE, 8)
    &&& asks_for(list, GLX_BLUE_SIZE, 8)
    &&& asks_for(list, GLX_ALPHA_SIZE, 8)
    &&& asks_for(list, GLX_DEPTH_SIZE, 24)
    &&& asks_for(list, GLX_STENCIL_SIZE, 8)
    &&& asks_for(list, GLX_DOUBLEBUFFER, 1)
    &&& match samples {
        Some(n) => asks_for(list, GLX_SAMPLE_BUFFERS, 1) && asks_for(list, GLX_SAMPLES, n as int),
        None => leaves_open(list, GLX_SAMPLE_BUFFERS) && leaves_open(list, GLX_SAMPLES),
    }
    &&& match srgb {
        Some(true) => asks_for(list, GLX_FRAMEBUFFER_SRGB_CAPABLE_ARB, 1),
        Some(false) => asks_for(list, GLX_FRAMEBUFFER_SRGB_CAPABLE_ARB, 0),
        None => leaves_open(list, GLX_FRAMEBUFFER_SRGB_CAPABLE_ARB),
    }
    &&& forall|i: int|
        0 <= i < list.len() - 1 && i % 2 == 0 ==> known_attribute(#[trigger] list[i])
    &&& list.len() % 2 == 1
    &&& list.last() == 0
}

/// The same of the list that the contract speaks of.
proof fn lemma_asks_as_wanted(samples: Option<u16>, srgb: Option<bool>)
    ensures
        asks_as_wanted(visual_attributes_spec(samples, srgb), samples, srgb),
{
    let list = visual_attributes_spec(samples, srgb);
    assert(list[0] == GLX_X_RENDERABLE && list[1] == 1);
    assert(list[2] == GLX_DRAWABLE_TYPE && list[3] == GLX_WINDOW_BIT);
    assert(list[4] == GLX_RENDER_TYPE && list[5] == GLX_RGBA_BIT);
    assert(list[6] == GLX_X_VISUAL_TYPE && list[7] == GLX_TRUE_COLOR);
    assert(list[8] == GLX_RED_SIZE && list[9] == 8);
    assert(list[10] == GLX_GREEN_SIZE && list[11] == 8);
    assert(list[12] == GLX_BLUE_SIZE && list[13] == 8);
    assert(list[14] == GLX_ALPHA_SIZE && list[15] == 8);
    assert(list[16] == GLX_DEPTH_SIZE && list[17] == 24);
    assert(list[18] == GLX_STENCIL_SIZE && list[19] == 8);
    assert(list[20] == GLX_DOUBLEBUFFER && list[21] == 1);
    let at: int = if samples is Some {
        26
    } else {
        22
    };
    if let Some(n) = samples {
        assert(list[22] == GLX_SAMPLE_BUFFERS && list[23] == 1);
        assert(list[24] == GLX_SAMPLES && list[25] == n);
    }
    if let Some(capable) = srgb {
        assert(list[at] == GLX_FRAMEBUFFER_SRGB_CAPABLE_ARB);
        assert(list[at + 1] == if capable {
            1int
        } else {
            0int
        });
    }
    assert(list.len() == at + if srgb is Some {
        3int
    } else {
        1int
    });
}

/// The list that a configuration is chosen by asks for as many samples as are wanted and for sRGB
/// as it is wanted, beside what every window needs.
pub proof fn law_attributes_are_as_wanted(
    samples: Option<u16>,
    srgb: Option<bool>,
    list: Vec<i32>,
)
    requires
        call_ensures(visual_attributes, (samples, srgb), list),
    ensures
        asks_as_wanted(list@, samples, srgb),
{
    lemma_asks_as_wanted(samples, srgb);
}

/// Whoever wants something else gets another list.
pub proof fn law_other_wishes_other_attributes(
    samples_a: Option<u16>,
    srgb_a: Option<bool>,
    samples_b: Option<u16>,
    srgb_b: Option<bool>,
    list_a: Vec<i32>,
    list_b: Vec<i32>,
)
    requires
        call_ensures(visual_attributes, (samples_a, srgb_a), list_a),
        call_ensures(visual_attributes, (samples_b, srgb_b), list_b),
        list_a@ == list_b@,
    ensures
        samples_a == samples_b,
        srgb_a == srgb_b,
{
    lemma_asks_as_wanted(samples_a, srgb_a);
    lemma_asks_as_wanted(samples_b, srgb_b);
}

/// Whether a display mode has just the size that is wanted. Of a side of 65536 or more only the
/// lower 16 bits count.
pub open spec fn of_size(mode: ModeLine, size: (u32, u32)) -> bool {
    &&& mode.hdisplay == size.0 as u16
    &&& mode.vdisplay == size.1 as u16
}

/// The mode that is found has the width and the height that are wanted, no mode behind it has
/// both, and none is found only where no mode at all has both.
pub proof fn law_mode_has_wanted_size(
    modes: &Vec<ModeLine>,
    width: u32,
    height: u32,
    r: Option<usize>,
)
    requires
        call_ensures(best_mode, (modes, (width, height)), r),
        width <= 65535,
        height <= 65535,
    ensures
        r matches Some(i) ==> {
            &&& i < modes@.len()
            &&& modes@[i as int].hdisplay == width
            &&& modes@[i as int].vdisplay == height
            &&& forall|j: int|
                i < j < modes@.len() ==> !((#[trigger] modes@[j]).hdisplay == width
                    && modes@[j].vdisplay == height)
        },
        r is None ==> forall|j: int|
            0 <= j < modes@.len() ==> !((#[trigger] modes@[j]).hdisplay == width
                && modes@[j].vdisplay == height),
{
    law_best_mode_is_last(modes@, (width, height));
}

/// The same of any size: of a side of 65536 or more only the lower 16 bits count.
pub proof fn law_mode_is_of_size(modes: &Vec<ModeLine>, size: (u32, u32), r: Option<usize>)
    requires
        call_ensures(best_mode, (modes, size), r),
    ensures
        r matches Some(i) ==> {
            &&& i < modes@.len()
            &&& of_size(modes@[i as int], size)
            &&& forall|j: int| i < j < modes@.len() ==> !of_size(#[trigger] modes@[j], size)
        },
        r is None ==> forall|j: int| 0 <= j < modes@.len() ==> !of_size(#[trigger] modes@[j], size),
{
    law_best_mode_is_last(modes@, size);
}

/// A window has the size that is asked for, and where none is asked for it is 800 by 600.
pub proof fn law_size_is_as_asked(asked: Option<(u32, u32)>, r: (u32, u32))
    requires
        call_ensures(dimensions, (asked,), r),
    ensures
        asked matches Some(size) ==> r.0 == size.0 && r.1 == size.1,
        asked is None ==> r.0 == 800 && r.1 == 600,
{
}

/// OpenGL comes from GLX where that is there, and else from EGL. OpenGL ES comes from EGL only.
/// What is not there is not supported, and nothing else is either. Versions do not count.
pub proof fn law_library_is_chosen(request: GlRequest, glx: bool, egl: bool, r: ContextChoice)
    requires
        call_ensures(context_choice, (request, glx, egl), r),
    ensures
        request is Latest || request is GlThenGles || (request matches GlRequest::Specific(api, _)
            && api == Api::OpenGl) ==> {
            &&& r == ContextChoice::Glx <==> glx
            &&& r == ContextChoice::Egl <==> !glx && egl
            &&& r == ContextChoice::NotSupported <==> !glx && !egl
        },
        request matches GlRequest::Specific(api, _) && api == Api::OpenGlEs ==> {
            &&& r == ContextChoice::Egl <==> egl
            &&& r == ContextChoice::NotSupported <==> !egl
        },
        request matches GlRequest::Specific(api, _) && api == Api::WebGl ==> r
            == ContextChoice::NotSupported,
{
}

/// The wishes and the connection stay as they are while a window is made.
pub open spec fn same_wishes(before: CreationState, after: CreationState) -> bool {
    &&& after.builder == before.builder
    &&& after.display == before.display
}

/// A window could not be made, for the reason that the message tells, and nothing more is done.
pub open spec fn failed_with(r: CreationStep, stage: CreationStage, message: Seq<char>) -> bool {
    &&& r.next matches CreationNext::Failed(CreationError::OsError(told)) && told@ == message
    &&& r.requests@.len() == 0
    &&& stage == CreationStage::Over
}

/// The making of a window starts with what was asked for. The default screen is asked for in any
/// case; where a monitor of the X server is to be filled, its screen is the window's.
pub proof fn law_making_starts(
    display: &XConnection,
    builder: BuilderAttribs,
    r: (Creation, CreationStep),
)
    requires
        call_ensures(Window::new, (display, builder), r),
    ensures
        r.1.requests@.len() == 0,
        r.1.next == CreationNext::<CreationQuery, Window, CreationError>::Ask(
            CreationQuery::<Vec<u8>, Vec<i32>, String>::DefaultScreen,
        ),
        r.0@.display == *display,
        r.0@.builder.title == builder.title@,
        r.0@.builder.dimensions == builder.dimensions,
        r.0@.builder.monitor == builder.monitor,
        r.0@.builder.multisampling == builder.multisampling,
        r.0@.builder.srgb == builder.srgb,
        r.0@.builder.visible == builder.visible,
        r.0@.builder.gl_version == builder.gl_version,
        r.0@.facts.pixel_format.hardware_accelerated,
        r.0@.facts.pixel_format.multisampling is None,
        builder.monitor matches Some(PlatformMonitorID::X(number)) ==> {
            &&& r.0@.stage == CreationStage::ConfigScreen
            &&& r.0@.facts.screen_id == number as i32
            &&& number <= i32::MAX ==> r.0@.facts.screen_id == number
        },
        !(builder.monitor matches Some(PlatformMonitorID::X(_))) ==> r.0@.stage
            == CreationStage::Screen,
{
    law_requests_are_seen(r.1.requests@);
}

/// Whether an attribute can be added to the bits of the colours so far.
pub open spec fn attribute_fits(s: CreationState, value: i32) -> bool {
    s.facts.pixel_format.color_bits + value as u8 <= 255
}

/// Whether `builder` holds just what was asked for.
pub open spec fn same_builder(builder: BuilderAttribs, asked: BuilderAttribs<Seq<char>>) -> bool {
    &&& builder.title@ == asked.title
    &&& builder.dimensions == asked.dimensions
    &&& builder.monitor == asked.monitor
    &&& builder.multisampling == asked.multisampling
    &&& builder.srgb == asked.srgb
    &&& builder.visible == asked.visible
    &&& builder.gl_version == asked.gl_version
}

/// A string of C without its last byte is the text's bytes.
proof fn lemma_c_bytes(s: Seq<char>)
    ensures
        c_bytes(s).len() > 0,
        c_bytes(s).last() == 0,
        c_bytes(s).drop_last() == encode_utf8(s),
{
    assert(c_bytes(s).drop_last() =~= encode_utf8(s));
}

/// Where the default screen is the window's, it is noted, and asked for once more for the
/// configuration.
pub proof fn law_default_screen_is_noted(c: &mut Creation, number: i32, r: CreationStep)
    requires
        call_ensures(Creation::answer, (c, CreationReply::Screen(number)), r),
        old(c)@.stage == CreationStage::Screen,
    ensures
        same_wishes(old(c)@, final(c)@),
        r.requests@.len() == 0,
        r.next == CreationNext::<CreationQuery, Window, CreationError>::Ask(
            CreationQuery::<Vec<u8>, Vec<i32>, String>::DefaultScreen,
        ),
        final(c)@.stage == CreationStage::ConfigScreen,
        final(c)@.facts == (Facts { screen_id: number, ..old(c)@.facts }),
{
    law_requests_are_seen(r.requests@);
}

/// A configuration is chosen for the default screen, by the samples and the sRGB that are wanted.
pub proof fn law_configuration_is_as_wanted(c: &mut Creation, number: i32, r: CreationStep)
    requires
        call_ensures(Creation::answer, (c, CreationReply::Screen(number)), r),
        old(c)@.stage == CreationStage::ConfigScreen,
    ensures
        same_wishes(old(c)@, final(c)@),
        r.requests@.len() == 0,
        r.next matches CreationNext::Ask(CreationQuery::ChooseFbConfig { screen, attributes }) && {
            &&& screen == number
            &&& asks_as_wanted(
                attributes@,
                old(c)@.builder.multisampling,
                old(c)@.builder.srgb,
            )
        },
        final(c)@.stage == CreationStage::FbConfig,
        final(c)@.facts == old(c)@.facts,
{
    law_requests_are_seen(r.requests@);
    lemma_asks_as_wanted(old(c)@.builder.multisampling, old(c)@.builder.srgb);
}

/// The first configuration is taken and the list of them freed; without one there is no window.
/// Then the modes of the window's own screen are asked for.
pub proof fn law_first_configuration_is_taken(
    c: &mut Creation,
    list: usize,
    first: usize,
    r: CreationStep,
)
    requires
        call_ensures(Creation::answer, (c, CreationReply::FbConfigs { list, first }), r),
        old(c)@.stage == CreationStage::FbConfig,
    ensures
        same_wishes(old(c)@, final(c)@),
        list == 0 ==> failed_with(r, final(c)@.stage, "glx::ChooseFBConfig failed"@),
        list != 0 ==> {
            &&& r.requests@.len() == 1
            &&& r.requests@[0] == Request::<Vec<u8>>::Free(list)
            &&& r.next matches CreationNext::Ask(CreationQuery::GetAllModeLines { screen })
                && screen == old(c)@.facts.screen_id
            &&& final(c)@.stage == CreationStage::Modes
            &&& final(c)@.facts == (Facts { fb_config: first, ..old(c)@.facts })
        },
{
    law_requests_are_seen(r.requests@);
    if list != 0 {
        assert(r.requests@[0]@ == requests_view(r.requests@)[0]);
    }
}

/// Of the modes, the first is the one that the screen has. A monitor is filled by the last mode of
/// the size that the window has, 800 by 600 where none is asked for; where no mode has it, there is
/// no window.
pub proof fn law_mode_is_chosen(
    c: &mut Creation,
    status: i32,
    modes: Vec<ModeLine>,
    size: (u32, u32),
    r: CreationStep,
)
    requires
        call_ensures(Creation::answer, (c, CreationReply::ModeLines { status, modes }), r),
        old(c)@.stage == CreationStage::Modes,
        size == (match old(c)@.builder.dimensions {
            Some(asked) => asked,
            None => (800u32, 600u32),
        }),
    ensures
        same_wishes(old(c)@, final(c)@),
        status == 0 ==> failed_with(r, final(c)@.stage, "Could not query the video modes"@),
        status != 0 && old(c)@.builder.monitor is Some && (forall|i: int|
            0 <= i < modes@.len() ==> !of_size(#[trigger] modes@[i], size)) ==> failed_with(
            r,
            final(c)@.stage,
            "Could not find a suitable graphics mode"@,
        ),
        status != 0 && (old(c)@.builder.monitor is None || (exists|i: int|
            0 <= i < modes@.len() && of_size(#[trigger] modes@[i], size))) ==> {
            &&& r.requests@.len() == 0
            &&& r.next matches CreationNext::Ask(
                CreationQuery::GetVisualFromFbConfig { fb_config },
            ) && fb_config == old(c)@.facts.fb_config
            &&& final(c)@.stage == CreationStage::Visual
            &&& final(c)@.facts == (Facts {
                best_mode: final(c)@.facts.best_mode,
                desk_mode: modes@[0].mode,
                ..old(c)@.facts
            })
        },
        status != 0 ==> forall|i: int|
            0 <= i < modes@.len() && of_size(#[trigger] modes@[i], size) && (forall|j: int|
                i < j < modes@.len() ==> !of_size(#[trigger] modes@[j], size))
                ==> final(c)@.facts.best_mode == modes@[i].mode,
{
    law_requests_are_seen(r.requests@);
    law_best_mode_is_last(modes@, size);
}

/// What is told of the visual is noted whole and freed; without one there is no window. Then the
/// first attribute of the configuration is asked for.
pub proof fn law_visual_is_noted(
    c: &mut Creation,
    info: usize,
    visual_infos: VisualInfo,
    r: CreationStep,
)
    requires
        call_ensures(Creation::answer, (c, CreationReply::Visual { info, visual_infos }), r),
        old(c)@.stage == CreationStage::Visual,
    ensures
        same_wishes(old(c)@, final(c)@),
        info == 0 ==> failed_with(r, final(c)@.stage, "glx::ChooseVisual failed"@),
        info != 0 ==> {
            &&& r.requests@.len() == 1
            &&& r.requests@[0] == Request::<Vec<u8>>::Free(info)
            &&& r.next matches CreationNext::Ask(
                CreationQuery::GetFbConfigAttrib { fb_config, attribute },
            ) && fb_config == old(c)@.facts.fb_config && attribute == GLX_RED_SIZE
            &&& final(c)@.stage == CreationStage::Red
            &&& final(c)@.facts == (Facts { visual_infos, ..old(c)@.facts })
        },
{
    law_requests_are_seen(r.requests@);
    if info != 0 {
        assert(r.requests@[0]@ == requests_view(r.requests@)[0]);
    }
}

/// The bits of red are noted, by their lower 8 bits.
pub proof fn law_red_is_noted(c: &mut Creation, value: i32, r: CreationStep)
    requires
        call_ensures(Creation::answer, (c, CreationReply::Attribute(value)), r),
        old(c)@.stage == CreationStage::Red,
    ensures
        same_wishes(old(c)@, final(c)@),
        r.requests@.len() == 0,
        r.next matches CreationNext::Ask(CreationQuery::GetFbConfigAttrib { fb_config, attribute })
            && fb_config == old(c)@.facts.fb_config && attribute == GLX_GREEN_SIZE,
        final(c)@.stage == CreationStage::Green,
        final(c)@.facts == (Facts {
            pixel_format: PixelFormat { color_bits: value as u8, ..old(c)@.facts.pixel_format },
            ..old(c)@.facts
        }),
        0 <= value <= 255 ==> final(c)@.facts.pixel_format.color_bits == value,
{
    law_requests_are_seen(r.requests@);
}

/// The bits of green are added.
pub proof fn law_green_is_added(c: &mut Creation, value: i32, r: CreationStep)
    requires
        call_ensures(Creation::answer, (c, CreationReply::Attribute(value)), r),
        old(c)@.stage == CreationStage::Green,
        attribute_fits(old(c)@, value),
    ensures
        same_wishes(old(c)@, final(c)@),
        r.requests@.len() == 0,
        r.next matches CreationNext::Ask(CreationQuery::GetFbConfigAttrib { fb_config, attribute })
            && fb_config == old(c)@.facts.fb_config && attribute == GLX_BLUE_SIZE,
        final(c)@.stage == CreationStage::Blue,
        final(c)@.facts == (Facts {
            pixel_format: PixelFormat {
                color_bits: final(c)@.facts.pixel_format.color_bits,
                ..old(c)@.facts.pixel_format
            },
            ..old(c)@.facts
        }),
        final(c)@.facts.pixel_format.color_bits == old(c)@.facts.pixel_format.color_bits
            + value as u8,
        0 <= value <= 255 ==> final(c)@.facts.pixel_format.color_bits
            - old(c)@.facts.pixel_format.color_bits == value,
{
    law_requests_are_seen(r.requests@);
}

/// The bits of blue are added.
pub proof fn law_blue_is_added(c: &mut Creation, value: i32, r: CreationStep)
    requires
        call_ensures(Creation::answer, (c, CreationReply::Attribute(value)), r),
        old(c)@.stage == CreationStage::Blue,
        attribute_fits(old(c)@, value),
    ensures
        same_wishes(old(c)@, final(c)@),
        r.requests@.len() == 0,
        r.next matches CreationNext::Ask(CreationQuery::GetFbConfigAttrib { fb_config, attribute })
            && fb_config == old(c)@.facts.fb_config && attribute == GLX_ALPHA_SIZE,
        final(c)@.stage == CreationStage::Alpha,
        final(c)@.facts == (Facts {
            pixel_format: PixelFormat {
                color_bits: final(c)@.facts.pixel_format.color_bits,
                ..old(c)@.facts.pixel_format
            },
            ..old(c)@.facts
        }),
        final(c)@.facts.pixel_format.color_bits == old(c)@.facts.pixel_format.color_bits
            + value as u8,
        0 <= value <= 255 ==> final(c)@.facts.pixel_format.color_bits
            - old(c)@.facts.pixel_format.color_bits == value,
{
    law_requests_are_seen(r.requests@);
}

/// The bits of alpha are noted, by their lower 8 bits.
pub proof fn law_alpha_is_noted(c: &mut Creation, value: i32, r: CreationStep)
    requires
        call_ensures(Creation::answer, (c, CreationReply::Attribute(value)), r),
        old(c)@.stage == CreationStage::Alpha,
    ensures
        same_wishes(old(c)@, final(c)@),
        r.requests@.len() == 0,
        r.next matches CreationNext::Ask(CreationQuery::GetFbConfigAttrib { fb_config, attribute })
            && fb_config == old(c)@.facts.fb_config && attribute == GLX_DEPTH_SIZE,
        final(c)@.stage == CreationStage::Depth,
        final(c)@.facts == (Facts {
            pixel_format: PixelFormat { alpha_bits: value as u8, ..old(c)@.facts.pixel_format },
            ..old(c)@.facts
        }),
        0 <= value <= 255 ==> final(c)@.facts.pixel_format.alpha_bits == value,
{
    law_requests_are_seen(r.requests@);
}

/// The bits of depth are noted, by their lower 8 bits.
pub proof fn law_depth_is_noted(c: &mut Creation, value: i32, r: CreationStep)
    requires
        call_ensures(Creation::answer, (c, CreationReply::Attribute(value)), r),
        old(c)@.stage == CreationStage::Depth,
    ensures
        same_wishes(old(c)@, final(c)@),
        r.requests@.len() == 0,
        r.next matches CreationNext::Ask(CreationQuery::GetFbConfigAttrib { fb_config, attribute })
            && fb_config == old(c)@.facts.fb_config && attribute == GLX_STENCIL_SIZE,
        final(c)@.stage == CreationStage::Stencil,
        final(c)@.facts == (Facts {
            pixel_format: PixelFormat { depth_bits: value as u8, ..old(c)@.facts.pixel_format },
            ..old(c)@.facts
        }),
        0 <= value <= 255 ==> final(c)@.facts.pixel_format.depth_bits == value,
{
    law_requests_are_seen(r.requests@);
}

/// The bits of stencil are noted, by their lower 8 bits.
pub proof fn law_stencil_is_noted(c: &mut Creation, value: i32, r: CreationStep)
    requires
        call_ensures(Creation::answer, (c, CreationReply::Attribute(value)), r),
        old(c)@.stage == CreationStage::Stencil,
    ensures
        same_wishes(old(c)@, final(c)@),
        r.requests@.len() == 0,
        r.next matches CreationNext::Ask(CreationQuery::GetFbConfigAttrib { fb_config, attribute })
            && fb_config == old(c)@.facts.fb_config && attribute == GLX_STEREO,
        final(c)@.stage == CreationStage::Stereo,
        final(c)@.facts == (Facts {
            pixel_format: PixelFormat { stencil_bits: value as u8, ..old(c)@.facts.pixel_format },
            ..old(c)@.facts
        }),
        0 <= value <= 255 ==> final(c)@.facts.pixel_format.stencil_bits == value,
{
    law_requests_are_seen(r.requests@);
}

/// Whether there are two pictures, for two eyes, is noted.
pub proof fn law_stereo_is_noted(c: &mut Creation, value: i32, r: CreationStep)
    requires
        call_ensures(Creation::answer, (c, CreationReply::Attribute(value)), r),
        old(c)@.stage == CreationStage::Stereo,
    ensures
        same_wishes(old(c)@, final(c)@),
        r.requests@.len() == 0,
        r.next matches CreationNext::Ask(CreationQuery::GetFbConfigAttrib { fb_config, attribute })
            && fb_config == old(c)@.facts.fb_config && attribute == GLX_DOUBLEBUFFER,
        final(c)@.stage == CreationStage::DoubleBuffer,
        final(c)@.facts == (Facts {
            pixel_format: PixelFormat { stereoscopy: value != 0, ..old(c)@.facts.pixel_format },
            ..old(c)@.facts
        }),
{
    law_requests_are_seen(r.requests@);
}

/// Whether there are two buffers is noted.
pub proof fn law_double_buffer_is_noted(c: &mut Creation, value: i32, r: CreationStep)
    requires
        call_ensures(Creation::answer, (c, CreationReply::Attribute(value)), r),
        old(c)@.stage == CreationStage::DoubleBuffer,
    ensures
        same_wishes(old(c)@, final(c)@),
        r.requests@.len() == 0,
        r.next matches CreationNext::Ask(CreationQuery::GetFbConfigAttrib { fb_config, attribute })
            && fb_config == old(c)@.facts.fb_config && attribute == GLX_SAMPLE_BUFFERS,
        final(c)@.stage == CreationStage::SampleBuffers,
        final(c)@.facts == (Facts {
            pixel_format: PixelFormat { double_buffer: value != 0, ..old(c)@.facts.pixel_format },
            ..old(c)@.facts
        }),
{
    law_requests_are_seen(r.requests@);
}

/// Where there are sample buffers, the number of samples is asked for, and where there are none,
/// there are no samples.
pub proof fn law_samples_are_asked(c: &mut Creation, value: i32, r: CreationStep)
    requires
        call_ensures(Creation::answer, (c, CreationReply::Attribute(value)), r),
        old(c)@.stage == CreationStage::SampleBuffers,
    ensures
        same_wishes(old(c)@, final(c)@),
        r.requests@.len() == 0,
        r.next matches CreationNext::Ask(CreationQuery::GetFbConfigAttrib { fb_config, attribute })
            && fb_config == old(c)@.facts.fb_config && attribute == (if value != 0 {
            GLX_SAMPLES
        } else {
            GLX_FRAMEBUFFER_SRGB_CAPABLE_ARB
        }),
        value != 0 ==> final(c)@.stage == CreationStage::Samples && final(c)@.facts
            == old(c)@.facts,
        value == 0 ==> final(c)@.stage == CreationStage::Srgb && final(c)@.facts == (Facts {
            pixel_format: PixelFormat { multisampling: None, ..old(c)@.facts.pixel_format },
            ..old(c)@.facts
        }),
{
    law_requests_are_seen(r.requests@);
}

/// The number of samples is noted, by its lower 16 bits.
pub proof fn law_samples_are_noted(c: &mut Creation, value: i32, r: CreationStep)
    requires
        call_ensures(Creation::answer, (c, CreationReply::Attribute(value)), r),
        old(c)@.stage == CreationStage::Samples,
    ensures
        same_wishes(old(c)@, final(c)@),
        r.requests@.len() == 0,
        r.next matches CreationNext::Ask(CreationQuery::GetFbConfigAttrib { fb_config, attribute })
            && fb_config == old(c)@.facts.fb_config && attribute
            == GLX_FRAMEBUFFER_SRGB_CAPABLE_ARB,
        final(c)@.stage == CreationStage::Srgb,
        final(c)@.facts == (Facts {
            pixel_format: PixelFormat {
                multisampling: Some(value as u16),
                ..old(c)@.facts.pixel_format
            },
            ..old(c)@.facts
        }),
        0 <= value <= 65535 ==> final(c)@.facts.pixel_format.multisampling == Some(value as u16)
            && value as u16 == value,
{
    law_requests_are_seen(r.requests@);
}

/// Whether the configuration can be sRGB is noted. Then the root window is asked for.
pub proof fn law_srgb_is_noted(c: &mut Creation, value: i32, r: CreationStep)
    requires
        call_ensures(Creation::answer, (c, CreationReply::Attribute(value)), r),
        old(c)@.stage == CreationStage::Srgb,
    ensures
        same_wishes(old(c)@, final(c)@),
        r.requests@.len() == 0,
        r.next == CreationNext::<CreationQuery, Window, CreationError>::Ask(
            CreationQuery::<Vec<u8>, Vec<i32>, String>::DefaultRootWindow,
        ),
        final(c)@.stage == CreationStage::Root,
        final(c)@.facts == (Facts {
            pixel_format: PixelFormat { srgb: value != 0, ..old(c)@.facts.pixel_format },
            ..old(c)@.facts
        }),
{
    law_requests_are_seen(r.requests@);
}

/// A colormap is made for the root window, by the visual, and without entries of its own.
pub proof fn law_colormap_is_made(c: &mut Creation, root: u64, r: CreationStep)
    requires
        call_ensures(Creation::answer, (c, CreationReply::Resource(root)), r),
        old(c)@.stage == CreationStage::Root,
    ensures
        same_wishes(old(c)@, final(c)@),
        r.requests@.len() == 0,
        r.next matches CreationNext::Ask(CreationQuery::CreateColormap { window, visual, alloc })
            && window == root && visual == old(c)@.facts.visual_infos.visual && alloc == ALLOC_NONE,
        final(c)@.stage == CreationStage::Colormap,
        final(c)@.facts == (Facts { root, ..old(c)@.facts }),
{
    law_requests_are_seen(r.requests@);
}

/// The window is made on the root window at the upper left, with the size that is asked for and
/// 800 by 600 where none is, with the visual, the colormap and no border. It hears of its events.
/// Where a monitor is to be filled, its screen is first switched to the chosen mode, and the window
/// manager is bypassed; and else neither is done.
pub proof fn law_window_is_made(c: &mut Creation, colormap: u64, r: CreationStep)
    requires
        call_ensures(Creation::answer, (c, CreationReply::Resource(colormap)), r),
        old(c)@.stage == CreationStage::Colormap,
    ensures
        same_wishes(old(c)@, final(c)@),
        r.next matches CreationNext::Ask(
            CreationQuery::CreateWindow {
                parent,
                x,
                y,
                width,
                height,
                border_width,
                depth,
                class,
                visual,
                value_mask,
                attributes,
            },
        ) && {
            &&& parent == old(c)@.facts.root
            &&& x == 0
            &&& y == 0
            &&& old(c)@.builder.dimensions matches Some(asked) ==> width == asked.0 && height
                == asked.1
            &&& old(c)@.builder.dimensions is None ==> width == 800 && height == 600
            &&& border_width == 0
            &&& depth == old(c)@.facts.visual_infos.depth
            &&& class == INPUT_OUTPUT
            &&& visual == old(c)@.facts.visual_infos.visual
            &&& old(c)@.builder.monitor is None ==> value_mask == CW_BORDER_PIXEL | CW_EVENT_MASK
            &&& old(c)@.builder.monitor is Some ==> value_mask == CW_BORDER_PIXEL | CW_EVENT_MASK
                | CW_OVERRIDE_REDIRECT
            &&& attributes.colormap == colormap
            &&& attributes.event_mask == WINDOW_EVENT_MASK
            &&& attributes.border_pixel == 0
            &&& old(c)@.builder.monitor is None ==> attributes.override_redirect == 0
            &&& old(c)@.builder.monitor is Some ==> attributes.override_redirect == 1
        },
        old(c)@.builder.monitor is None ==> r.requests@.len() == 0,
        old(c)@.builder.monitor is Some ==> {
            &&& r.requests@.len() == 2
            &&& r.requests@[0] == (Request::<Vec<u8>>::SwitchToMode {
                screen: old(c)@.facts.screen_id,
                mode: old(c)@.facts.best_mode,
            })
            &&& r.requests@[1] == (Request::<Vec<u8>>::SetViewPort {
                screen: old(c)@.facts.screen_id,
                x: 0,
                y: 0,
            })
        },
        final(c)@.stage == CreationStage::Window,
        final(c)@.facts == old(c)@.facts,
{
    law_requests_are_seen(r.requests@);
    if old(c)@.builder.monitor is Some {
        assert(r.requests@[0]@ == requests_view(r.requests@)[0]);
        assert(r.requests@[1]@ == requests_view(r.requests@)[1]);
    }
}

/// The window is shown exactly where it is to be visible. Then the atom is asked for by which the
/// window manager asks for it to close.
pub proof fn law_window_is_shown(c: &mut Creation, made: u64, r: CreationStep)
    requires
        call_ensures(Creation::answer, (c, CreationReply::Resource(made)), r),
        old(c)@.stage == CreationStage::Window,
    ensures
        same_wishes(old(c)@, final(c)@),
        old(c)@.builder.visible ==> {
            &&& r.requests@.len() == 2
            &&& r.requests@[0] == Request::<Vec<u8>>::MapRaised(made)
            &&& r.requests@[1] == Request::<Vec<u8>>::Flush
        },
        !old(c)@.builder.visible ==> r.requests@.len() == 0,
        r.next matches CreationNext::Ask(CreationQuery::InternAtom { name, only_if_exists }) && {
            &&& name@.len() > 0
            &&& name@.last() == 0
            &&& name@.drop_last() == encode_utf8("WM_DELETE_WINDOW"@)
            &&& only_if_exists == 0
        },
        final(c)@.stage == CreationStage::DeleteAtom,
        final(c)@.facts == (Facts { window: made, ..old(c)@.facts }),
{
    law_requests_are_seen(r.requests@);
    if old(c)@.builder.visible {
        assert(r.requests@[0]@ == requests_view(r.requests@)[0]);
        assert(r.requests@[1]@ == requests_view(r.requests@)[1]);
    }
    lemma_c_bytes("WM_DELETE_WINDOW"@);
}

/// The window takes part in the protocol of that atom and gets the title that is asked for.
pub proof fn law_window_is_titled(c: &mut Creation, atom: u64, r: CreationStep)
    requires
        call_ensures(Creation::answer, (c, CreationReply::Resource(atom)), r),
        old(c)@.stage == CreationStage::DeleteAtom,
    ensures
        same_wishes(old(c)@, final(c)@),
        r.requests@.len() == 3,
        r.requests@[0] == (Request::<Vec<u8>>::SetWmProtocols {
            window: old(c)@.facts.window,
            protocol: atom,
        }),
        r.requests@[1] matches Request::StoreName { window, name } && {
            &&& window == old(c)@.facts.window
            &&& name@.len() > 0
            &&& name@.last() == 0
            &&& name@.drop_last() == encode_utf8(old(c)@.builder.title)
        },
        r.requests@[2] == Request::<Vec<u8>>::Flush,
        r.next == CreationNext::<CreationQuery, Window, CreationError>::Ask(
            CreationQuery::<Vec<u8>, Vec<i32>, String>::OpenIm,
        ),
        final(c)@.stage == CreationStage::InputMethod,
        final(c)@.facts == (Facts { wm_delete_window: atom, ..old(c)@.facts }),
{
    law_requests_are_seen(r.requests@);
    assert(r.requests@[0]@ == requests_view(r.requests@)[0]);
    assert(r.requests@[1]@ == requests_view(r.requests@)[1]);
    assert(r.requests@[2]@ == requests_view(r.requests@)[2]);
    lemma_c_bytes(old(c)@.builder.title);
}

/// An input context is made of the input method for the window; without a method there is no
/// window.
pub proof fn law_input_context_is_made(c: &mut Creation, method: usize, r: CreationStep)
    requires
        call_ensures(Creation::answer, (c, CreationReply::Address(method)), r),
        old(c)@.stage == CreationStage::InputMethod,
    ensures
        same_wishes(old(c)@, final(c)@),
        method == 0 ==> failed_with(r, final(c)@.stage, "XOpenIM failed"@),
        method != 0 ==> {
            &&& r.requests@.len() == 0
            &&& r.next matches CreationNext::Ask(
                CreationQuery::CreateIc { im, style_name, style, window_name, window },
            ) && {
                &&& im == method
                &&& style_name@.len() > 0 && style_name@.last() == 0
                &&& style_name@.drop_last() == encode_utf8("inputStyle"@)
                &&& style == INPUT_STYLE
                &&& window_name@.len() > 0 && window_name@.last() == 0
                &&& window_name@.drop_last() == encode_utf8("clientWindow"@)
                &&& window == old(c)@.facts.window
            }
            &&& final(c)@.stage == CreationStage::InputContext
            &&& final(c)@.facts == (Facts { im: method, ..old(c)@.facts })
        },
{
    law_requests_are_seen(r.requests@);
    lemma_c_bytes("inputStyle"@);
    lemma_c_bytes("clientWindow"@);
}

/// The input context gets the focus; without one there is no window.
pub proof fn law_input_context_is_focused(c: &mut Creation, context: usize, r: CreationStep)
    requires
        call_ensures(Creation::answer, (c, CreationReply::Address(context)), r),
        old(c)@.stage == CreationStage::InputContext,
    ensures
        same_wishes(old(c)@, final(c)@),
        context == 0 ==> failed_with(r, final(c)@.stage, "XCreateIC failed"@),
        context != 0 ==> {
            &&& r.requests@.len() == 1
            &&& r.requests@[0] == Request::<Vec<u8>>::SetIcFocus(context)
            &&& r.next matches CreationNext::Ask(
                CreationQuery::SetDetectableAutoRepeat { detectable },
            ) && detectable == 1
            &&& final(c)@.stage == CreationStage::AutoRepeat
            &&& final(c)@.facts == (Facts { ic: context, ..old(c)@.facts })
        },
{
    law_requests_are_seen(r.requests@);
    if context != 0 {
        assert(r.requests@[0]@ == requests_view(r.requests@)[0]);
    }
}

/// Where held keys cannot repeat without being released, there is no window.
pub proof fn law_repeat_is_needed(c: &mut Creation, supported: i32, r: CreationStep)
    requires
        call_ensures(Creation::answer, (c, CreationReply::Supported(supported)), r),
        old(c)@.stage == CreationStage::AutoRepeat,
    ensures
        same_wishes(old(c)@, final(c)@),
        supported == 0 ==> failed_with(
            r,
            final(c)@.stage,
            "XkbSetDetectableAutoRepeat failed"@,
        ),
        supported != 0 ==> {
            &&& r.requests@.len() == 0
            &&& r.next == CreationNext::<CreationQuery, Window, CreationError>::Ask(
                CreationQuery::<Vec<u8>, Vec<i32>, String>::AllocClassHint,
            )
            &&& final(c)@.stage == CreationStage::ClassHint
            &&& final(c)@.facts == old(c)@.facts
        },
{
    law_requests_are_seen(r.requests@);
}

/// The title is the window's name and class, and the hint is freed. Then the context is made by
/// the library for the interface that is asked for, from all that was asked for and from the
/// window; by GLX also from the configuration and its visual. Where there is no such library, there
/// is no window.
pub proof fn law_context_is_made(
    c: &mut Creation,
    given: usize,
    choice: ContextChoice,
    r: CreationStep,
)
    requires
        call_ensures(Creation::answer, (c, CreationReply::Address(given)), r),
        old(c)@.stage == CreationStage::ClassHint,
        call_ensures(
            context_choice,
            (old(c)@.builder.gl_version, old(c)@.display.glx, old(c)@.display.egl),
            choice,
        ),
    ensures
        same_wishes(old(c)@, final(c)@),
        r.requests@.len() == 2,
        r.requests@[0] matches Request::SetClassHint { window, hint, res_name, res_class } && {
            &&& window == old(c)@.facts.window
            &&& hint == given
            &&& res_name@.len() > 0 && res_name@.last() == 0
            &&& res_name@.drop_last() == encode_utf8(old(c)@.builder.title)
            &&& res_class@ == res_name@
        },
        r.requests@[1] == Request::<Vec<u8>>::Free(given),
        choice == ContextChoice::NotSupported ==> {
            &&& r.next == CreationNext::<CreationQuery, Window, CreationError>::Failed(
                CreationError::<String>::NotSupported,
            )
            &&& final(c)@.stage == CreationStage::Over
        },
        choice == ContextChoice::Glx ==> {
            &&& r.next matches CreationNext::Ask(
                CreationQuery::CreateGlxContext { builder, window, fb_config, visual_infos },
            ) && {
                &&& same_builder(builder, old(c)@.builder)
                &&& window == old(c)@.facts.window
                &&& fb_config == old(c)@.facts.fb_config
                &&& visual_infos == old(c)@.facts.visual_infos
            }
            &&& final(c)@.stage == CreationStage::GlxContext
        },
        choice == ContextChoice::Egl ==> {
            &&& r.next matches CreationNext::Ask(
                CreationQuery::CreateEglContext { builder, window },
            ) && same_builder(builder, old(c)@.builder) && window == old(c)@.facts.window
            &&& final(c)@.stage == CreationStage::EglContext
        },
        final(c)@.facts == old(c)@.facts,
{
    law_requests_are_seen(r.requests@);
    assert(r.requests@[0]@ == requests_view(r.requests@)[0]);
    assert(r.requests@[1]@ == requests_view(r.requests@)[1]);
    lemma_c_bytes(old(c)@.builder.title);
}

/// The context is there, by the library that was asked: then the window is there, and holds what
/// the server gave it, each under its own name. It is open, has no size yet, keeps nothing for
/// later and holds no pointer.
pub proof fn law_window_holds_what_was_given(c: &mut Creation, number: u64, r: CreationStep)
    requires
        call_ensures(Creation::answer, (c, CreationReply::Context(Ok(number))), r),
        old(c)@.stage == CreationStage::GlxContext || old(c)@.stage == CreationStage::EglContext,
    ensures
        r.requests@.len() == 0,
        final(c)@.stage == CreationStage::Over,
        r.next matches CreationNext::Done(window) && {
            let w = window@;
            &&& w.x.display == old(c)@.display
            &&& w.x.window == old(c)@.facts.window
            &&& w.x.context == (if old(c)@.stage == CreationStage::GlxContext {
                Context::Glx(number)
            } else {
                Context::Egl(number)
            })
            &&& w.x.is_fullscreen <==> old(c)@.builder.monitor is Some
            &&& w.x.screen_id == old(c)@.facts.screen_id
            &&& w.x.xf86_desk_mode == old(c)@.facts.desk_mode
            &&& w.x.ic == old(c)@.facts.ic
            &&& w.x.im == old(c)@.facts.im
            &&& w.wm_delete_window == old(c)@.facts.wm_delete_window
            &&& w.pixel_format == old(c)@.facts.pixel_format
            &&& !w.closed
            &&& w.size.0 == 0 && w.size.1 == 0
            &&& w.pending.len() == 0
            &&& w.cursor == CursorState::Normal
        },
{
    law_requests_are_seen(r.requests@);
}

/// Why no context could be made is why no window is there.
pub proof fn law_context_error_is_told(c: &mut Creation, error: CreationError, r: CreationStep)
    requires
        call_ensures(Creation::answer, (c, CreationReply::Context(Err(error))), r),
    ensures
        r.requests@.len() == 0,
        final(c)@.stage == CreationStage::Over,
        r.next matches CreationNext::Failed(told) && {
            &&& error is NotSupported <==> told is NotSupported
            &&& error matches CreationError::OsError(message) ==> told matches
                CreationError::OsError(same) && same@ == message@
        },
{
    law_requests_are_seen(r.requests@);
}

/// An answer is understood exactly where it is of the kind that was asked for and the making can
/// go on with it.
pub proof fn law_making_understands(c: &Creation, reply: CreationReply, r: bool)
    requires
        call_ensures(Creation::accepts, (c, &reply), r),
    ensures
        reply is Screen ==> (r <==> c@.stage is Screen || c@.stage is ConfigScreen),
        reply is FbConfigs ==> (r <==> c@.stage is FbConfig),
        reply matches CreationReply::ModeLines { status, modes } ==> (r <==> c@.stage is Modes && (
        status == 0 || modes@.len() > 0 || c@.builder.monitor is Some)),
        reply is Visual ==> (r <==> c@.stage is Visual),
        reply matches CreationReply::Attribute(value) ==> (r <==> match c@.stage {
            CreationStage::Red
            | CreationStage::Alpha
            | CreationStage::Depth
            | CreationStage::Stencil
            | CreationStage::Stereo
            | CreationStage::DoubleBuffer
            | CreationStage::SampleBuffers
            | CreationStage::Samples
            | CreationStage::Srgb => true,
            CreationStage::Green | CreationStage::Blue => attribute_fits(c@, value),
            _ => false,
        }),
        reply is Resource ==> (r <==> c@.stage is Root || c@.stage is Colormap || c@.stage is Window
            || (c@.stage is DeleteAtom && forall|i: int|
            0 <= i < c@.builder.title.len() ==> #[trigger] c@.builder.title[i] != '\0')),
        reply matches CreationReply::Address(address) ==> (r <==> c@.stage is InputMethod
            || c@.stage is InputContext || (c@.stage is ClassHint && address != 0)),
        reply is Supported ==> (r <==> c@.stage is AutoRepeat),
        reply is Context ==> (r <==> c@.stage is GlxContext || c@.stage is EglContext),
{
    if !r && c@.stage is DeleteAtom && reply is Resource {
        let i = choose|i: int| 0 <= i < c@.builder.title.len() && c@.builder.title[i] == '\0';
        assert(c@.builder.title[i] == '\0');
    }
}

/// A whole making that succeeds gives a window of what the server told: every number is the one
/// that was answered to its own question, the pixels are those of the configuration, and the screen
/// is the monitor's or the default one.
pub proof fn law_made_of_answers(
    display: XConnection,
    builder: BuilderAttribs<Seq<char>>,
    server: Server,
)
    requires
        creation_result(display, builder, server) is Ok,
    ensures
        ({
            let w = creation_result(display, builder, server)->Ok_0;
            &&& w.x.display == display
            &&& w.x.window == server.window
            &&& w.x.im == server.im
            &&& w.x.ic == server.ic
            &&& w.x.xf86_desk_mode == server.modes[0].mode
            &&& w.x.is_fullscreen <==> builder.monitor is Some
            &&& builder.monitor matches Some(PlatformMonitorID::X(number)) ==> w.x.screen_id
                == number as i32
            &&& !(builder.monitor matches Some(PlatformMonitorID::X(_))) ==> w.x.screen_id
                == server.screen
            &&& w.wm_delete_window == server.delete_atom
            &&& w.pixel_format.hardware_accelerated
            &&& 0 <= server.red && 0 <= server.green && 0 <= server.blue && server.red
                + server.green + server.blue <= 255 ==> w.pixel_format.color_bits == server.red
                + server.green + server.blue
            &&& w.pixel_format.alpha_bits == server.alpha as u8
            &&& w.pixel_format.depth_bits == server.depth as u8
            &&& w.pixel_format.stencil_bits == server.stencil as u8
            &&& w.pixel_format.stereoscopy <==> server.stereo != 0
            &&& w.pixel_format.double_buffer <==> server.double_buffer != 0
            &&& server.sample_buffers != 0 ==> w.pixel_format.multisampling == Some(
                server.samples as u16,
            )
            &&& server.sample_buffers == 0 ==> w.pixel_format.multisampling is None
            &&& w.pixel_format.srgb <==> server.srgb != 0
        }),
{
}

/// A making succeeds exactly where no answer is a failure, a mode is found where a monitor is to be
/// filled, the library for the interface is there, and the context was made.
pub proof fn law_made_exactly_when(
    display: XConnection,
    builder: BuilderAttribs<Seq<char>>,
    server: Server,
    size: (u32, u32),
    choice: ContextChoice,
)
    requires
        call_ensures(context_choice, (builder.gl_version, display.glx, display.egl), choice),
        size == (match builder.dimensions {
            Some(asked) => asked,
            None => (800u32, 600u32),
        }),
    ensures
        creation_result(display, builder, server) is Ok <==> {
            &&& server.config_list != 0
            &&& server.modes_status != 0
            &&& builder.monitor is None || exists|i: int|
                0 <= i < server.modes.len() && of_size(#[trigger] server.modes[i], size)
            &&& server.visual_info != 0
            &&& server.im != 0
            &&& server.ic != 0
            &&& server.auto_repeat != 0
            &&& choice != ContextChoice::NotSupported
            &&& server.context is Ok
        },
{
    law_best_mode_is_last(server.modes, size);
}

} // verus!
