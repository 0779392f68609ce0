//! The X11 capture backend: display enumeration over the RandR extension
//! and framebuffer grabs over the core GetImage request, both through a live
//! connection to the display server.

use vstd::prelude::*;
use x11rb::connection::Connection;

use crate::backend::Backend;
use crate::capturer::Capturer;
use crate::capturer::DisplayCapturer;
use crate::error::Error;
use crate::frame::RawFrame;
use crate::geometry::Display;

verus! {

/// The live server connection together with the preferred screen's root
/// window. Opaque to the verifier: it only carries the handle between the
/// trusted calls below, which are the sole readers of its fields.
#[verifier::external_body]
struct ServerHandle {
    conn: x11rb::rust_connection::RustConnection,
    root: u32,
}

/// Relies on x11rb::connect and Connection::setup: opens a connection to
/// the display server the environment selects and resolves the preferred
/// screen's root window. Nothing is promised of the outcome: whether a
/// server answers is the environment's business.
#[verifier::external_body]
fn connect_server() -> (r: Option<ServerHandle>)
{
    let (conn, screen) = x11rb::connect(None).ok()?;
    let root = conn.setup().roots.get(screen)?.root;
    Some(ServerHandle { conn, root })
}

/// Relies on randr::get_monitors (request and reply): the monitors attached
/// to the root window, each reported as position, size and primary flag, in
/// the server's order. Nothing is promised of the outcome: the monitor
/// layout is the server's business.
#[verifier::external_body]
fn monitor_rects(handle: &ServerHandle) -> (r: Option<Vec<(i16, i16, u16, u16, bool)>>)
{
    let reply = x11rb::protocol::randr::get_monitors(&handle.conn, handle.root, true)
        .ok()?
        .reply()
        .ok()?;
    Some(reply.monitors.iter().map(|m| (m.x, m.y, m.width, m.height, m.primary)).collect())
}

/// Relies on xproto::get_image (request and reply): the raw bytes of the
/// requested rectangle of the root window, in the server's ZPixmap layout.
/// Nothing is promised of the outcome or the byte count: both are the
/// server's business, and the caller validates the buffer's shape.
#[verifier::external_body]
fn grab_rect(handle: &ServerHandle, x: i16, y: i16, width: u16, height: u16) -> (r: Option<
    Vec<u8>,
>)
{
    let reply = x11rb::protocol::xproto::get_image(
        &handle.conn,
        x11rb::protocol::xproto::ImageFormat::Z_PIXMAP,
        handle.root,
        x,
        y,
        width,
        height,
        u32::MAX,
    ).ok()?.reply().ok()?;
    Some(reply.data)
}

/// The display list that a reported monitor list maps to: the server's
/// order is kept, each rectangle `(x, y, width, height, primary)` becomes
/// the display with top `y` and left `x`, and monitors of zero extent are
/// dropped, never surfaced.
pub open spec fn spec_displays_of(rects: Seq<(i16, i16, u16, u16, bool)>) -> Seq<Display>
    decreases rects.len(),
{
    if rects.len() == 0 {
        Seq::empty()
    } else {
        let rest = spec_displays_of(rects.drop_last());
        let r = rects.last();
        if r.2 > 0 && r.3 > 0 {
            rest.push(Display::spec_new(r.1, r.0, r.2, r.3))
        } else {
            rest
        }
    }
}

/// The first reported monitor of positive extent — among the
/// primary-flagged ones only, when `flagged_only` — as the display it
/// describes.
pub open spec fn spec_first_extent(
    rects: Seq<(i16, i16, u16, u16, bool)>,
    flagged_only: bool,
) -> Option<Display>
    decreases rects.len(),
{
    if rects.len() == 0 {
        None
    } else {
        let r = rects[0];
        if (r.4 || !flagged_only) && r.2 > 0 && r.3 > 0 {
            Some(Display::spec_new(r.1, r.0, r.2, r.3))
        } else {
            spec_first_extent(rects.subrange(1, rects.len() as int), flagged_only)
        }
    }
}

/// The display a reported monitor list designates as primary: the first
/// primary-flagged monitor of positive extent, else the first monitor of
/// positive extent, else none.
pub open spec fn spec_primary_of(rects: Seq<(i16, i16, u16, u16, bool)>) -> Option<Display> {
    if spec_first_extent(rects, true) is Some {
        spec_first_extent(rects, true)
    } else {
        spec_first_extent(rects, false)
    }
}

/// Converts a reported monitor list to the display list it describes:
/// order kept, zero-extent monitors dropped, position and size taken
/// verbatim.
pub fn displays_of(rects: &Vec<(i16, i16, u16, u16, bool)>) -> (out: Vec<Display>)
    ensures
        out@ == spec_displays_of(rects@),
        forall|j: int|
            0 <= j < out@.len() ==> (#[trigger] out@[j]).spec_width() > 0 && out@[j].spec_height()
                > 0,
{
    let mut out: Vec<Display> = Vec::new();
    let n = rects.len();
    let mut i: usize = 0;
    while i < n
        invariant
            i <= n,
            n == rects@.len(),
            out@ == spec_displays_of(rects@.subrange(0, i as int)),
            forall|j: int|
                0 <= j < out@.len() ==> (#[trigger] out@[j]).spec_width() > 0
                    && out@[j].spec_height() > 0,
        decreases n - i,
    {
        let (x, y, w, h, _primary) = rects[i];
        if w > 0 && h > 0 {
            out.push(Display::new(y, x, w, h));
        }
        proof {
            assert(rects@.subrange(0, i + 1).drop_last() =~= rects@.subrange(0, i as int));
            assert(rects@.subrange(0, i + 1).last() == rects@[i as int]);
        }
        i = i + 1;
    }
    proof {
        assert(rects@.subrange(0, n as int) =~= rects@);
    }
    out
}

/// The first reported monitor of positive extent — among the
/// primary-flagged ones only, when `flagged_only` — as a display.
fn first_extent(rects: &Vec<(i16, i16, u16, u16, bool)>, flagged_only: bool) -> (r: Option<
    Display,
>)
    ensures
        r == spec_first_extent(rects@, flagged_only),
        r matches Some(d) ==> d.spec_width() > 0 && d.spec_height() > 0,
{
    let n = rects.len();
    proof {
        assert(rects@.subrange(0, n as int) =~= rects@);
    }
    let mut i: usize = 0;
    while i < n
        invariant
            i <= n,
            n == rects@.len(),
            spec_first_extent(rects@.subrange(i as int, n as int), flagged_only)
                == spec_first_extent(rects@, flagged_only),
        decreases n - i,
    {
        let (x, y, w, h, p) = rects[i];
        proof {
            assert(rects@.subrange(i as int, n as int)[0] == rects@[i as int]);
            assert(rects@.subrange(i as int, n as int).subrange(
                1,
                (n - i) as int,
            ) =~= rects@.subrange(i + 1, n as int));
        }
        if (p || !flagged_only) && w > 0 && h > 0 {
            return Some(Display::new(y, x, w, h));
        }
        i = i + 1;
    }
    proof {
        assert(rects@.subrange(n as int, n as int) =~= Seq::<(i16, i16, u16, u16, bool)>::empty());
    }
    None
}

/// Selects the primary display of a reported monitor list: the first
/// primary-flagged monitor of positive extent, else the first of positive
/// extent; none exactly when no monitor has positive extent.
pub fn primary_of(rects: &Vec<(i16, i16, u16, u16, bool)>) -> (r: Option<Display>)
    ensures
        r == spec_primary_of(rects@),
        r matches Some(d) ==> d.spec_width() > 0 && d.spec_height() > 0,
{
    match first_extent(rects, true) {
        Some(d) => Some(d),
        None => first_extent(rects, false),
    }
}

/// The live X11 backend: it owns the server connection opened at
/// initialization, released again when the backend is dropped.
pub struct X11Backend {
    handle: ServerHandle,
}

impl X11Backend {
    /// Connects to the display server and resolves the preferred screen's
    /// root window; fails when the server is unreachable or reports no such
    /// screen.
    pub fn new() -> (r: Result<X11Backend, Error>)
        ensures
            r matches Ok(b) ==> b.inv(),
    {
        match connect_server() {
            Some(handle) => Ok(X11Backend { handle }),
            None => Err(Error::SubsystemUnreachable),
        }
    }
}

impl Backend for X11Backend {
    open spec fn inv(&self) -> bool {
        true
    }

    fn enumerate(&self) -> (r: Result<Vec<Display>, Error>) {
        match monitor_rects(&self.handle) {
            Some(rects) => Ok(displays_of(&rects)),
            None => Err(Error::EnumerationFailed),
        }
    }

    fn primary_display(&self) -> (r: Result<Display, Error>) {
        match monitor_rects(&self.handle) {
            Some(rects) => match primary_of(&rects) {
                Some(d) => Ok(d),
                None => Err(Error::EnumerationFailed),
            },
            None => Err(Error::EnumerationFailed),
        }
    }

    fn grab(&self, display: &Display) -> (r: Result<RawFrame, Error>) {
        let w = display.width();
        let h = display.height();
        match grab_rect(&self.handle, display.left(), display.top(), w, h) {
            Some(data) => {
                // The server pads each row to its scanline unit; the row
                // length is not in the reply, so recover it from the buffer
                // size and let the frame constructor check the shape.
                let rows: usize = h as usize;
                let len: usize = data.len();
                if len % rows != 0 {
                    return Err(Error::CaptureFailed);
                }
                let stride: usize = len / rows;
                match RawFrame::new(w, h, stride, data) {
                    Some(f) => Ok(f),
                    None => Err(Error::CaptureFailed),
                }
            },
            None => Err(Error::CaptureFailed),
        }
    }
}

/// Builds the platform capturer: connects to the display server and runs the
/// first display enumeration; fails if either step fails. On success the
/// stored display list is a list that the backend's enumeration returned,
/// verbatim.
pub fn init_capturer() -> (r: Result<DisplayCapturer<X11Backend>, Error>)
    ensures
        r matches Ok(c) ==> c.wf(),
        r matches Ok(c) ==> exists|list: Vec<Display>|
            #[trigger] call_ensures(
                <X11Backend as Backend>::enumerate,
                (&c.spec_backend(),),
                Ok::<Vec<Display>, Error>(list),
            ) && c.displays_seq() == list@,
{
    match X11Backend::new() {
        Ok(b) => DisplayCapturer::new(b),
        Err(e) => Err(e),
    }
}

} // verus!
