//! The platform capture backend interface: what the facade needs from an
//! OS-specific capture implementation.

use vstd::prelude::*;

use crate::error::Error;
use crate::frame::RawFrame;
use crate::geometry::Display;

verus! {

/// One platform's capture primitives: enumerate the attached monitors,
/// designate the primary one, and grab a rectangle of the framebuffer.
///
/// A backend never surfaces a display of zero extent from enumeration, and a
/// successful grab always yields a well-formed raw frame of exactly the
/// requested size. Whether any call succeeds is the platform's business: a
/// display server may refuse or fail at any time.
pub trait Backend: Sized {
    /// Well-formedness of the backend's own state.
    spec fn inv(&self) -> bool;

    /// Queries the platform for all currently attached monitors, in the
    /// platform's reported order.
    fn enumerate(&self) -> (r: Result<Vec<Display>, Error>)
        requires
            self.inv(),
        ensures
            r matches Ok(list) ==> forall|i: int|
                0 <= i < list@.len() ==> (#[trigger] list@[i]).spec_width() > 0
                    && list@[i].spec_height() > 0,
    ;

    /// The monitor the platform designates as primary, queried afresh. An
    /// out-of-range error is the facade's to report, never the platform's.
    fn primary_display(&self) -> (r: Result<Display, Error>)
        requires
            self.inv(),
        ensures
            r matches Ok(d) ==> d.spec_width() > 0 && d.spec_height() > 0,
            r matches Err(e) ==> e != Error::IndexOutOfRange,
    ;

    /// Grabs the rectangle described by `display` as one raw frame. An
    /// out-of-range error is the facade's to report, never the platform's.
    fn grab(&self, display: &Display) -> (r: Result<RawFrame, Error>)
        requires
            self.inv(),
            display.spec_width() > 0,
            display.spec_height() > 0,
        ensures
            r matches Ok(f) ==> {
                &&& f.wf()
                &&& f.spec_width() == display.spec_width()
                &&& f.spec_height() == display.spec_height()
            },
            r matches Err(e) ==> e != Error::IndexOutOfRange,
    ;
}

} // verus!
