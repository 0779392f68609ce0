//! The capturer facade: the public capture interface, composed from a
//! platform backend and the pixel normalizer.

use vstd::prelude::*;

use crate::backend::Backend;
use crate::error::Error;
use crate::frame::normalize;
use crate::frame::RgbImage;
use crate::geometry::Display;

verus! {

/// The capability set every platform capturer implements identically:
/// construct once, list displays, capture by index, primary, custom region
/// or all at once, and refresh the display list on demand.
pub trait Capturer: Sized {
    /// The display list produced by the most recent successful enumeration.
    spec fn displays_seq(&self) -> Seq<Display>;

    /// Well-formedness of the capturer's state.
    spec fn wf(&self) -> bool;

    /// A well-formed capturer never stores a display of zero extent.
    proof fn wf_displays(&self)
        requires
            self.wf(),
        ensures
            forall|i: int|
                0 <= i < self.displays_seq().len() ==> (#[trigger] self.displays_seq()[i]).spec_width()
                    > 0 && self.displays_seq()[i].spec_height() > 0,
    ;

    /// Captures the display at position `index` of the current display list.
    /// An index at or beyond the list length — and only such an index — is
    /// refused with the out-of-range error; a successful capture is an image
    /// of exactly that display's size.
    fn capture(&self, index: usize) -> (r: Result<RgbImage, Error>)
        requires
            self.wf(),
        ensures
            index >= self.displays_seq().len() ==> r == Err::<RgbImage, Error>(
                Error::IndexOutOfRange,
            ),
            index < self.displays_seq().len() ==> r != Err::<RgbImage, Error>(
                Error::IndexOutOfRange,
            ),
            r matches Ok(img) ==> {
                &&& index < self.displays_seq().len()
                &&& img.wf()
                &&& img.spec_width() == self.displays_seq()[index as int].spec_width()
                &&& img.spec_height() == self.displays_seq()[index as int].spec_height()
            },
    ;

    /// Captures the platform-designated primary display, independent of the
    /// stored display list.
    fn capture_primary(&self) -> (r: Result<RgbImage, Error>)
        requires
            self.wf(),
        ensures
            r matches Ok(img) ==> img.wf() && img.spec_width() > 0 && img.spec_height() > 0,
    ;

    /// Captures every display of the current list, in list order. If any
    /// single capture fails the whole operation fails: no partial sequence
    /// is ever returned.
    fn capture_all(&self) -> (r: Result<Vec<RgbImage>, Error>)
        requires
            self.wf(),
        ensures
            r matches Ok(images) ==> {
                &&& images@.len() == self.displays_seq().len()
                &&& forall|i: int|
                    0 <= i < images@.len() ==> {
                        &&& (#[trigger] images@[i]).wf()
                        &&& images@[i].spec_width() == self.displays_seq()[i].spec_width()
                        &&& images@[i].spec_height() == self.displays_seq()[i].spec_height()
                    }
            },
    ;

    /// Captures exactly the rectangle described by the caller-supplied
    /// display, bypassing the stored list. A degenerate rectangle of zero
    /// width or height yields a defined-empty image of the requested
    /// dimensions with no pixel data.
    fn capture_custom(&self, display: Display) -> (r: Result<RgbImage, Error>)
        requires
            self.wf(),
        ensures
            display.spec_width() == 0 || display.spec_height() == 0 ==> {
                &&& r matches Ok(img)
                &&& img.spec_width() == display.spec_width()
                &&& img.spec_height() == display.spec_height()
                &&& img.spec_data().len() == 0
            },
            r matches Ok(img) ==> {
                &&& img.wf()
                &&& img.spec_width() == display.spec_width()
                &&& img.spec_height() == display.spec_height()
            },
    ;

    /// The display list of the most recent successful enumeration. Never
    /// triggers a new platform query.
    fn displays(&self) -> (r: &[Display])
        requires
            self.wf(),
        ensures
            r@ == self.displays_seq(),
    ;

    /// Re-runs platform enumeration and replaces the stored list wholesale.
    /// On failure the previously stored list is preserved unchanged.
    fn refresh_displays(&mut self) -> (r: Result<(), Error>)
        requires
            old(self).wf(),
        ensures
            final(self).wf(),
            r is Err ==> final(self).displays_seq() == old(self).displays_seq(),
    ;
}

/// A capturer built from a platform backend: it owns the backend connection
/// and the display list of the most recent successful enumeration, and runs
/// every raw capture result through the pixel normalizer.
pub struct DisplayCapturer<B: Backend> {
    backend: B,
    displays: Vec<Display>,
}

impl<B: Backend> DisplayCapturer<B> {
    /// Builds a capturer over `backend` by running the first enumeration;
    /// fails if that enumeration fails. On success the stored display list
    /// is a list that this backend's enumeration returned, verbatim.
    pub fn new(backend: B) -> (r: Result<DisplayCapturer<B>, Error>)
        requires
            backend.inv(),
        ensures
            r matches Ok(c) ==> c.wf() && c.spec_backend() == backend,
            r matches Ok(c) ==> exists|list: Vec<Display>|
                #[trigger] call_ensures(B::enumerate, (&backend,), Ok::<Vec<Display>, Error>(list))
                    && c.displays_seq() == list@,
            r matches Err(e) ==> call_ensures(
                B::enumerate,
                (&backend,),
                Err::<Vec<Display>, Error>(e),
            ),
    {
        match backend.enumerate() {
            Ok(displays) => Ok(DisplayCapturer { backend, displays }),
            Err(e) => Err(e),
        }
    }

    /// Builds a capturer over `backend` with a caller-supplied display list
    /// instead of an initial enumeration; refuses a list that holds a
    /// display of zero extent.
    pub fn from_parts(backend: B, displays: Vec<Display>) -> (r: Option<DisplayCapturer<B>>)
        requires
            backend.inv(),
        ensures
            r matches Some(c) ==> c.wf() && c.displays_seq() == displays@,
            r is Some <==> forall|i: int|
                0 <= i < displays@.len() ==> (#[trigger] displays@[i]).spec_width() > 0
                    && displays@[i].spec_height() > 0,
    {
        let mut i: usize = 0;
        let n = displays.len();
        while i < n
            invariant
                i <= n,
                n == displays@.len(),
                forall|j: int|
                    0 <= j < i ==> (#[trigger] displays@[j]).spec_width() > 0
                        && displays@[j].spec_height() > 0,
            decreases n - i,
        {
            if displays[i].width() == 0 || displays[i].height() == 0 {
                return None;
            }
            i = i + 1;
        }
        Some(DisplayCapturer { backend, displays })
    }
}

impl<B: Backend> DisplayCapturer<B> {
    /// The owned backend, as a specification-level value.
    pub closed spec fn spec_backend(&self) -> B {
        self.backend
    }
}

impl<B: Backend> Capturer for DisplayCapturer<B> {
    closed spec fn displays_seq(&self) -> Seq<Display> {
        self.displays@
    }

    closed spec fn wf(&self) -> bool {
        &&& self.backend.inv()
        &&& forall|i: int|
            0 <= i < self.displays@.len() ==> (#[trigger] self.displays@[i]).spec_width() > 0
                && self.displays@[i].spec_height() > 0
    }

    proof fn wf_displays(&self) {
    }

    fn capture(&self, index: usize) -> (r: Result<RgbImage, Error>) {
        if index >= self.displays.len() {
            return Err(Error::IndexOutOfRange);
        }
        let d = self.displays[index];
        match self.backend.grab(&d) {
            Ok(f) => Ok(normalize(&f)),
            Err(e) => Err(e),
        }
    }

    fn capture_primary(&self) -> (r: Result<RgbImage, Error>)
        // Beyond the trait's contract: a successful image has exactly the
        // dimensions of a display that this backend designated as primary.
        ensures
            r matches Ok(img) ==> exists|d: Display|
                #[trigger] call_ensures(
                    B::primary_display,
                    (&self.spec_backend(),),
                    Ok::<Display, Error>(d),
                ) && img.spec_width() == d.spec_width() && img.spec_height() == d.spec_height(),
    {
        match self.backend.primary_display() {
            Ok(d) => match self.backend.grab(&d) {
                Ok(f) => {
                    let img = normalize(&f);
                    proof {
                        assert(call_ensures(
                            B::primary_display,
                            (&self.spec_backend(),),
                            Ok::<Display, Error>(d),
                        ));
                    }
                    Ok(img)
                },
                Err(e) => Err(e),
            },
            Err(e) => Err(e),
        }
    }

    #[verifier::loop_isolation(false)]
    fn capture_all(&self) -> (r: Result<Vec<RgbImage>, Error>) {
        let mut images: Vec<RgbImage> = Vec::new();
        let n = self.displays.len();
        let mut i: usize = 0;
        while i < n
            invariant
                i <= n,
                images@.len() == i,
                forall|j: int|
                    0 <= j < i ==> {
                        &&& (#[trigger] images@[j]).wf()
                        &&& images@[j].spec_width() == self.displays@[j].spec_width()
                        &&& images@[j].spec_height() == self.displays@[j].spec_height()
                    },
            decreases n - i,
        {
            let d = self.displays[i];
            match self.backend.grab(&d) {
                Ok(f) => {
                    let img = normalize(&f);
                    images.push(img);
                },
                Err(e) => {
                    return Err(e);
                },
            }
            i = i + 1;
        }
        Ok(images)
    }

    fn capture_custom(&self, display: Display) -> (r: Result<RgbImage, Error>) {
        if display.width() == 0 || display.height() == 0 {
            proof {
                assert(3 * (display.spec_width() as u32) * (display.spec_height() as u32) == 0)
                    by (nonlinear_arith)
                    requires
                        display.spec_width() == 0 || display.spec_height() == 0,
                ;
            }
            return Ok(RgbImage::from_parts(
                display.width() as u32,
                display.height() as u32,
                Vec::new(),
            ));
        }
        match self.backend.grab(&display) {
            Ok(f) => Ok(normalize(&f)),
            Err(e) => Err(e),
        }
    }

    fn displays(&self) -> (r: &[Display]) {
        self.displays.as_slice()
    }

    fn refresh_displays(&mut self) -> (r: Result<(), Error>)
        // Beyond the trait's contract: only the display list changes, and on
        // success the stored list is a list that this backend's enumeration
        // returned, verbatim and wholesale.
        ensures
            final(self).spec_backend() == old(self).spec_backend(),
            r is Ok ==> exists|list: Vec<Display>|
                #[trigger] call_ensures(
                    B::enumerate,
                    (&old(self).spec_backend(),),
                    Ok::<Vec<Display>, Error>(list),
                ) && final(self).displays_seq() == list@,
    {
        match self.backend.enumerate() {
            Ok(displays) => {
                let ghost wit = displays;
                self.displays = displays;
                proof {
                    assert(call_ensures(
                        B::enumerate,
                        (&old(self).spec_backend(),),
                        Ok::<Vec<Display>, Error>(wit),
                    ));
                    assert(final(self).displays_seq() == wit@);
                }
                Ok(())
            },
            Err(e) => Err(e),
        }
    }
}

} // verus!
