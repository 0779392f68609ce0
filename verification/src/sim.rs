//! A simulated capture backend: a scripted stand-in for a display server,
//! answering enumeration and grab requests from fixed data and failing on
//! demand. It drives the facade through every code path that a live display
//! server cannot be forced into on demand.

use vstd::prelude::*;

use crate::backend::Backend;
use crate::error::Error;
use crate::frame::RawFrame;
use crate::geometry::Display;

verus! {

/// Holds when `i` is the position of the first display of `s` equal to `d`.
pub open spec fn first_match(s: Seq<Display>, d: Display, i: int) -> bool {
    &&& 0 <= i < s.len()
    &&& s[i] == d
    &&& forall|j: int| 0 <= j < i ==> s[j] != d
}

/// The consistency conditions of a simulated backend: one scripted frame and
/// one failure flag per display, a primary index inside the list whenever
/// the list is non-empty, every display of positive extent, and every frame
/// well-formed and of its display's size.
pub open spec fn consistent(
    displays: Seq<Display>,
    frames: Seq<RawFrame>,
    fail_grab: Seq<bool>,
    primary: int,
) -> bool {
    &&& frames.len() == displays.len()
    &&& fail_grab.len() == displays.len()
    &&& displays.len() > 0 ==> 0 <= primary < displays.len()
    &&& forall|i: int|
        0 <= i < displays.len() ==> {
            &&& (#[trigger] displays[i]).spec_width() > 0
            &&& displays[i].spec_height() > 0
            &&& frames[i].wf()
            &&& frames[i].spec_width() == displays[i].spec_width()
            &&& frames[i].spec_height() == displays[i].spec_height()
        }
}

/// A scripted backend: it reports `displays` on enumeration (or refuses, if
/// told to), designates `displays[primary]` as primary, and answers a grab
/// of the `i`-th display with a copy of `frames[i]` — or with a failure,
/// where the matching flag of `fail_grab` is set. A grab of a rectangle not
/// in the list fails like a capture of a vanished display would.
pub struct SimBackend {
    displays: Vec<Display>,
    frames: Vec<RawFrame>,
    fail_grab: Vec<bool>,
    fail_enumerate: bool,
    primary: usize,
}

impl SimBackend {
    /// The scripted display list.
    pub closed spec fn spec_displays(&self) -> Seq<Display> {
        self.displays@
    }

    /// The scripted frames, one per display.
    pub closed spec fn spec_frames(&self) -> Seq<RawFrame> {
        self.frames@
    }

    /// The scripted grab failures, one flag per display.
    pub closed spec fn spec_fail_grab(&self) -> Seq<bool> {
        self.fail_grab@
    }

    /// Whether enumeration is scripted to fail.
    pub closed spec fn spec_fail_enumerate(&self) -> bool {
        self.fail_enumerate
    }

    /// The scripted primary index.
    pub closed spec fn spec_primary(&self) -> int {
        self.primary as int
    }

    /// Builds a simulated backend, accepting exactly the consistent
    /// combinations of script data.
    pub fn new(
        displays: Vec<Display>,
        frames: Vec<RawFrame>,
        fail_grab: Vec<bool>,
        fail_enumerate: bool,
        primary: usize,
    ) -> (r: Option<SimBackend>)
        ensures
            r is Some <==> consistent(displays@, frames@, fail_grab@, primary as int),
            r matches Some(s) ==> {
                &&& s.inv()
                &&& s.spec_displays() == displays@
                &&& s.spec_frames() == frames@
                &&& s.spec_fail_grab() == fail_grab@
                &&& s.spec_fail_enumerate() == fail_enumerate
                &&& s.spec_primary() == primary as int
            },
    {
        let n = displays.len();
        if frames.len() != n || fail_grab.len() != n {
            return None;
        }
        if n > 0 && primary >= n {
            return None;
        }
        let mut i: usize = 0;
        while i < n
            invariant
                i <= n,
                n == displays@.len(),
                n == frames@.len(),
                forall|j: int|
                    0 <= j < i ==> {
                        &&& (#[trigger] displays@[j]).spec_width() > 0
                        &&& displays@[j].spec_height() > 0
                        &&& frames@[j].wf()
                        &&& frames@[j].spec_width() == displays@[j].spec_width()
                        &&& frames@[j].spec_height() == displays@[j].spec_height()
                    },
            decreases n - i,
        {
            if displays[i].width() == 0 || displays[i].height() == 0 {
                return None;
            }
            if !frames[i].is_wf() {
                return None;
            }
            if frames[i].width() != displays[i].width() || frames[i].height() != displays[i].height()
            {
                return None;
            }
            i = i + 1;
        }
        Some(SimBackend { displays, frames, fail_grab, fail_enumerate, primary })
    }
}

/// Copies a display list element by element.
fn copy_displays(v: &Vec<Display>) -> (r: Vec<Display>)
    ensures
        r@ == v@,
{
    let mut out: Vec<Display> = Vec::new();
    let n = v.len();
    let mut i: usize = 0;
    while i < n
        invariant
            i <= n,
            n == v@.len(),
            out@ =~= v@.subrange(0, i as int),
        decreases n - i,
    {
        out.push(v[i]);
        proof {
            assert(out@ =~= v@.subrange(0, i + 1));
        }
        i = i + 1;
    }
    proof {
        assert(out@ =~= v@);
    }
    out
}

impl Backend for SimBackend {
    closed spec fn inv(&self) -> bool {
        consistent(self.displays@, self.frames@, self.fail_grab@, self.primary as int)
    }

    fn enumerate(&self) -> (r: Result<Vec<Display>, Error>)
        ensures
            self.spec_fail_enumerate() ==> r == Err::<Vec<Display>, Error>(
                Error::EnumerationFailed,
            ),
            !self.spec_fail_enumerate() ==> (r matches Ok(list) && list@ == self.spec_displays()),
    {
        if self.fail_enumerate {
            return Err(Error::EnumerationFailed);
        }
        Ok(copy_displays(&self.displays))
    }

    fn primary_display(&self) -> (r: Result<Display, Error>)
        ensures
            self.spec_fail_enumerate() || self.spec_displays().len() == 0 ==> r == Err::<
                Display,
                Error,
            >(Error::EnumerationFailed),
            !self.spec_fail_enumerate() && self.spec_displays().len() > 0 ==> r == Ok::<
                Display,
                Error,
            >(self.spec_displays()[self.spec_primary()]),
    {
        if self.fail_enumerate || self.displays.len() == 0 {
            return Err(Error::EnumerationFailed);
        }
        Ok(self.displays[self.primary])
    }

    #[verifier::loop_isolation(false)]
    fn grab(&self, display: &Display) -> (r: Result<RawFrame, Error>)
        ensures
            r is Err ==> r == Err::<RawFrame, Error>(Error::CaptureFailed),
            (forall|i: int|
                0 <= i < self.spec_displays().len() ==> self.spec_displays()[i]
                    != *display) ==> r is Err,
            forall|i: int|
                #[trigger] first_match(self.spec_displays(), *display, i) ==> (r is Ok
                    <==> !self.spec_fail_grab()[i]),
            r matches Ok(f) ==> forall|i: int|
                #[trigger] first_match(self.spec_displays(), *display, i) ==> {
                    &&& f.spec_width() == self.spec_frames()[i].spec_width()
                    &&& f.spec_height() == self.spec_frames()[i].spec_height()
                    &&& f.spec_stride() == self.spec_frames()[i].spec_stride()
                    &&& f.spec_data() == self.spec_frames()[i].spec_data()
                },
    {
        let n = self.displays.len();
        let mut i: usize = 0;
        while i < n
            invariant
                i <= n,
                n == self.displays@.len(),
                forall|j: int| 0 <= j < i ==> self.displays@[j] != *display,
            decreases n - i,
        {
            if self.displays[i] == *display {
                proof {
                    assert(first_match(self.spec_displays(), *display, i as int));
                    assert forall|k: int|
                        #[trigger] first_match(self.spec_displays(), *display, k) implies k
                        == i as int by {
                        if k < i as int {
                            assert(self.displays@[k] != *display);
                        } else if k > i as int {
                            assert(self.displays@[i as int] != *display);
                        }
                    }
                }
                if self.fail_grab[i] {
                    return Err(Error::CaptureFailed);
                }
                return Ok(self.frames[i].duplicate());
            }
            i = i + 1;
        }
        Err(Error::CaptureFailed)
    }
}

} // verus!
