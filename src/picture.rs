//! Picture buffers: one byte buffer per plane, sized from the format and the
//! dimensions of a parameter block.
use crate::colorspace::{
    csp_base, csp_supported, is_supported, plane_bytes, plane_bytes_fit, plane_count,
    plane_size_of, planes_of,
};
use crate::param::{Param, INVALID_ARGUMENT};
use vstd::prelude::*;

verus! {

/// Error text when plane storage cannot be had.
pub const ALLOCATION_FAILURE: &'static str = "Allocation Failure";

/// Mathematical model of a picture.
pub ghost struct PictureView {
    pub csp: usize,
    pub width: usize,
    pub height: usize,
    pub pts: i64,
    /// Byte size of each of the three planes; zero past the format's planes.
    pub plane_size: Seq<usize>,
    /// Contents of each of the three planes.
    pub planes: Seq<Seq<u8>>,
}

impl PictureView {
    /// Number of planes that hold data.
    pub open spec fn plane_count(self) -> nat {
        plane_count(csp_base(self.csp))
    }

    /// The geometry agrees with the format and dimensions.
    pub open spec fn wf(self) -> bool {
        &&& csp_supported(self.csp)
        &&& self.plane_size.len() == 3
        &&& self.planes.len() == 3
        &&& forall|i: int|
            0 <= i < 3 ==> #[trigger] self.plane_size[i] as nat == plane_bytes(
                self.csp,
                self.width as nat,
                self.height as nat,
                i,
            )
        &&& forall|i: int| 0 <= i < 3 ==> #[trigger] self.planes[i].len() == self.plane_size[i]
    }
}

/// `b` is `a` with, at most, the contents of plane `k` changed.
pub open spec fn same_except_plane(a: PictureView, b: PictureView, k: int) -> bool {
    &&& b.csp == a.csp
    &&& b.width == a.width
    &&& b.height == a.height
    &&& b.pts == a.pts
    &&& b.plane_size == a.plane_size
    &&& b.planes.len() == a.planes.len()
    &&& forall|i: int| 0 <= i < a.planes.len() && i != k ==> #[trigger] b.planes[i] == a.planes[i]
}

/// Whether a picture can be made for the given parameters: the format is
/// supported and every plane size fits in a `usize`.
pub open spec fn can_allocate(csp: usize, width: usize, height: usize) -> bool {
    &&& csp_supported(csp)
    &&& forall|i: int| 0 <= i < 3 ==> #[trigger] plane_bytes_fit(csp, width as nat, height as nat, i)
}

/// A raw picture, ready to be handed to an encoder.
#[derive(Debug)]
pub struct Picture {
    csp: usize,
    width: usize,
    height: usize,
    pts: i64,
    plane_size: [usize; 3],
    plane0: Vec<u8>,
    plane1: Vec<u8>,
    plane2: Vec<u8>,
}

impl View for Picture {
    type V = PictureView;

    closed spec fn view(&self) -> PictureView {
        PictureView {
            csp: self.csp,
            width: self.width,
            height: self.height,
            pts: self.pts,
            plane_size: self.plane_size@,
            planes: seq![self.plane0@, self.plane1@, self.plane2@],
        }
    }
}

impl Picture {
    /// Allocates a zeroed picture with the format and dimensions of `param`.
    /// Fails when the format is not supported or a plane size overflows.
    pub fn from_param(param: &Param) -> (r: Result<Picture, &'static str>)
        ensures
            r.is_ok() <==> can_allocate(param@.csp, param@.width, param@.height),
            r.is_err() ==> r.unwrap_err()@ == ALLOCATION_FAILURE@,
            r.is_ok() ==> {
                let p = r.unwrap()@;
                &&& p.wf()
                &&& p.csp == param@.csp
                &&& p.width == param@.width
                &&& p.height == param@.height
                &&& p.pts == 0
                &&& forall|i: int|
                    0 <= i < 3 ==> #[trigger] p.planes[i] == Seq::new(
                        p.plane_size[i] as nat,
                        |j: int| 0u8,
                    )
            },
    {
        let csp = param.csp();
        let width = param.width();
        let height = param.height();
        if !is_supported(csp) {
            return Err(ALLOCATION_FAILURE);
        }
        let s0 = match plane_size_of(csp, width, height, 0) {
            Some(s) => s,
            None => return Err(ALLOCATION_FAILURE),
        };
        let s1 = match plane_size_of(csp, width, height, 1) {
            Some(s) => s,
            None => return Err(ALLOCATION_FAILURE),
        };
        let s2 = match plane_size_of(csp, width, height, 2) {
            Some(s) => s,
            None => return Err(ALLOCATION_FAILURE),
        };
        assert(forall|i: int| 0 <= i < 3 ==> #[trigger] plane_bytes_fit(csp, width as nat, height as nat, i)) by {
            assert(plane_bytes_fit(csp, width as nat, height as nat, 0));
            assert(plane_bytes_fit(csp, width as nat, height as nat, 1));
            assert(plane_bytes_fit(csp, width as nat, height as nat, 2));
        }
        let p = Picture {
            csp,
            width,
            height,
            pts: 0,
            plane_size: [s0, s1, s2],
            plane0: vec![0u8; s0],
            plane1: vec![0u8; s1],
            plane2: vec![0u8; s2],
        };
        assert(p.plane0@ =~= Seq::new(s0 as nat, |j: int| 0u8));
        assert(p.plane1@ =~= Seq::new(s1 as nat, |j: int| 0u8));
        assert(p.plane2@ =~= Seq::new(s2 as nat, |j: int| 0u8));
        Ok(p)
    }

    /// Read view of plane `plane`, over exactly its byte size.
    /// Fails unless `plane` is below the format's plane count.
    pub fn as_slice(&self, plane: usize) -> (r: Result<&[u8], &'static str>)
        requires
            self@.wf(),
        ensures
            r.is_ok() <==> plane < self@.plane_count(),
            r.is_err() ==> r.unwrap_err()@ == INVALID_ARGUMENT@,
            r.is_ok() ==> r.unwrap()@ == self@.planes[plane as int] && r.unwrap()@.len()
                == self@.plane_size[plane as int],
    {
        let n = planes_of(self.csp % 256);
        if plane >= n {
            Err(INVALID_ARGUMENT)
        } else if plane == 0 {
            Ok(self.plane0.as_slice())
        } else if plane == 1 {
            Ok(self.plane1.as_slice())
        } else {
            Ok(self.plane2.as_slice())
        }
    }

    /// Write view of plane `plane`, over exactly its byte size.
    /// Fails unless `plane` is below the format's plane count; what is written
    /// through the view becomes the plane's contents.
    pub fn as_mut_slice(&mut self, plane: usize) -> (r: Result<&mut [u8], &'static str>)
        requires
            old(self)@.wf(),
        ensures
            r.is_ok() <==> plane < old(self)@.plane_count(),
            r.is_err() ==> r.unwrap_err()@ == INVALID_ARGUMENT@ && *final(self) == *old(self),
            match r {
                Ok(s) => {
                    &&& s@ == old(self)@.planes[plane as int]
                    &&& s@.len() == old(self)@.plane_size[plane as int]
                    &&& final(self)@.planes[plane as int] == final(s)@
                    &&& same_except_plane(old(self)@, final(self)@, plane as int)
                },
                Err(_) => true,
            },
    {
        let n = planes_of(self.csp % 256);
        if plane >= n {
            Err(INVALID_ARGUMENT)
        } else if plane == 0 {
            Ok(self.plane0.as_mut_slice())
        } else if plane == 1 {
            Ok(self.plane1.as_mut_slice())
        } else {
            Ok(self.plane2.as_mut_slice())
        }
    }
    /// The picture with its presentation timestamp set to `pts`.
    pub fn set_timestamp(self, pts: i64) -> (r: Picture)
        ensures
            r@ == (PictureView { pts, ..self@ }),
    {
        let mut r = self;
        r.pts = pts;
        r
    }

    /// The presentation timestamp.
    pub fn pts(&self) -> (r: i64)
        ensures
            r == self@.pts,
    {
        self.pts
    }

    /// The picture width.
    pub fn width(&self) -> (r: usize)
        ensures
            r == self@.width,
    {
        self.width
    }

    /// The picture height.
    pub fn height(&self) -> (r: usize)
        ensures
            r == self@.height,
    {
        self.height
    }

    /// The colorspace code.
    pub fn csp(&self) -> (r: usize)
        ensures
            r == self@.csp,
    {
        self.csp
    }
}

} // verus!
