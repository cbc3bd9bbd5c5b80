//! The encoder session's protocol. The engine is driven by the caller; each
//! method takes what the engine reported for one call and decides the result.
use crate::nal::{concat, views, NalData};
use crate::picture::Picture;
use vstd::prelude::*;

verus! {

/// Error text when the engine could not open a session.
pub const OUT_OF_MEMORY: &'static str = "Out of Memory";

/// Error text when the engine failed to emit the stream headers.
pub const HEADERS_FAILED: &'static str = "Encoding Headers Failed";

/// Error text when the engine failed to encode a frame.
pub const ENCODE_FAILED: &'static str = "Error encoding";

/// `n + 1`, saturating at `u64::MAX`.
pub open spec fn bump(n: u64) -> u64 {
    if n < u64::MAX {
        (n + 1) as u64
    } else {
        n
    }
}

/// Mathematical model of a session.
pub ghost struct EncoderView {
    /// Pictures the engine accepted.
    pub submitted: u64,
    /// Encoded frames handed back.
    pub emitted: u64,
    /// The engine's last reported count of frames it holds back.
    pub delayed: i32,
}

/// An open encoding session.
#[derive(Debug)]
pub struct Encoder {
    submitted: u64,
    emitted: u64,
    delayed: i32,
}

impl View for Encoder {
    type V = EncoderView;

    closed spec fn view(&self) -> EncoderView {
        EncoderView { submitted: self.submitted, emitted: self.emitted, delayed: self.delayed }
    }
}

fn saturating_bump(n: u64) -> (r: u64)
    ensures
        r == bump(n),
{
    if n < u64::MAX {
        n + 1
    } else {
        n
    }
}

impl Encoder {
    /// A new session, given whether the engine handed out a handle.
    pub fn open(handle_ok: bool) -> (r: Result<Encoder, &'static str>)
        ensures
            r.is_ok() <==> handle_ok,
            r.is_err() ==> r.unwrap_err()@ == OUT_OF_MEMORY@,
            r.is_ok() ==> r.unwrap()@ == (EncoderView { submitted: 0, emitted: 0, delayed: 0 }),
    {
        if handle_ok {
            Ok(Encoder { submitted: 0, emitted: 0, delayed: 0 })
        } else {
            Err(OUT_OF_MEMORY)
        }
    }

    /// The stream headers, from the engine's status and the NAL units it
    /// handed out: their payloads concatenated, or an error on a negative status.
    pub fn get_headers(&mut self, status: i32, nals: &Vec<Vec<u8>>) -> (r: Result<NalData, &'static str>)
        ensures
            *final(self) == *old(self),
            r.is_ok() <==> status >= 0,
            r.is_err() ==> r.unwrap_err()@ == HEADERS_FAILED@,
            r.is_ok() ==> r.unwrap()@ == concat(views(nals@)),
    {
        if status < 0 {
            Err(HEADERS_FAILED)
        } else {
            Ok(NalData::from_nals(nals))
        }
    }

    /// The outcome of one encode call, from the picture submitted (`None` to
    /// flush), the engine's status, the NAL units it handed out and the
    /// timestamps of the picture it returned. A negative status is an error;
    /// no NAL unit means the engine is holding frames back; otherwise the
    /// payloads come out concatenated with the returned timestamps.
    pub fn encode(
        &mut self,
        pic: Option<&Picture>,
        status: i32,
        nals: &Vec<Vec<u8>>,
        pts: i64,
        dts: i64,
    ) -> (r: Result<Option<(NalData, i64, i64)>, &'static str>)
        ensures
            r.is_err() <==> status < 0,
            r.is_err() ==> r.unwrap_err()@ == ENCODE_FAILED@ && *final(self) == *old(self),
            match r {
                Ok(None) => nals@.len() == 0,
                Ok(Some((data, p, d))) => {
                    &&& nals@.len() > 0
                    &&& data@ == concat(views(nals@))
                    &&& p == pts
                    &&& d == dts
                },
                Err(_) => true,
            },
            r.is_ok() ==> final(self)@ == (EncoderView {
                submitted: if pic.is_some() {
                    bump(old(self)@.submitted)
                } else {
                    old(self)@.submitted
                },
                emitted: if nals@.len() > 0 {
                    bump(old(self)@.emitted)
                } else {
                    old(self)@.emitted
                },
                ..old(self)@
            }),
    {
        if status < 0 {
            return Err(ENCODE_FAILED);
        }
        if pic.is_some() {
            self.submitted = saturating_bump(self.submitted);
        }
        if nals.len() > 0 {
            self.emitted = saturating_bump(self.emitted);
            Ok(Some((NalData::from_nals(nals), pts, dts)))
        } else {
            Ok(None)
        }
    }

    /// Records the engine's count of frames it still holds back.
    pub fn set_delayed(&mut self, count: i32)
        ensures
            final(self)@ == (EncoderView { delayed: count, ..old(self)@ }),
    {
        self.delayed = count;
    }

    /// Whether the engine still holds frames back, so a flush must go on.
    pub fn delayed_frames(&self) -> (r: bool)
        ensures
            r == (self@.delayed != 0),
    {
        self.delayed != 0
    }

    /// Pictures the engine accepted so far.
    pub fn submitted(&self) -> (r: u64)
        ensures
            r == self@.submitted,
    {
        self.submitted
    }

    /// Encoded frames handed back so far.
    pub fn emitted(&self) -> (r: u64)
        ensures
            r == self@.emitted,
    {
        self.emitted
    }
}

} // verus!
