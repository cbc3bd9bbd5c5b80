//! Owned copies of the NAL units an engine call hands out.
use vstd::prelude::*;

verus! {

/// The payloads of `nals`, concatenated in order with no delimiter.
pub open spec fn concat(nals: Seq<Seq<u8>>) -> Seq<u8>
    decreases nals.len(),
{
    if nals.len() == 0 {
        Seq::empty()
    } else {
        concat(nals.drop_last()) + nals.last()
    }
}

/// The views of a vector of byte vectors.
pub open spec fn views(nals: Seq<Vec<u8>>) -> Seq<Seq<u8>> {
    nals.map_values(|v: Vec<u8>| v@)
}

/// A self-contained copy of the payloads of one engine call.
#[derive(Debug)]
pub struct NalData {
    vec: Vec<u8>,
}

impl View for NalData {
    type V = Seq<u8>;

    closed spec fn view(&self) -> Seq<u8> {
        self.vec@
    }
}

impl NalData {
    /// Copies the payloads, in order, into one buffer.
    pub fn from_nals(nals: &Vec<Vec<u8>>) -> (r: NalData)
        ensures
            r@ == concat(views(nals@)),
    {
        let mut vec: Vec<u8> = Vec::new();
        let mut i: usize = 0;
        while i < nals.len()
            invariant
                i <= nals@.len(),
                vec@ == concat(views(nals@).take(i as int)),
            decreases nals@.len() - i,
        {
            let nal = &nals[i];
            let ghost start = vec@;
            let mut j: usize = 0;
            while j < nal.len()
                invariant
                    j <= nal@.len(),
                    nal@ == nals@[i as int]@,
                    vec@ == start + nal@.take(j as int),
                decreases nal@.len() - j,
            {
                vec.push(nal[j]);
                assert(vec@ =~= start + nal@.take(j as int + 1));
                j = j + 1;
            }
            proof {
                let taken = views(nals@).take(i as int + 1);
                assert(taken.drop_last() =~= views(nals@).take(i as int));
                assert(nal@.take(j as int) =~= nal@);
            }
            i = i + 1;
        }
        assert(views(nals@).take(i as int) =~= views(nals@));
        NalData { vec }
    }

    /// The concatenated payload.
    pub fn as_bytes(&self) -> (r: &[u8])
        ensures
            r@ == self@,
    {
        self.vec.as_slice()
    }
}

} // verus!
