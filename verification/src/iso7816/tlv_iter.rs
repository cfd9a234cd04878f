//! A lazy, finite, non-restartable walk over a TLV-encoded byte sequence.

use vstd::prelude::*;
use vstd::slice::slice_to_vec;
use crate::iso7816::tlv::TaggedSlice;
use crate::iso7816::tlv::tlv_items;

verus! {

/// Decodes a flat byte sequence into TLV entries, one at a time.
#[derive(Debug)]
pub struct TlvIterator {
    data: Vec<u8>,
}

impl TlvIterator {
    /// The entries not yet handed out.
    pub closed spec fn items(self) -> Seq<(u8, Seq<u8>)> {
        tlv_items(self.data@)
    }

    pub fn new(data: &[u8]) -> (r: Self)
        ensures
            r.items() == tlv_items(data@),
    {
        TlvIterator { data: slice_to_vec(data) }
    }

    /// Decodes and removes the first remaining entry; fails exactly when no
    /// well-formed entry remains.
    pub fn next(&mut self) -> (r: Option<TaggedSlice>)
        ensures
            r is Some <==> old(self).items().len() > 0,
            r is Some ==> (r->Some_0.tag_spec(), r->Some_0.value_spec()) == old(self).items()[0]
                && final(self).items() == old(self).items().skip(1),
            r is None ==> final(self).items() == old(self).items(),
    {
        match TaggedSlice::next(self.data.as_slice()) {
            None => None,
            Some((entry, rest)) => {
                let rest_vec = slice_to_vec(rest);
                self.data = rest_vec;
                proof {
                    assert(old(self).items() == seq![(entry.tag_spec(), entry.value_spec())]
                        + self.items());
                    assert(old(self).items().skip(1) =~= self.items());
                }
                Some(entry)
            },
        }
    }

    /// Finds the first remaining entry carrying the given tag, consuming the
    /// iterator.
    #[verifier::loop_isolation(false)]
    pub fn get(self, tag: u8) -> (r: Option<TaggedSlice>)
        ensures
            (match r {
                Some(entry) => exists|i: int|
                    0 <= i < self.items().len() && #[trigger] self.items()[i].0 == tag
                        && entry.tag_spec() == tag && entry.value_spec() == self.items()[i].1 && (
                    forall|j: int| 0 <= j < i ==> #[trigger] self.items()[j].0 != tag),
                None => forall|i: int|
                    0 <= i < self.items().len() ==> #[trigger] self.items()[i].0 != tag,
            }),
    {
        let ghost orig = self.items();
        let mut it = self;
        let ghost mut k: int = 0;
        loop
            invariant
                0 <= k <= orig.len(),
                it.items() =~= orig.skip(k),
                forall|j: int| 0 <= j < k ==> #[trigger] orig[j].0 != tag,
            decreases orig.len() - k,
        {
            let entry = match it.next() {
                Some(entry) => entry,
                None => {
                    proof {
                        assert(orig.skip(k).len() == 0);
                        assert(k == orig.len());
                    }
                    return None;
                },
            };
            proof {
                assert(orig.skip(k)[0] == orig[k]);
                assert(orig.skip(k).skip(1) =~= orig.skip(k + 1));
            }
            if entry.tag() == tag {
                proof {
                    assert(0 <= k < orig.len() && orig[k].0 == tag && entry.tag_spec() == tag
                        && entry.value_spec() == orig[k].1 && (forall|j: int|
                        0 <= j < k ==> #[trigger] orig[j].0 != tag));
                }
                return Some(entry);
            }
            proof {
                k = k + 1;
            }
        }
    }
}

} // verus!
