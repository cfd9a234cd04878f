//! Tag-Length-Value decoding: one tag byte, one length byte, then that many
//! value bytes, repeated until the input runs out.

use vstd::prelude::*;
use vstd::slice::slice_subrange;
use vstd::slice::slice_index_get;
use vstd::slice::slice_to_vec;

verus! {

/// The sequence of TLV entries at the head of `data`. Decoding stops,
/// without error, as soon as fewer than two bytes remain or the declared
/// length would overrun the remaining bytes; a truncated trailing entry is
/// thereby dropped.
pub open spec fn tlv_items(data: Seq<u8>) -> Seq<(u8, Seq<u8>)>
    decreases data.len(),
{
    if data.len() < 2 {
        Seq::empty()
    } else {
        let len = data[1] as int;
        if data.len() < 2 + len {
            Seq::empty()
        } else {
            seq![(data[0], data.subrange(2, 2 + len))] + tlv_items(data.skip(2 + len))
        }
    }
}

/// One decoded TLV entry: a tag byte and its value bytes.
pub struct TaggedSlice {
    tag: u8,
    value: Vec<u8>,
}

impl TaggedSlice {
    /// The entry's tag byte.
    pub closed spec fn tag_spec(self) -> u8 {
        self.tag
    }

    /// The entry's value bytes.
    pub closed spec fn value_spec(self) -> Seq<u8> {
        self.value@
    }

    /// Decodes the first TLV entry of `slice` and returns it together with
    /// the undecoded remainder; fails when fewer than two bytes remain or
    /// the declared length overruns the slice.
    pub fn next<'a>(slice: &'a [u8]) -> (r: Option<(TaggedSlice, &'a [u8])>)
        ensures
            r is Some <==> (slice@.len() >= 2 && slice@.len() >= 2 + slice@[1]),
            r is Some ==> r->Some_0.0.tag_spec() == slice@[0] && r->Some_0.0.value_spec()
                == slice@.subrange(2, 2 + slice@[1]) && r->Some_0.1@ == slice@.skip(2 + slice@[1]),
            r is Some ==> tlv_items(slice@) == seq![
                (r->Some_0.0.tag_spec(), r->Some_0.0.value_spec()),
            ] + tlv_items(r->Some_0.1@),
            r is None ==> tlv_items(slice@) == Seq::<(u8, Seq<u8>)>::empty(),
    {
        if slice.len() < 2 {
            return None;
        }
        let tag = *slice_index_get(slice, 0);
        let length = *slice_index_get(slice, 1) as usize;
        if slice.len() < 2 + length {
            return None;
        }
        let value = slice_subrange(slice, 2, 2 + length);
        let rest = slice_subrange(slice, 2 + length, slice.len());
        Some((TaggedSlice { tag, value: slice_to_vec(value) }, rest))
    }

    /// Builds an entry directly from a tag and its value bytes.
    pub fn from(tag: u8, value: Vec<u8>) -> (r: Self)
        ensures
            r.tag_spec() == tag,
            r.value_spec() == value@,
    {
        TaggedSlice { tag, value }
    }

    /// The entry's tag byte.
    pub fn tag(&self) -> (r: u8)
        ensures
            r == self.tag_spec(),
    {
        self.tag
    }

    /// The entry's value bytes.
    pub fn value(&self) -> (r: &[u8])
        ensures
            r@ == self.value_spec(),
    {
        self.value.as_slice()
    }
}

} // verus!
