//! A list of strings handed to libcurl, such as the HTTP headers of a
//! request or the cookies that libcurl knows.

use vstd::prelude::*;
use vstd::string::StringSliceAdditionalSpecFns;

use crate::error::Error;
use crate::sys::CURLE_CONV_FAILED;

verus! {

/// True when `bytes` holds a NUL byte, so that it cannot travel as a C string.
pub open spec fn has_nul(bytes: Seq<u8>) -> bool {
    exists|i: int| 0 <= i < bytes.len() && bytes[i] == 0
}

/// True when no entry of `entries` holds a NUL byte.
pub open spec fn all_c_strings(entries: Seq<Seq<u8>>) -> bool {
    forall|i: int| 0 <= i < entries.len() ==> !has_nul(#[trigger] entries[i])
}

/// Tells whether `bytes` holds a NUL byte.
pub fn contains_nul(bytes: &[u8]) -> (r: bool)
    ensures
        r == has_nul(bytes@),
{
    let mut i: usize = 0;
    while i < bytes.len()
        invariant
            i <= bytes@.len(),
            forall|j: int| 0 <= j < i ==> bytes@[j] != 0,
        decreases bytes@.len() - i,
    {
        if bytes[i] == 0 {
            return true;
        }
        i = i + 1;
    }
    false
}

/// A linked list of strings, as libcurl's `curl_slist` holds them.
///
/// Every entry is a C string: none holds a NUL byte.
#[derive(Debug, PartialEq, Eq)]
pub struct List {
    entries: Vec<Vec<u8>>,
}

impl View for List {
    type V = Seq<Seq<u8>>;

    closed spec fn view(&self) -> Seq<Seq<u8>> {
        self.entries@.map_values(|e: Vec<u8>| e@)
    }
}

impl List {
    #[verifier::type_invariant]
    closed spec fn entries_are_c_strings(self) -> bool {
        all_c_strings(self@)
    }

    /// Creates an empty list.
    pub fn new() -> (l: List)
        ensures
            l@ == Seq::<Seq<u8>>::empty(),
    {
        let l = List { entries: Vec::new() };
        assert(l@ =~= Seq::<Seq<u8>>::empty());
        l
    }

    /// Creates a list holding `entries`, in order.
    pub(crate) fn from_entries(entries: Vec<Vec<u8>>) -> (l: List)
        requires
            all_c_strings(entries@.map_values(|e: Vec<u8>| e@)),
        ensures
            l@ == entries@.map_values(|e: Vec<u8>| e@),
    {
        List { entries }
    }

    /// Appends `data` at the end of the list.
    ///
    /// Text holding a NUL byte cannot be a C string: it is refused with
    /// `CURLE_CONV_FAILED` and the list is left as it was.
    pub fn append(&mut self, data: &str) -> (r: Result<(), Error>)
        ensures
            has_nul(data.spec_bytes()) ==> (r matches Err(e) && e@ == CURLE_CONV_FAILED
                && final(self)@ == old(self)@),
            !has_nul(data.spec_bytes()) ==> (r is Ok && final(self)@ == old(self)@.push(
                data.spec_bytes(),
            )),
    {
        proof {
            use_type_invariant(&*self);
        }
        let bytes = data.as_bytes();
        if contains_nul(bytes) {
            return Err(Error::conv_failed());
        }
        let entry = vstd::slice::slice_to_vec(bytes);
        let ghost before = self@;
        let mut entries: Vec<Vec<u8>> = Vec::new();
        std::mem::swap(&mut entries, &mut self.entries);
        assert(entries@.map_values(|e: Vec<u8>| e@) == before);
        entries.push(entry);
        assert(entries@.map_values(|e: Vec<u8>| e@) =~= before.push(bytes@));
        self.entries = entries;
        Ok(())
    }

    /// An iterator over the entries of the list, first to last.
    pub fn iter(&self) -> (it: Iter<'_>)
        ensures
            it.remaining() == self@,
            all_c_strings(it.remaining()),
    {
        proof {
            use_type_invariant(self);
        }
        let it = Iter { list: self, pos: 0 };
        assert(self@.skip(0) =~= self@);
        it
    }
}

/// An iterator over the entries of a [`List`].
pub struct Iter<'a> {
    list: &'a List,
    pos: usize,
}

impl<'a> Iter<'a> {
    #[verifier::type_invariant]
    closed spec fn position_in_bounds(self) -> bool {
        self.pos <= self.list@.len()
    }

    /// The entries that are still to come, in order.
    pub closed spec fn remaining(&self) -> Seq<Seq<u8>> {
        self.list@.skip(self.pos as int)
    }

    /// The next entry, or `None` once every entry has been yielded.
    pub fn next(&mut self) -> (r: Option<&'a [u8]>)
        ensures
            old(self).remaining().len() == 0 ==> r is None && final(self).remaining()
                == old(self).remaining(),
            old(self).remaining().len() > 0 ==> (r matches Some(b) && b@
                == old(self).remaining()[0] && final(self).remaining() == old(
                self,
            ).remaining().drop_first()),
            r matches Some(b) ==> !has_nul(b@),
    {
        proof {
            use_type_invariant(&*self);
            use_type_invariant(self.list);
        }
        if self.pos < self.list.entries.len() {
            let b = self.list.entries[self.pos].as_slice();
            let ghost rem = self.list@.skip(self.pos as int);
            assert(b@ == rem[0]);
            self.pos = self.pos + 1;
            assert(self.list@.skip(self.pos as int) =~= rem.drop_first());
            Some(b)
        } else {
            None
        }
    }
}

/// Iterating a list from its start yields its entries one by one, in order,
/// and then nothing: `iter` starts with all of `entries` still to come; when
/// `k` entries have been yielded, `entries.skip(k)` are still to come, so the
/// next call of `next` yields `entries[k]` and leaves `entries.skip(k + 1)`;
/// once all have been yielded nothing is left, and every further call yields
/// `None` and leaves nothing.
pub proof fn iteration_yields_entries_in_order(entries: Seq<Seq<u8>>, k: int)
    requires
        0 <= k <= entries.len(),
    ensures
        entries.skip(0) == entries,
        k < entries.len() ==> entries.skip(k).len() > 0 && entries.skip(k)[0] == entries[k]
            && entries.skip(k).drop_first() == entries.skip(k + 1),
        k == entries.len() ==> entries.skip(k).len() == 0,
{
    assert(entries.skip(0) =~= entries);
    if k < entries.len() {
        assert(entries.skip(k).drop_first() =~= entries.skip(k + 1));
    }
}

} // verus!
