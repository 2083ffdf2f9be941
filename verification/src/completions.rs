//! The buffer that collects completion candidates for one request.

use vstd::prelude::*;
use crate::text::{native_layout, native_text, nul_free};

verus! {

/// The texts of a sequence of strings, in the same order.
pub open spec fn texts(items: Seq<String>) -> Seq<Seq<char>> {
    Seq::new(items.len(), |i: int| items[i]@)
}

/// Every text of the sequence can be handed to the engine whole.
pub open spec fn all_nul_free(items: Seq<Seq<char>>) -> bool {
    forall|i: int| 0 <= i < items.len() ==> nul_free(#[trigger] items[i])
}

/// The candidates gathered so far, in the order in which they were added.
///
/// The engine keeps such a buffer across requests, so a request starts by
/// clearing it. Each candidate is free of NUL: it is copied to the engine
/// as a terminated string.
pub struct Completions {
    items: Vec<String>,
}

impl View for Completions {
    type V = Seq<Seq<char>>;

    closed spec fn view(&self) -> Seq<Seq<char>> {
        texts(self.items@)
    }
}

impl Completions {
    #[verifier::type_invariant]
    spec fn entries_nul_free(self) -> bool {
        all_nul_free(texts(self.items@))
    }

    /// An empty buffer.
    pub fn new() -> (r: Completions)
        ensures
            r@ == Seq::<Seq<char>>::empty(),
    {
        let r = Completions { items: Vec::new() };
        assert(r@ =~= Seq::<Seq<char>>::empty());
        r
    }

    /// The number of candidates held.
    pub fn len(&self) -> (r: usize)
        ensures
            r == self@.len(),
    {
        self.items.len()
    }

    /// The candidates held, in order; each of them is free of NUL.
    pub fn candidates(&self) -> (r: &Vec<String>)
        ensures
            texts(r@) == self@,
            all_nul_free(self@),
    {
        proof {
            use_type_invariant(self);
        }
        &self.items
    }

    /// The candidates in the engine's layout, in order, for whoever copies
    /// them into the engine's own buffer. Every candidate has one: none is
    /// left out or cut short.
    pub fn native_candidates(&self) -> (r: Vec<Vec<u8>>)
        ensures
            r@.len() == self@.len(),
            forall|i: int| 0 <= i < r@.len() ==> (#[trigger] r@[i])@ == native_layout(self@[i]),
    {
        proof {
            use_type_invariant(self);
        }
        let mut out: Vec<Vec<u8>> = Vec::new();
        let mut i: usize = 0;
        while i < self.items.len()
            invariant
                i <= self.items@.len(),
                all_nul_free(texts(self.items@)),
                out@.len() == i,
                forall|k: int|
                    0 <= k < i ==> (#[trigger] out@[k])@ == native_layout(texts(self.items@)[k]),
            decreases self.items.len() - i,
        {
            assert(texts(self.items@)[i as int] == self.items@[i as int]@);
            let laid = native_text(self.items[i].as_str()).unwrap();
            out.push(laid);
            i += 1;
        }
        out
    }

    /// Sets the length back to zero, whatever the buffer held.
    pub fn clear(&mut self)
        ensures
            final(self)@ == Seq::<Seq<char>>::empty(),
    {
        self.items = Vec::new();
        assert(self@ =~= Seq::<Seq<char>>::empty());
    }
}

/// Appends one candidate to the buffer. A candidate that holds NUL cannot
/// be handed to the engine and is not accepted.
pub fn add_completion(c: &mut Completions, input: &str)
    requires
        nul_free(input@),
    ensures
        final(c)@ == old(c)@.push(input@),
{
    proof {
        use_type_invariant(&*c);
    }
    let mut items: Vec<String> = Vec::new();
    std::mem::swap(&mut c.items, &mut items);
    items.push(input.to_owned());
    assert(texts(items@) =~= old(c)@.push(input@));
    std::mem::swap(&mut c.items, &mut items);
    assert(c@ =~= old(c)@.push(input@));
}

/// Appends each candidate to the buffer, in order, as it is: nothing is
/// sorted, dropped or merged.
pub fn add_completions(c: &mut Completions, candidates: &Vec<String>)
    requires
        all_nul_free(texts(candidates@)),
    ensures
        final(c)@ == old(c)@ + texts(candidates@),
{
    let mut i: usize = 0;
    while i < candidates.len()
        invariant
            i <= candidates.len(),
            all_nul_free(texts(candidates@)),
            c@ == old(c)@ + texts(candidates@).subrange(0, i as int),
        decreases candidates.len() - i,
    {
        assert(texts(candidates@)[i as int] == candidates@[i as int]@);
        add_completion(c, candidates[i].as_str());
        assert(c@ =~= old(c)@ + texts(candidates@).subrange(0, i + 1));
        i += 1;
    }
    assert(texts(candidates@).subrange(0, i as int) =~= texts(candidates@));
}

} // verus!
