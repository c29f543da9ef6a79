//! Level and edge state of a family of buttons: which are held, and which
//! went down or up during the current frame.

use std::collections::HashSet;
use vstd::prelude::*;

verus! {

broadcast use vstd::std_specs::hash::group_hash_axioms;

/// The three sets kept for one family of buttons (keys, or mouse buttons).
#[verifier::reject_recursive_types(T)]
pub ghost struct EdgeSets<T> {
    /// Buttons that are held down.
    pub pressed: Set<T>,
    /// Buttons that went down during the current frame and are still down.
    pub just_pressed: Set<T>,
    /// Buttons whose latest transition in the current frame was a release.
    pub just_released: Set<T>,
}

impl<T> EdgeSets<T> {
    /// No button held, no transition seen.
    pub open spec fn empty() -> Self {
        EdgeSets { pressed: Set::empty(), just_pressed: Set::empty(), just_released: Set::empty() }
    }

    /// What every reachable state satisfies: a button that just went down is
    /// down, and a button that was just released is not.
    pub open spec fn wf(self) -> bool {
        &&& self.just_pressed.subset_of(self.pressed)
        &&& self.just_released.disjoint(self.pressed)
    }

    /// The state after button `b` goes down.
    pub open spec fn press(self, b: T) -> Self {
        EdgeSets {
            pressed: self.pressed.insert(b),
            just_pressed: self.just_pressed.insert(b),
            just_released: self.just_released.remove(b),
        }
    }

    /// The state after button `b` goes up.
    pub open spec fn release(self, b: T) -> Self {
        EdgeSets {
            pressed: self.pressed.remove(b),
            just_pressed: self.just_pressed.remove(b),
            just_released: self.just_released.insert(b),
        }
    }

    /// The state after the end-of-frame clearing: the transitions are
    /// forgotten, the held buttons stay.
    pub open spec fn clear_edges(self) -> Self {
        EdgeSets { pressed: self.pressed, just_pressed: Set::empty(), just_released: Set::empty() }
    }

    /// The same sets, read through a numbering `code_of` of the buttons: a
    /// button belongs to a set of the result when its number belongs to the
    /// corresponding set of `codes`.
    pub open spec fn decode(codes: EdgeSets<u32>, code_of: spec_fn(T) -> u32) -> Self {
        EdgeSets {
            pressed: Set::new(|b: T| codes.pressed.contains(code_of(b))),
            just_pressed: Set::new(|b: T| codes.just_pressed.contains(code_of(b))),
            just_released: Set::new(|b: T| codes.just_released.contains(code_of(b))),
        }
    }

    /// Pressing, releasing and clearing keep a well-formed state well-formed,
    /// and the empty state is well-formed.
    pub proof fn lemma_wf_preserved(self, b: T)
        requires
            self.wf(),
        ensures
            Self::empty().wf(),
            self.press(b).wf(),
            self.release(b).wf(),
            self.clear_edges().wf(),
    {
    }

    /// A button is never reported as just pressed and just released at once.
    pub proof fn lemma_edges_exclusive(self, b: T)
        requires
            self.wf(),
        ensures
            !(self.just_pressed.contains(b) && self.just_released.contains(b)),
    {
    }

    /// Reading through an injective numbering commutes with pressing,
    /// releasing and clearing.
    pub proof fn lemma_decode_commutes(codes: EdgeSets<u32>, code_of: spec_fn(T) -> u32, b: T)
        requires
            forall|x: T, y: T| #[trigger] code_of(x) == #[trigger] code_of(y) ==> x == y,
        ensures
            Self::decode(EdgeSets::<u32>::empty(), code_of) == Self::empty(),
            Self::decode(codes.press(code_of(b)), code_of) == Self::decode(codes, code_of).press(b),
            Self::decode(codes.release(code_of(b)), code_of) == Self::decode(
                codes,
                code_of,
            ).release(b),
            Self::decode(codes.clear_edges(), code_of) == Self::decode(codes, code_of).clear_edges(),
            codes.wf() ==> Self::decode(codes, code_of).wf(),
    {
        let d = Self::decode(codes, code_of);
        let e = Self::decode(EdgeSets::<u32>::empty(), code_of);
        assert(e.pressed =~= Set::<T>::empty());
        assert(e.just_pressed =~= Set::<T>::empty());
        assert(e.just_released =~= Set::<T>::empty());
        let p = Self::decode(codes.press(code_of(b)), code_of);
        assert(p.pressed =~= d.pressed.insert(b));
        assert(p.just_pressed =~= d.just_pressed.insert(b));
        assert(p.just_released =~= d.just_released.remove(b));
        let r = Self::decode(codes.release(code_of(b)), code_of);
        assert(r.pressed =~= d.pressed.remove(b));
        assert(r.just_pressed =~= d.just_pressed.remove(b));
        assert(r.just_released =~= d.just_released.insert(b));
        let c = Self::decode(codes.clear_edges(), code_of);
        assert(c.pressed =~= d.pressed);
        assert(c.just_pressed =~= Set::<T>::empty());
        assert(c.just_released =~= Set::<T>::empty());
    }
}

/// Executable level and edge state of a family of buttons, each known by a
/// number.
pub struct ButtonTracker {
    pressed: HashSet<u32>,
    just_pressed: HashSet<u32>,
    just_released: HashSet<u32>,
}

impl View for ButtonTracker {
    type V = EdgeSets<u32>;

    closed spec fn view(&self) -> EdgeSets<u32> {
        EdgeSets {
            pressed: self.pressed@,
            just_pressed: self.just_pressed@,
            just_released: self.just_released@,
        }
    }
}

impl ButtonTracker {
    /// A tracker in which nothing is held and nothing has happened.
    pub fn new() -> (t: Self)
        ensures
            t@ == EdgeSets::<u32>::empty(),
            t@.wf(),
    {
        ButtonTracker {
            pressed: HashSet::new(),
            just_pressed: HashSet::new(),
            just_released: HashSet::new(),
        }
    }

    /// Records that button `code` went down.
    pub fn press(&mut self, code: u32)
        ensures
            final(self)@ == old(self)@.press(code),
            old(self)@.wf() ==> final(self)@.wf(),
    {
        self.pressed.insert(code);
        self.just_pressed.insert(code);
        self.just_released.remove(&code);
    }

    /// Records that button `code` went up.
    pub fn release(&mut self, code: u32)
        ensures
            final(self)@ == old(self)@.release(code),
            old(self)@.wf() ==> final(self)@.wf(),
    {
        self.pressed.remove(&code);
        self.just_pressed.remove(&code);
        self.just_released.insert(code);
    }

    /// Forgets the transitions of the frame that ends; held buttons stay held.
    pub fn clear_edges(&mut self)
        ensures
            final(self)@ == old(self)@.clear_edges(),
            old(self)@.wf() ==> final(self)@.wf(),
    {
        self.just_pressed.clear();
        self.just_released.clear();
    }

    /// Whether button `code` is held.
    pub fn is_pressed(&self, code: u32) -> (r: bool)
        ensures
            r == self@.pressed.contains(code),
    {
        self.pressed.contains(&code)
    }

    /// Whether button `code` went down during the current frame.
    pub fn is_just_pressed(&self, code: u32) -> (r: bool)
        ensures
            r == self@.just_pressed.contains(code),
    {
        self.just_pressed.contains(&code)
    }

    /// Whether button `code` was released during the current frame.
    pub fn is_just_released(&self, code: u32) -> (r: bool)
        ensures
            r == self@.just_released.contains(code),
    {
        self.just_released.contains(&code)
    }
}

} // verus!
