use vstd::prelude::*;
use vstd::std_specs::cmp::PartialEqSpec;

verus! {

/// The three conditions a wrapper can be in.
#[derive(Clone, Copy, Debug, PartialEq, Eq, Structural)]
pub enum BitmapState {
    /// No handle: the null handle, not owned.
    Empty,
    /// A handle that the wrapper must release.
    Loaded,
    /// A handle that belongs to someone else.
    Borrowed,
}

/// What a [`Bitmap`] is, as plain values.
pub struct BitmapView {
    /// The raw handle value; zero is the null handle.
    pub handle: usize,
    /// Whether the wrapper must release the handle.
    pub owned: bool,
}

impl BitmapView {
    /// The wrapper that holds nothing.
    pub open spec fn empty() -> BitmapView {
        BitmapView { handle: 0, owned: false }
    }

    /// The wrapper that owns `handle`.
    pub open spec fn loaded(handle: usize) -> BitmapView {
        BitmapView { handle, owned: true }
    }

    /// A null handle is never owned.
    pub open spec fn valid(self) -> bool {
        self.owned ==> self.handle != 0
    }

    /// Which of the three conditions the wrapper is in.
    pub open spec fn state(self) -> BitmapState {
        if self.owned {
            BitmapState::Loaded
        } else if self.handle == 0 {
            BitmapState::Empty
        } else {
            BitmapState::Borrowed
        }
    }

    /// The handle that has to be released when the wrapper is given up.
    pub open spec fn pending_release(self) -> Option<usize> {
        if self.owned {
            Some(self.handle)
        } else {
            None
        }
    }

    /// The handle that has to be released when the wrapper takes over
    /// `handle`: the one it owned before, unless that is `handle` itself.
    pub open spec fn displaced_by(self, handle: usize) -> Option<usize> {
        if self.owned && self.handle != handle {
            Some(self.handle)
        } else {
            None
        }
    }

    /// The handle that has to be released when `handle` was made for the
    /// wrapper and is not taken over: `handle`, unless the wrapper owns it.
    pub open spec fn discarded(self, handle: usize) -> Option<usize> {
        if self.owned && self.handle == handle {
            None
        } else {
            Some(handle)
        }
    }
}

/// A bitmap handle together with the duty to release it.
///
/// The wrapper is neither `Clone` nor `Copy`: a handle that one wrapper owns
/// cannot come to be owned by a second one.
#[derive(Debug)]
pub struct Bitmap {
    handle: usize,
    owned: bool,
}

impl View for Bitmap {
    type V = BitmapView;

    closed spec fn view(&self) -> BitmapView {
        BitmapView { handle: self.handle, owned: self.owned }
    }
}

impl Bitmap {
    /// Holds of every wrapper: a null handle is never owned.
    #[verifier::type_invariant]
    pub open spec fn well_formed(self) -> bool {
        self@.valid()
    }

    /// Takes over `handle` and hands back the handle to release for it.
    pub(crate) fn adopt(&mut self, handle: usize) -> (due: Option<usize>)
        requires
            handle != 0,
        ensures
            final(self)@ == BitmapView::loaded(handle),
            due == old(self)@.displaced_by(handle),
    {
        let due = if self.owned && self.handle != handle {
            Some(self.handle)
        } else {
            None
        };
        self.handle = handle;
        self.owned = true;
        due
    }

    /// Turns down `handle`, which was made for this wrapper, and hands back
    /// the handle to release for it.
    pub(crate) fn discard(&self, handle: usize) -> (due: Option<usize>)
        ensures
            due == self@.discarded(handle),
    {
        if self.owned && self.handle == handle {
            None
        } else {
            Some(handle)
        }
    }

    /// A wrapper of a handle that belongs to someone else: it looks at the
    /// handle and never has it released. Of the null handle it is the empty
    /// wrapper.
    pub fn borrowed(handle: usize) -> (bitmap: Bitmap)
        ensures
            bitmap@ == (BitmapView { handle, owned: false }),
    {
        Bitmap { handle, owned: false }
    }

    /// The raw handle value; zero for the null handle.
    pub fn handle(&self) -> (handle: usize)
        ensures
            handle == self@.handle,
    {
        self.handle
    }

    /// Whether the wrapper must release its handle.
    pub fn owned(&self) -> (owned: bool)
        ensures
            owned == self@.owned,
    {
        self.owned
    }

    /// Which of the three conditions the wrapper is in.
    pub fn state(&self) -> (state: BitmapState)
        ensures
            state == self@.state(),
    {
        if self.owned {
            BitmapState::Loaded
        } else if self.handle == 0 {
            BitmapState::Empty
        } else {
            BitmapState::Borrowed
        }
    }

    /// Gives up the handle. An owned handle is handed back, to be released by
    /// the caller, and the wrapper is left empty, so that a second call hands
    /// back nothing. A handle that is not owned is only forgotten.
    pub fn release(&mut self) -> (due: Option<usize>)
        ensures
            due == old(self)@.pending_release(),
            due matches Some(handle) ==> handle != 0,
            final(self)@ == BitmapView::empty(),
    {
        proof {
            use_type_invariant(&*self);
        }
        let due = if self.owned {
            Some(self.handle)
        } else {
            None
        };
        self.owned = false;
        self.handle = 0;
        due
    }

    /// Giving up a wrapper that owns its handle makes that handle due for
    /// release, once: what is left behind has nothing due. Giving up one that
    /// does not own its handle makes nothing due at all.
    pub proof fn lemma_release_at_most_once(before: BitmapView)
        ensures
            before.owned ==> before.pending_release() == Some(before.handle),
            !before.owned ==> before.pending_release() is None,
            BitmapView::empty().pending_release() is None,
            BitmapView::empty().state() == BitmapState::Empty,
    {
    }

    /// Equality is the identity of handles. It holds between any two
    /// wrappers of one handle value, whoever owns it, and between no others;
    /// so it is reflexive, symmetric and transitive.
    pub proof fn lemma_equality_is_handle_identity(a: Bitmap, b: Bitmap, c: Bitmap)
        ensures
            a.eq_spec(&b) <==> a@.handle == b@.handle,
            a.eq_spec(&a),
            a.eq_spec(&b) ==> b.eq_spec(&a),
            a.eq_spec(&b) && b.eq_spec(&c) ==> a.eq_spec(&c),
    {
    }
}

impl Default for Bitmap {
    /// The empty wrapper: the null handle, not owned.
    fn default() -> (bitmap: Bitmap)
        ensures
            bitmap@ == BitmapView::empty(),
    {
        Bitmap { handle: 0, owned: false }
    }
}

impl PartialEq for Bitmap {
    /// Two wrappers are equal when they hold the same handle value, whoever
    /// owns it and whatever the bitmaps show.
    fn eq(&self, other: &Self) -> (equal: bool) {
        self.handle == other.handle
    }
}

impl vstd::std_specs::cmp::PartialEqSpecImpl for Bitmap {
    open spec fn obeys_eq_spec() -> bool {
        true
    }

    open spec fn eq_spec(&self, other: &Self) -> bool {
        self@.handle == other@.handle
    }
}

} // verus!
