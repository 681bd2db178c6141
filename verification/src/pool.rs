//! The connection pool: an ordered rotation of cheaply-duplicable
//! connection handles, cycled through round-robin. A unary call removes the
//! head handle, uses it, and restores the (possibly refreshed) handle at
//! the tail; a long-lived stream takes the head handle out and leaves a
//! clone of it rotating in its place.
use vstd::prelude::*;

verus! {

/// A pool of connection handles, served front to back.
///
/// At rest the rotation holds every handle; during a call exactly one is
/// temporarily removed and restored afterward, so the size can be below the
/// resting size by one, transiently, per in-flight call.
pub struct ApiPool<T> {
    rotation: Vec<T>,
}

impl<T> View for ApiPool<T> {
    type V = Seq<T>;

    closed spec fn view(&self) -> Seq<T> {
        self.rotation@
    }
}

impl<T> ApiPool<T> {
    /// A pool of size one.
    pub fn new(api: T) -> (r: ApiPool<T>)
        ensures
            r@ =~= seq![api],
    {
        let mut rotation: Vec<T> = Vec::new();
        rotation.push(api);
        ApiPool { rotation }
    }

    /// Grow the rotation by one handle, at the tail.
    pub fn add(&mut self, api: T)
        ensures
            final(self)@ == old(self)@.push(api),
    {
        self.rotation.push(api);
    }

    /// How many handles are at rest in the rotation.
    pub fn len(&self) -> (n: usize)
        ensures
            n == self@.len(),
    {
        self.rotation.len()
    }

    /// Remove and return the head handle; the rotation shrinks by one until
    /// the handle is checked back in.
    pub fn checkout(&mut self) -> (r: T)
        requires
            old(self)@.len() > 0,
        ensures
            r == old(self)@.first(),
            final(self)@ == old(self)@.drop_first(),
    {
        self.rotation.remove(0)
    }

    /// Restore a handle at the tail of the rotation.
    pub fn checkin(&mut self, api: T)
        ensures
            final(self)@ == old(self)@.push(api),
    {
        self.rotation.push(api);
    }

    /// Run one call on the head handle: the handle is removed, the call is
    /// made, and the handle the call hands back is restored at the tail on
    /// every path — so the rotation's size is the same after the call as
    /// before it, whatever the call did.
    pub fn with_api<R, F: FnOnce(T) -> (T, R)>(&mut self, f: F) -> (res: R)
        requires
            old(self)@.len() > 0,
            forall|a: T| #[trigger] call_requires(f, (a,)),
        ensures
            final(self)@.len() == old(self)@.len(),
            exists|hr: (T, R)|
                #[trigger] call_ensures(f, (old(self)@.first(),), hr)
                && final(self)@ == old(self)@.drop_first().push(hr.0)
                && res == hr.1,
    {
        let api = self.checkout();
        let (api, res) = f(api);
        self.checkin(api);
        res
    }
}

impl<T: Clone> ApiPool<T> {
    /// Peek the head handle: pop it, restore a clone of it at the tail at
    /// once, and hand the popped handle out. The rotation keeps its size,
    /// and callers that hold a stream open across a long session do not
    /// starve the unary callers of the rotation.
    pub fn get(&mut self) -> (r: T)
        requires
            old(self)@.len() > 0,
        ensures
            r == old(self)@.first(),
            final(self)@.len() == old(self)@.len(),
            final(self)@.drop_last() == old(self)@.drop_first(),
            vstd::pervasive::cloned::<T>(old(self)@.first(), final(self)@.last()),
    {
        let api = self.checkout();
        let copy = api.clone();
        self.checkin(copy);
        api
    }
}

/// One round-robin step: the head handle moves to the tail.
pub open spec fn rotate1<T>(s: Seq<T>) -> Seq<T> {
    if s.len() == 0 {
        s
    } else {
        s.drop_first().push(s.first())
    }
}

/// `n` round-robin steps.
pub open spec fn rotate_n<T>(s: Seq<T>, n: nat) -> Seq<T>
    decreases n,
{
    if n == 0 {
        s
    } else {
        rotate_n(rotate1(s), (n - 1) as nat)
    }
}

/// After `k` steps the rotation is the starting sequence split at `k`:
/// every handle keeps its cyclic order.
proof fn lemma_rotate_n_split<T>(s: Seq<T>, k: nat)
    requires
        k <= s.len(),
    ensures
        rotate_n(s, k) == s.subrange(k as int, s.len() as int) + s.subrange(0, k as int),
    decreases k,
{
    if k == 0 {
        assert(rotate_n(s, 0) =~= s.subrange(0, s.len() as int) + s.subrange(0, 0));
    } else {
        lemma_rotate_n_split(s, (k - 1) as nat);
        let prev = s.subrange(k as int - 1, s.len() as int) + s.subrange(0, k as int - 1);
        assert(rotate_n(s, k) == rotate1(prev)) by {
            lemma_rotate_one_more(s, (k - 1) as nat);
        }
        assert(rotate1(prev) =~= s.subrange(k as int, s.len() as int) + s.subrange(0, k as int));
    }
}

/// Unfolding helper: `n + 1` steps are `n` steps followed by one more.
proof fn lemma_rotate_one_more<T>(s: Seq<T>, n: nat)
    ensures
        rotate_n(s, n + 1) == rotate1(rotate_n(s, n)),
    decreases n,
{
    if n == 0 {
        assert(rotate_n(s, 1) == rotate_n(rotate1(s), 0));
    } else {
        lemma_rotate_one_more(rotate1(s), (n - 1) as nat);
        assert(rotate_n(s, n + 1) == rotate_n(rotate1(s), n));
        assert(rotate_n(s, n) == rotate_n(rotate1(s), (n - 1) as nat));
    }
}

/// Round-robin fairness of the rotation: serving as many calls as there
/// are handles brings the rotation back to where it started, so within any
/// window of that many calls every handle is served exactly once — no
/// caller is starved.
pub proof fn lemma_rotation_cycle<T>(s: Seq<T>)
    ensures
        rotate_n(s, s.len()) == s,
{
    lemma_rotate_n_split(s, s.len());
    assert(s.subrange(s.len() as int, s.len() as int) + s.subrange(0, s.len() as int) =~= s);
}

} // verus!
