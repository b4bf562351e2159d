use vstd::prelude::*;
use vstd::rwlock::{RwLock, WriteHandle};

verus! {

// The engine's decoding sessions mutate shared native state that tolerates
// no concurrent invocation. Every recognition call, from the file flow and
// from the streaming flow alike, must go through this guard: it wraps the
// one engine value behind a verified lock, so at most one caller works with
// the engine at any instant, and everyone else waits.

/// Exclusive access to one shared engine value of type `V`.
#[verifier::reject_recursive_types(V)]
pub struct ExclusiveEngineGuard<V> {
    lock: RwLock<V, spec_fn(V) -> bool>,
}

/// The token a caller holds while it is inside the critical section; giving
/// the engine back consumes it.
#[verifier::reject_recursive_types(V)]
pub struct EngineAccess<'a, V> {
    handle: WriteHandle<'a, V, spec_fn(V) -> bool>,
}

impl<'a, V> EngineAccess<'a, V> {
    /// The guard takes any engine value back.
    pub closed spec fn can_release(&self) -> bool {
        forall|v: V| self.handle.rwlock().inv(v)
    }

    /// Ends the critical section: the engine is stored again and the next
    /// waiter may take it.
    pub fn put_back(self, engine: V)
        requires
            self.can_release(),
    {
        self.handle.release_write(engine);
    }
}

impl<V> ExclusiveEngineGuard<V> {
    /// The guard stores engine values without further conditions.
    pub closed spec fn wf(&self) -> bool {
        forall|v: V| self.lock.inv(v)
    }

    pub fn new(engine: V) -> (g: Self)
        ensures
            g.wf(),
    {
        let lock = RwLock::new(engine, Ghost(|v: V| true));
        ExclusiveEngineGuard { lock }
    }

    /// Suspends the caller until no other caller holds the engine, then
    /// hands the engine over, together with the token that gives it back.
    pub fn with_exclusive_access(&self) -> (ret: (V, EngineAccess<'_, V>))
        requires
            self.wf(),
        ensures
            ret.1.can_release(),
    {
        let (engine, handle) = self.lock.acquire_write();
        (engine, EngineAccess { handle })
    }
}

// A ghost model of the critical section, for stating what the lock
// discipline gives: `inside` is the set of callers that are between taking
// the engine and giving it back. A caller can enter only when nobody is
// inside — that is what `with_exclusive_access` blocks for — and only a
// caller that is inside can leave.

/// Which callers are inside the critical section.
pub struct SectionModel {
    pub inside: Set<int>,
}

/// Nobody holds the engine at the start.
pub open spec fn section_init(m: SectionModel) -> bool {
    m.inside == Set::<int>::empty()
}

/// Caller `c` takes the engine: possible only while nobody is inside.
pub open spec fn section_enter(pre: SectionModel, post: SectionModel, c: int) -> bool {
    pre.inside == Set::<int>::empty() && post.inside == pre.inside.insert(c)
}

/// Caller `c` gives the engine back.
pub open spec fn section_leave(pre: SectionModel, post: SectionModel, c: int) -> bool {
    pre.inside.contains(c) && post.inside == pre.inside.remove(c)
}

/// At most one caller is inside the critical section.
pub open spec fn at_most_one_inside(m: SectionModel) -> bool {
    forall|a: int, b: int| m.inside.contains(a) && m.inside.contains(b) ==> a == b
}

/// However many callers there are, mutual exclusion holds at the start ...
pub proof fn lemma_section_init_exclusive(m: SectionModel)
    requires
        section_init(m),
    ensures
        at_most_one_inside(m),
{
}

/// ... is preserved when a caller enters (it can only enter an empty
/// section) ...
pub proof fn lemma_section_enter_exclusive(pre: SectionModel, post: SectionModel, c: int)
    requires
        at_most_one_inside(pre),
        section_enter(pre, post, c),
    ensures
        at_most_one_inside(post),
{
    assert forall|a: int, b: int| post.inside.contains(a) && post.inside.contains(b) implies a
        == b by {
        assert(a == c && b == c);
    }
}

/// ... and is preserved when the caller inside leaves. So every state a
/// run of enters and leaves can reach keeps at most one caller inside.
pub proof fn lemma_section_leave_exclusive(pre: SectionModel, post: SectionModel, c: int)
    requires
        at_most_one_inside(pre),
        section_leave(pre, post, c),
    ensures
        at_most_one_inside(post),
{
}

} // verus!
