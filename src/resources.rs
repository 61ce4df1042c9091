//! Ownership of driver resources.
//!
//! A display owns configs, a config owns contexts, a context owns the buffers and surfaces
//! made through it, and a surface may also be made directly against a display. Destroying a
//! resource destroys everything it owns, so no handle outlives its owner.

use vstd::prelude::*;

verus! {

/// The kinds of driver resource.
#[derive(Clone, Copy, PartialEq, Eq, Structural, Debug)]
pub enum ResourceKind {
    Display,
    Config,
    Context,
    Surface,
    Buffer,
}

/// Whether a resource of kind `kind` may be owned by one of kind `owner`.
pub open spec fn may_own(owner: ResourceKind, kind: ResourceKind) -> bool {
    match kind {
        ResourceKind::Display => false,
        ResourceKind::Config => owner == ResourceKind::Display,
        ResourceKind::Context => owner == ResourceKind::Config,
        ResourceKind::Surface => owner == ResourceKind::Context || owner == ResourceKind::Display,
        ResourceKind::Buffer => owner == ResourceKind::Context,
    }
}

/// One resource: its kind, the handle of its owner, and whether it is still alive.
#[derive(Clone, Copy, PartialEq, Eq, Structural, Debug)]
pub struct Resource {
    pub kind: ResourceKind,
    pub owner: Option<usize>,
    pub live: bool,
}

/// Misuse of resource handles.
#[derive(Clone, Copy, PartialEq, Eq, Structural, Debug)]
pub enum ResourceError {
    /// A handle that was never given out or whose resource is destroyed.
    InvalidHandle,
    /// An owner of a kind that cannot own the requested resource.
    WrongOwner,
}

/// Whether resource `i` is `a` or is owned, directly or through others, by `a`.
pub open spec fn descends(rs: Seq<Resource>, i: int, a: int) -> bool
    decreases i,
{
    if i == a {
        true
    } else if 0 <= i < rs.len() {
        match rs[i].owner {
            Some(p) => if (p as int) < i { descends(rs, p as int, a) } else { false },
            None => false,
        }
    } else {
        false
    }
}

/// The resources after destroying `a`: it and all that it owns are dead.
pub open spec fn cascade(rs: Seq<Resource>, a: int) -> Seq<Resource> {
    Seq::new(rs.len(), |i: int| Resource { live: rs[i].live && !descends(rs, i, a), ..rs[i] })
}

/// Every owner comes before what it owns and may own it, displays have no owner, and a live
/// resource has a live owner.
pub open spec fn well_formed(rs: Seq<Resource>) -> bool {
    forall|i: int| 0 <= i < rs.len() ==> match (#[trigger] rs[i]).owner {
        Some(p) => {
            &&& (p as int) < i
            &&& may_own(rs[p as int].kind, rs[i].kind)
            &&& rs[i].live ==> rs[p as int].live
        },
        None => rs[i].kind == ResourceKind::Display,
    }
}

/// A resource descends only from itself or from resources before it.
proof fn lemma_descends_not_before(rs: Seq<Resource>, i: int, a: int)
    requires
        descends(rs, i, a),
    ensures
        a <= i,
    decreases i,
{
    if i != a {
        let p = rs[i].owner->0 as int;
        lemma_descends_not_before(rs, p, a);
    }
}

/// Destroying a resource keeps the table well formed.
proof fn lemma_cascade_well_formed(rs: Seq<Resource>, a: int)
    requires
        well_formed(rs),
    ensures
        well_formed(cascade(rs, a)),
{
    let c = cascade(rs, a);
    assert forall|i: int| 0 <= i < c.len() implies match (#[trigger] c[i]).owner {
        Some(p) => {
            &&& (p as int) < i
            &&& may_own(c[p as int].kind, c[i].kind)
            &&& c[i].live ==> c[p as int].live
        },
        None => c[i].kind == ResourceKind::Display,
    } by {
        assert(rs[i].owner == c[i].owner);
        match rs[i].owner {
            Some(p) => {
                assert(c[p as int].live == (rs[p as int].live && !descends(rs, p as int, a)));
            },
            None => {},
        }
    }
}

/// Adding a live resource whose owner is alive and may own it keeps the table well formed.
proof fn lemma_push_well_formed(rs: Seq<Resource>, n: Resource)
    requires
        well_formed(rs),
        n.live,
        match n.owner {
            Some(p) => (p as int) < rs.len() && rs[p as int].live && may_own(rs[p as int].kind, n.kind),
            None => n.kind == ResourceKind::Display,
        },
    ensures
        well_formed(rs.push(n)),
{
    let t = rs.push(n);
    assert forall|i: int| 0 <= i < t.len() implies match (#[trigger] t[i]).owner {
        Some(p) => {
            &&& (p as int) < i
            &&& may_own(t[p as int].kind, t[i].kind)
            &&& t[i].live ==> t[p as int].live
        },
        None => t[i].kind == ResourceKind::Display,
    } by {
        if i < rs.len() {
            assert(t[i] == rs[i]);
            match rs[i].owner {
                Some(p) => {
                    assert(t[p as int] == rs[p as int]);
                },
                None => {},
            }
        } else {
            match n.owner {
                Some(p) => {
                    assert(t[p as int] == rs[p as int]);
                },
                None => {},
            }
        }
    }
}

/// The resources handed out so far, by handle.
pub struct ResourceTable {
    resources: Vec<Resource>,
}

impl ResourceTable {
    pub closed spec fn view(&self) -> Seq<Resource> {
        self.resources@
    }

    pub open spec fn wf(&self) -> bool {
        well_formed(self@)
    }

    pub fn new() -> (r: Self)
        ensures
            r.wf(),
            r@.len() == 0,
    {
        ResourceTable { resources: Vec::new() }
    }

    /// Records a new display connection and returns its handle.
    pub fn open_display(&mut self) -> (r: usize)
        requires
            old(self).wf(),
            old(self)@.len() < usize::MAX,
        ensures
            final(self).wf(),
            r == old(self)@.len(),
            final(self)@ == old(self)@.push(Resource { kind: ResourceKind::Display, owner: None, live: true }),
    {
        let r = self.resources.len();
        proof {
            lemma_push_well_formed(self.resources@, Resource { kind: ResourceKind::Display, owner: None, live: true });
        }
        self.resources.push(Resource { kind: ResourceKind::Display, owner: None, live: true });
        r
    }

    /// Records a new resource of `kind` owned by `owner` and returns its handle. Fails, and
    /// changes nothing, when `owner` is not alive or cannot own such a resource.
    pub fn create(&mut self, kind: ResourceKind, owner: usize) -> (r: Result<usize, ResourceError>)
        requires
            old(self).wf(),
            old(self)@.len() < usize::MAX,
        ensures
            final(self).wf(),
            !(owner < old(self)@.len() && old(self)@[owner as int].live) ==> r == Err::<usize, ResourceError>(
                ResourceError::InvalidHandle) && final(self)@ == old(self)@,
            owner < old(self)@.len() && old(self)@[owner as int].live && !may_own(old(self)@[owner as int].kind, kind)
                ==> r == Err::<usize, ResourceError>(ResourceError::WrongOwner) && final(self)@ == old(self)@,
            owner < old(self)@.len() && old(self)@[owner as int].live && may_own(old(self)@[owner as int].kind, kind)
                ==> r == Ok::<usize, ResourceError>(old(self)@.len() as usize)
                && final(self)@ == old(self)@.push(Resource { kind, owner: Some(owner), live: true }),
    {
        if owner >= self.resources.len() || !self.resources[owner].live {
            return Err(ResourceError::InvalidHandle);
        }
        let owner_kind = self.resources[owner].kind;
        let ok = match kind {
            ResourceKind::Display => false,
            ResourceKind::Config => owner_kind == ResourceKind::Display,
            ResourceKind::Context => owner_kind == ResourceKind::Config,
            ResourceKind::Surface => owner_kind == ResourceKind::Context || owner_kind == ResourceKind::Display,
            ResourceKind::Buffer => owner_kind == ResourceKind::Context,
        };
        if !ok {
            return Err(ResourceError::WrongOwner);
        }
        let r = self.resources.len();
        proof {
            lemma_push_well_formed(self.resources@, Resource { kind, owner: Some(owner), live: true });
        }
        self.resources.push(Resource { kind, owner: Some(owner), live: true });
        Ok(r)
    }

    /// Destroys resource `id` and, before it is gone, everything it owns. Fails, and changes
    /// nothing, when `id` is not alive.
    pub fn destroy(&mut self, id: usize) -> (r: Result<(), ResourceError>)
        requires
            old(self).wf(),
        ensures
            final(self).wf(),
            !(id < old(self)@.len() && old(self)@[id as int].live) ==> r == Err::<(), ResourceError>(
                ResourceError::InvalidHandle) && final(self)@ == old(self)@,
            id < old(self)@.len() && old(self)@[id as int].live ==> r is Ok
                && final(self)@ == cascade(old(self)@, id as int),
    {
        if id >= self.resources.len() || !self.resources[id].live {
            return Err(ResourceError::InvalidHandle);
        }
        let ghost before = self.resources@;
        let ghost target = cascade(before, id as int);
        let mut first = self.resources[id];
        first.live = false;
        self.resources.set(id, first);
        assert forall|j: int| 0 <= j < id implies !descends(before, j, id as int) by {
            if descends(before, j, id as int) {
                lemma_descends_not_before(before, j, id as int);
            }
        }
        let mut i: usize = id + 1;
        while i < self.resources.len()
            invariant
                well_formed(before),
                target == cascade(before, id as int),
                id < i <= before.len(),
                self.resources@.len() == before.len(),
                forall|j: int| 0 <= j < i ==> self.resources@[j] == target[j],
                forall|j: int| i <= j < before.len() ==> self.resources@[j] == before[j],
            decreases before.len() - i,
        {
            let node = self.resources[i];
            assert(before[i as int] == node);
            match node.owner {
                Some(p) => {
                    assert(p < i);
                    assert(descends(before, i as int, id as int) == descends(before, p as int, id as int));
                    assert(self.resources@[p as int] == target[p as int]);
                    assert(node.live ==> before[p as int].live);
                    if !self.resources[p].live {
                        let mut dead = node;
                        dead.live = false;
                        self.resources.set(i, dead);
                    }
                },
                None => {
                    assert(!descends(before, i as int, id as int));
                },
            }
            assert(self.resources@[i as int] == target[i as int]);
            i += 1;
        }
        assert(self.resources@ =~= target);
        proof {
            lemma_cascade_well_formed(before, id as int);
        }
        Ok(())
    }

    /// Whether `id` is a handle of a live resource.
    pub fn is_live(&self, id: usize) -> (r: bool)
        ensures
            r == (id < self@.len() && self@[id as int].live),
    {
        id < self.resources.len() && self.resources[id].live
    }

    /// The kind of resource `id`, if it was ever given out.
    pub fn kind(&self, id: usize) -> (r: Option<ResourceKind>)
        ensures
            id < self@.len() ==> r == Some(self@[id as int].kind),
            id >= self@.len() ==> r is None,
    {
        if id < self.resources.len() {
            Some(self.resources[id].kind)
        } else {
            None
        }
    }
}

/// Destroying a resource leaves no handle usable that it owns, directly or through others:
/// each of them is dead afterwards, while resources it does not own keep their state.
pub proof fn lemma_destroy_cascades(rs: Seq<Resource>, a: int, i: int)
    requires
        well_formed(rs),
        0 <= i < rs.len(),
    ensures
        descends(rs, i, a) ==> !cascade(rs, a)[i].live,
        !descends(rs, i, a) ==> cascade(rs, a)[i].live == rs[i].live,
        well_formed(cascade(rs, a)),
{
    lemma_cascade_well_formed(rs, a);
}

/// A resource directly owned by another counts as descending from it.
pub proof fn lemma_owned_descends(rs: Seq<Resource>, i: int)
    requires
        well_formed(rs),
        0 <= i < rs.len(),
        rs[i].owner is Some,
    ensures
        descends(rs, i, rs[i].owner->0 as int),
{
    let p = rs[i].owner->0 as int;
    assert(descends(rs, p, p));
}

} // verus!
