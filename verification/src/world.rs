use vstd::prelude::*;

use crate::access::{Mutability, StorageId, TypeInfo, TypeInfoV};
use crate::error::RunError;

verus! {

/// The shared execution context handed by reference to every thunk.
///
/// Thunks use it to request typed access views. This context is minimal: it
/// records which storages exist, and grants a view for any declared access
/// whose storage is present. Runtime lock arbitration between systems is the
/// concern of an owning scheduler and its access arbiter, not of this core.
pub struct World {
    pub storages: Vec<StorageId>,
}

/// A runtime-acquired handle granting a system access, in the recorded mode,
/// to one storage for the duration of one run.
#[derive(Clone, Copy, Debug, PartialEq, Eq, Structural)]
pub struct ViewHandle {
    pub storage_id: StorageId,
    pub mutability: Mutability,
}

/// The view that one access record acquires when the context grants it.
pub open spec fn handle_of(t: TypeInfoV) -> ViewHandle {
    ViewHandle { storage_id: t.storage_id, mutability: t.mutability }
}

/// The views for a whole access list, in list order.
pub open spec fn handles_of(cs: Seq<TypeInfoV>) -> Seq<ViewHandle> {
    cs.map_values(|t: TypeInfoV| handle_of(t))
}

/// Whether the context can grant access to a storage: the whole-set handle
/// is always grantable, an ordinary storage must be present.
pub open spec fn spec_grants(w: World, sid: StorageId) -> bool {
    sid == StorageId::AllStorages || w.storages@.contains(sid)
}

/// Whether the context can grant every access of a list.
pub open spec fn all_granted(w: World, cs: Seq<TypeInfoV>) -> bool {
    forall|i: int| 0 <= i < cs.len() ==> spec_grants(w, (#[trigger] cs[i]).storage_id)
}

/// The failure of acquiring a list of accesses in order: some access is not
/// grantable, every earlier one is, and the error names its storage.
pub open spec fn spec_denial(w: World, cs: Seq<TypeInfoV>, e: RunError) -> bool {
    exists|i: int|
        {
            &&& 0 <= i < cs.len()
            &&& !spec_grants(w, (#[trigger] cs[i]).storage_id)
            &&& (forall|j: int| 0 <= j < i ==> spec_grants(w, (#[trigger] cs[j]).storage_id))
            &&& e == RunError::MissingStorage(cs[i].storage_id)
        }
}

impl World {
    /// A context with no storages yet.
    pub fn new() -> (w: World)
        ensures
            w.storages@ == Seq::<StorageId>::empty(),
    {
        World { storages: Vec::new() }
    }

    /// Makes one more storage available in this context.
    pub fn add_storage(&mut self, sid: StorageId)
        ensures
            final(self).storages@ == old(self).storages@.push(sid),
    {
        self.storages.push(sid);
    }

    /// Produces the view a declared access asks for, or fails with the run
    /// failure naming the missing storage.
    pub fn acquire(&self, info: &TypeInfo) -> (r: Result<ViewHandle, RunError>)
        ensures
            r is Ok <==> spec_grants(*self, info@.storage_id),
            (match r {
                Ok(v) => v == handle_of(info@),
                Err(e) => e == RunError::MissingStorage(info@.storage_id),
            }),
    {
        let granted = match info.storage_id {
            StorageId::AllStorages => true,
            StorageId::Unique(_) => {
                let mut found = false;
                let mut k: usize = 0;
                while k < self.storages.len()
                    invariant
                        k <= self.storages@.len(),
                        found <==> exists|i: int|
                            0 <= i < k && self.storages@[i] == info.storage_id,
                    decreases self.storages@.len() - k,
                {
                    if self.storages[k] == info.storage_id {
                        found = true;
                    }
                    k += 1;
                }
                found
            },
        };
        if granted {
            Ok(ViewHandle { storage_id: info.storage_id, mutability: info.mutability })
        } else {
            Err(RunError::MissingStorage(info.storage_id))
        }
    }
}

/// Acquires every declared access of a list from the context, in the order
/// the list was built, and propagates the first acquisition failure.
pub fn acquire_views(world: &World, constraints: &Vec<TypeInfo>) -> (r: Result<
    Vec<ViewHandle>,
    RunError,
>)
    ensures
        (match r {
            Ok(vs) => all_granted(*world, constraints.deep_view()) && vs@ == handles_of(
                constraints.deep_view(),
            ),
            Err(e) => spec_denial(*world, constraints.deep_view(), e),
        }),
        r is Ok <==> all_granted(*world, constraints.deep_view()),
{
    let ghost cs = constraints.deep_view();
    let mut views: Vec<ViewHandle> = Vec::new();
    let mut i: usize = 0;
    while i < constraints.len()
        invariant
            i <= constraints@.len(),
            cs == constraints.deep_view(),
            cs.len() == constraints@.len(),
            views@.len() == i,
            forall|j: int| 0 <= j < i ==> spec_grants(*world, (#[trigger] cs[j]).storage_id),
            forall|j: int| 0 <= j < i ==> views@[j] == handle_of(#[trigger] cs[j]),
        decreases constraints@.len() - i,
    {
        let info = &constraints[i];
        proof {
            assert(info@ == cs[i as int]);
        }
        match world.acquire(info) {
            Ok(v) => {
                views.push(v);
            },
            Err(e) => {
                return Err(e);
            },
        }
        i += 1;
    }
    proof {
        assert(views@ =~= handles_of(cs));
    }
    Ok(views)
}

} // verus!
