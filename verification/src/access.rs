use vstd::prelude::*;

verus! {

/// The access mode of one declared resource requirement.
///
/// `Shared` permits concurrent `Shared` access to the same storage;
/// `Exclusive` permits no concurrent access of either mode. This is a closed
/// two-value domain.
#[derive(Clone, Copy, Debug, PartialEq, Eq, Structural)]
pub enum Mutability {
    Shared,
    Exclusive,
}

/// An opaque, equality-comparable identifier distinguishing logical storages.
///
/// `AllStorages` is the reserved value denoting the entire storage set
/// treated as a single resource (for instance for structural mutation);
/// `Unique` identifies one ordinary storage.
#[derive(Clone, Copy, Debug, PartialEq, Eq, Structural)]
pub enum StorageId {
    AllStorages,
    Unique(u64),
}

/// One declared resource requirement of a parameter type: a label, the
/// storage it touches, the access mode, and two capability flags carried for
/// downstream scheduling decisions but not interpreted here.
#[derive(Debug)]
pub struct TypeInfo {
    pub name: String,
    pub storage_id: StorageId,
    pub mutability: Mutability,
    pub is_send: bool,
    pub is_sync: bool,
}

/// The mathematical value of a [`TypeInfo`].
pub struct TypeInfoV {
    pub name: Seq<char>,
    pub storage_id: StorageId,
    pub mutability: Mutability,
    pub is_send: bool,
    pub is_sync: bool,
}

impl View for TypeInfo {
    type V = TypeInfoV;

    open spec fn view(&self) -> TypeInfoV {
        TypeInfoV {
            name: self.name@,
            storage_id: self.storage_id,
            mutability: self.mutability,
            is_send: self.is_send,
            is_sync: self.is_sync,
        }
    }
}

impl DeepView for TypeInfo {
    type V = TypeInfoV;

    open spec fn deep_view(&self) -> TypeInfoV {
        self.view()
    }
}

impl Clone for TypeInfo {
    fn clone(&self) -> (r: Self)
        ensures
            r@ == self@,
    {
        TypeInfo {
            name: self.name.clone(),
            storage_id: self.storage_id,
            mutability: self.mutability,
            is_send: self.is_send,
            is_sync: self.is_sync,
        }
    }
}

/// What one parameter type of a callable contributes to the access list:
/// zero or more access descriptor records, in a fixed order.
#[derive(Debug)]
pub struct ParamInfo {
    pub borrows: Vec<TypeInfo>,
}

impl DeepView for ParamInfo {
    type V = Seq<TypeInfoV>;

    open spec fn deep_view(&self) -> Seq<TypeInfoV> {
        self.borrows.deep_view()
    }
}

/// The ordered access list accumulated from a parameter list: each
/// parameter's records, concatenated in parameter order. No deduplication is
/// performed.
pub open spec fn flat_borrows(params: Seq<Seq<TypeInfoV>>) -> Seq<TypeInfoV> {
    params.flatten()
}

/// Accumulates the full ordered access list from all parameters, in declared
/// order.
pub fn collect_borrows(params: &Vec<ParamInfo>) -> (r: Vec<TypeInfo>)
    ensures
        r.deep_view() == flat_borrows(params.deep_view()),
{
    let mut acc: Vec<TypeInfo> = Vec::new();
    let ghost pv = params.deep_view();
    proof {
        assert(pv.take(0) =~= Seq::<Seq<TypeInfoV>>::empty());
        assert(acc.deep_view() =~= pv.take(0).flatten());
    }
    let mut i: usize = 0;
    while i < params.len()
        invariant
            i <= params.len(),
            pv == params.deep_view(),
            pv.len() == params@.len(),
            acc.deep_view() == pv.take(i as int).flatten(),
        decreases params.len() - i,
    {
        let row = &params[i].borrows;
        let mut j: usize = 0;
        while j < row.len()
            invariant
                i < params.len(),
                j <= row.len(),
                row == &params@[i as int].borrows,
                pv == params.deep_view(),
                pv.len() == params@.len(),
                acc.deep_view() == pv.take(i as int).flatten() + pv[i as int].take(j as int),
        decreases row.len() - j,
        {
            let entry = row[j].clone();
            proof {
                assert(row.deep_view()[j as int] == row@[j as int]@);
                assert(entry@ == pv[i as int][j as int]);
            }
            let ghost prev = acc.deep_view();
            acc.push(entry);
            proof {
                assert(acc.deep_view() =~= prev.push(entry@));
                assert(pv[i as int].take(j as int + 1) =~= pv[i as int].take(j as int).push(
                    pv[i as int][j as int],
                ));
                assert(acc.deep_view() =~= pv.take(i as int).flatten() + pv[i as int].take(
                    j as int + 1,
                ));
            }
            j += 1;
        }
        proof {
            assert(pv[i as int].take(j as int) =~= pv[i as int]);
            assert(pv.take(i as int).push(pv[i as int]) =~= pv.take(i as int + 1));
            pv.take(i as int).lemma_flatten_push(pv[i as int]);
            assert(acc.deep_view() =~= pv.take(i as int + 1).flatten());
        }
        i += 1;
    }
    proof {
        assert(pv.take(i as int) =~= pv);
    }
    acc
}

} // verus!
