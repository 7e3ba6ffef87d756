use vstd::prelude::*;

use crate::access::{collect_borrows, flat_borrows, ParamInfo, TypeInfoV};
use crate::error::InvalidSystem;
use crate::system::{
    DiscardThunk, PlainThunk, TryThunk, ViewDiscardThunk, ViewThunk, ViewTryThunk, WorkloadSystem,
};
use crate::validate::{check_constraints, lemma_validate_empty, validate_spec};
use crate::world::ViewHandle;

verus! {

/// Marker for the conversion of a zero-argument callable: no parameter is
/// tracked, so the unit declares no access.
pub struct Untracked;

/// Marker for the conversion of a callable driven by an ordered list of
/// parameter descriptors, each resolved to views at run time.
pub struct WithViews;

/// A zero-argument callable bundled with its registration identity: a
/// per-callable token generated at the call site and a display name.
pub struct SystemFn<F> {
    pub token: u64,
    pub name: String,
    pub f: F,
}

/// A callable taking views, bundled with its registration identity and the
/// ordered descriptors of its parameters: each descriptor contributes the
/// access records of one parameter, in declared order.
pub struct ViewSystemFn<F> {
    pub token: u64,
    pub name: String,
    pub params: Vec<ParamInfo>,
    pub f: F,
}

/// Turns a callable, or an already-built unit, into a [`WorkloadSystem`].
///
/// Conversion accumulates the access descriptors of every parameter, in
/// declared order, into one list; rejects the unit with an
/// [`InvalidSystem`] exactly when the conflict validator does; and on
/// acceptance assembles the descriptor around a thunk wrapping the original
/// callable. `B` marks the conversion shape, `R` the callable's return
/// shape; usually neither is named directly.
pub trait IntoWorkloadSystem<B, R>: Sized {
    /// The thunk type of the unit `into_workload_system` produces.
    type Thunk;

    /// The thunk type of the unit `into_workload_try_system` produces.
    type TryThunk;

    /// What each parameter of the callable contributes to the access list,
    /// in declared order.
    spec fn declared_params(&self) -> Seq<Seq<TypeInfoV>>;

    /// The stable type-identity token of the originating callable.
    spec fn type_token(&self) -> u64;

    /// The human-readable name of the originating callable.
    spec fn type_label(&self) -> Seq<char>;

    /// What must hold of this value before conversion; an already-built unit
    /// must satisfy its descriptor invariant.
    spec fn convertible(&self) -> bool;

    /// Whether a produced unit wraps this value's own callable.
    spec fn wraps(&self, ws: &WorkloadSystem<Self::Thunk>) -> bool;

    /// Whether a produced failable unit wraps this value's own callable.
    spec fn wraps_try(&self, ws: &WorkloadSystem<Self::TryThunk>) -> bool;

    /// Wraps the callable in a unit carrying all information a workload
    /// needs. Construction is all-or-nothing: the result is the validated
    /// descriptor, or the exact error the validator decides for the
    /// accumulated access list, and nothing is registered on failure.
    fn into_workload_system(self) -> (r: Result<WorkloadSystem<Self::Thunk>, InvalidSystem>)
        requires
            self.convertible(),
        ensures
            (match r {
                Ok(ws) => {
                    &&& ws.wf()
                    &&& ws.generator.deep_view() == self.declared_params()
                    &&& ws.borrow_constraints.deep_view() == flat_borrows(self.declared_params())
                    &&& ws.system_type_id == self.type_token()
                    &&& ws.system_type_name@ == self.type_label()
                    &&& self.wraps(&ws)
                },
                Err(e) => validate_spec(flat_borrows(self.declared_params())) == Err::<
                    (),
                    InvalidSystem,
                >(e),
            }),
    ;

    /// Wraps a failable callable in a unit carrying all information a
    /// workload needs; the produced thunk converts the callable's outcome
    /// into the uniform run result. Validation is identical to
    /// `into_workload_system`.
    fn into_workload_try_system(self) -> (r: Result<WorkloadSystem<Self::TryThunk>, InvalidSystem>)
        requires
            self.convertible(),
        ensures
            (match r {
                Ok(ws) => {
                    &&& ws.wf()
                    &&& ws.generator.deep_view() == self.declared_params()
                    &&& ws.borrow_constraints.deep_view() == flat_borrows(self.declared_params())
                    &&& ws.system_type_id == self.type_token()
                    &&& ws.system_type_name@ == self.type_label()
                    &&& self.wraps_try(&ws)
                },
                Err(e) => validate_spec(flat_borrows(self.declared_params())) == Err::<
                    (),
                    InvalidSystem,
                >(e),
            }),
    ;
}

impl<F: Fn() + Send + Sync + 'static> IntoWorkloadSystem<Untracked, ()> for SystemFn<F> {
    type Thunk = PlainThunk<F>;

    type TryThunk = PlainThunk<F>;

    open spec fn declared_params(&self) -> Seq<Seq<TypeInfoV>> {
        Seq::empty()
    }

    open spec fn type_token(&self) -> u64 {
        self.token
    }

    open spec fn type_label(&self) -> Seq<char> {
        self.name@
    }

    open spec fn convertible(&self) -> bool {
        true
    }

    open spec fn wraps(&self, ws: &WorkloadSystem<PlainThunk<F>>) -> bool {
        ws.system_fn == (PlainThunk { f: self.f })
    }

    open spec fn wraps_try(&self, ws: &WorkloadSystem<PlainThunk<F>>) -> bool {
        ws.system_fn == (PlainThunk { f: self.f })
    }

    fn into_workload_system(self) -> (r: Result<WorkloadSystem<PlainThunk<F>>, InvalidSystem>) {
        let SystemFn { token, name, f } = self;
        let ws = WorkloadSystem {
            borrow_constraints: Vec::new(),
            system_fn: PlainThunk { f },
            system_type_id: token,
            system_type_name: name,
            generator: Vec::new(),
        };
        proof {
            assert(ws.borrow_constraints.deep_view() =~= Seq::<TypeInfoV>::empty());
            assert(ws.generator.deep_view() =~= Seq::<Seq<TypeInfoV>>::empty());
            assert(flat_borrows(ws.generator.deep_view()) =~= Seq::<TypeInfoV>::empty());
            lemma_validate_empty();
        }
        Ok(ws)
    }

    fn into_workload_try_system(self) -> (r: Result<WorkloadSystem<PlainThunk<F>>, InvalidSystem>) {
        let SystemFn { token, name, f } = self;
        let ws = WorkloadSystem {
            borrow_constraints: Vec::new(),
            system_fn: PlainThunk { f },
            system_type_id: token,
            system_type_name: name,
            generator: Vec::new(),
        };
        proof {
            assert(ws.borrow_constraints.deep_view() =~= Seq::<TypeInfoV>::empty());
            assert(ws.generator.deep_view() =~= Seq::<Seq<TypeInfoV>>::empty());
            assert(flat_borrows(ws.generator.deep_view()) =~= Seq::<TypeInfoV>::empty());
            lemma_validate_empty();
        }
        Ok(ws)
    }
}

impl<F: Fn() -> Result<(), String> + Send + Sync + 'static> IntoWorkloadSystem<
    Untracked,
    Result<(), String>,
> for SystemFn<F> {
    type Thunk = DiscardThunk<F>;

    type TryThunk = TryThunk<F>;

    open spec fn declared_params(&self) -> Seq<Seq<TypeInfoV>> {
        Seq::empty()
    }

    open spec fn type_token(&self) -> u64 {
        self.token
    }

    open spec fn type_label(&self) -> Seq<char> {
        self.name@
    }

    open spec fn convertible(&self) -> bool {
        true
    }

    open spec fn wraps(&self, ws: &WorkloadSystem<DiscardThunk<F>>) -> bool {
        ws.system_fn == (DiscardThunk { f: self.f })
    }

    open spec fn wraps_try(&self, ws: &WorkloadSystem<TryThunk<F>>) -> bool {
        ws.system_fn == (TryThunk { f: self.f })
    }

    fn into_workload_system(self) -> (r: Result<WorkloadSystem<DiscardThunk<F>>, InvalidSystem>) {
        let SystemFn { token, name, f } = self;
        let ws = WorkloadSystem {
            borrow_constraints: Vec::new(),
            system_fn: DiscardThunk { f },
            system_type_id: token,
            system_type_name: name,
            generator: Vec::new(),
        };
        proof {
            assert(ws.borrow_constraints.deep_view() =~= Seq::<TypeInfoV>::empty());
            assert(ws.generator.deep_view() =~= Seq::<Seq<TypeInfoV>>::empty());
            assert(flat_borrows(ws.generator.deep_view()) =~= Seq::<TypeInfoV>::empty());
            lemma_validate_empty();
        }
        Ok(ws)
    }

    fn into_workload_try_system(self) -> (r: Result<WorkloadSystem<TryThunk<F>>, InvalidSystem>) {
        let SystemFn { token, name, f } = self;
        let ws = WorkloadSystem {
            borrow_constraints: Vec::new(),
            system_fn: TryThunk { f },
            system_type_id: token,
            system_type_name: name,
            generator: Vec::new(),
        };
        proof {
            assert(ws.borrow_constraints.deep_view() =~= Seq::<TypeInfoV>::empty());
            assert(ws.generator.deep_view() =~= Seq::<Seq<TypeInfoV>>::empty());
            assert(flat_borrows(ws.generator.deep_view()) =~= Seq::<TypeInfoV>::empty());
            lemma_validate_empty();
        }
        Ok(ws)
    }
}

impl<F: Fn(Vec<ViewHandle>) + Send + Sync + 'static> IntoWorkloadSystem<WithViews, ()> for ViewSystemFn<F> {
    type Thunk = ViewThunk<F>;

    type TryThunk = ViewThunk<F>;

    open spec fn declared_params(&self) -> Seq<Seq<TypeInfoV>> {
        self.params.deep_view()
    }

    open spec fn type_token(&self) -> u64 {
        self.token
    }

    open spec fn type_label(&self) -> Seq<char> {
        self.name@
    }

    open spec fn convertible(&self) -> bool {
        true
    }

    open spec fn wraps(&self, ws: &WorkloadSystem<ViewThunk<F>>) -> bool {
        ws.system_fn == (ViewThunk { f: self.f })
    }

    open spec fn wraps_try(&self, ws: &WorkloadSystem<ViewThunk<F>>) -> bool {
        ws.system_fn == (ViewThunk { f: self.f })
    }

    fn into_workload_system(self) -> (r: Result<WorkloadSystem<ViewThunk<F>>, InvalidSystem>) {
        let ViewSystemFn { token, name, params, f } = self;
        let borrows = collect_borrows(&params);
        match check_constraints(&borrows) {
            Ok(_) => Ok(
                WorkloadSystem {
                    borrow_constraints: borrows,
                    system_fn: ViewThunk { f },
                    system_type_id: token,
                    system_type_name: name,
                    generator: params,
                },
            ),
            Err(e) => Err(e),
        }
    }

    fn into_workload_try_system(self) -> (r: Result<WorkloadSystem<ViewThunk<F>>, InvalidSystem>) {
        let ViewSystemFn { token, name, params, f } = self;
        let borrows = collect_borrows(&params);
        match check_constraints(&borrows) {
            Ok(_) => Ok(
                WorkloadSystem {
                    borrow_constraints: borrows,
                    system_fn: ViewThunk { f },
                    system_type_id: token,
                    system_type_name: name,
                    generator: params,
                },
            ),
            Err(e) => Err(e),
        }
    }
}

impl<F: Fn(Vec<ViewHandle>) -> Result<(), String> + Send + Sync + 'static> IntoWorkloadSystem<
    WithViews,
    Result<(), String>,
> for ViewSystemFn<F> {
    type Thunk = ViewDiscardThunk<F>;

    type TryThunk = ViewTryThunk<F>;

    open spec fn declared_params(&self) -> Seq<Seq<TypeInfoV>> {
        self.params.deep_view()
    }

    open spec fn type_token(&self) -> u64 {
        self.token
    }

    open spec fn type_label(&self) -> Seq<char> {
        self.name@
    }

    open spec fn convertible(&self) -> bool {
        true
    }

    open spec fn wraps(&self, ws: &WorkloadSystem<ViewDiscardThunk<F>>) -> bool {
        ws.system_fn == (ViewDiscardThunk { f: self.f })
    }

    open spec fn wraps_try(&self, ws: &WorkloadSystem<ViewTryThunk<F>>) -> bool {
        ws.system_fn == (ViewTryThunk { f: self.f })
    }

    fn into_workload_system(self) -> (r: Result<WorkloadSystem<ViewDiscardThunk<F>>, InvalidSystem>) {
        let ViewSystemFn { token, name, params, f } = self;
        let borrows = collect_borrows(&params);
        match check_constraints(&borrows) {
            Ok(_) => Ok(
                WorkloadSystem {
                    borrow_constraints: borrows,
                    system_fn: ViewDiscardThunk { f },
                    system_type_id: token,
                    system_type_name: name,
                    generator: params,
                },
            ),
            Err(e) => Err(e),
        }
    }

    fn into_workload_try_system(self) -> (r: Result<
        WorkloadSystem<ViewTryThunk<F>>,
        InvalidSystem,
    >) {
        let ViewSystemFn { token, name, params, f } = self;
        let borrows = collect_borrows(&params);
        match check_constraints(&borrows) {
            Ok(_) => Ok(
                WorkloadSystem {
                    borrow_constraints: borrows,
                    system_fn: ViewTryThunk { f },
                    system_type_id: token,
                    system_type_name: name,
                    generator: params,
                },
            ),
            Err(e) => Err(e),
        }
    }
}

impl<T> IntoWorkloadSystem<(), ()> for WorkloadSystem<T> {
    type Thunk = T;

    type TryThunk = T;

    open spec fn declared_params(&self) -> Seq<Seq<TypeInfoV>> {
        self.generator.deep_view()
    }

    open spec fn type_token(&self) -> u64 {
        self.system_type_id
    }

    open spec fn type_label(&self) -> Seq<char> {
        self.system_type_name@
    }

    open spec fn convertible(&self) -> bool {
        self.wf()
    }

    open spec fn wraps(&self, ws: &WorkloadSystem<T>) -> bool {
        *ws == *self
    }

    open spec fn wraps_try(&self, ws: &WorkloadSystem<T>) -> bool {
        *ws == *self
    }

    fn into_workload_system(self) -> (r: Result<WorkloadSystem<T>, InvalidSystem>) {
        Ok(self)
    }

    fn into_workload_try_system(self) -> (r: Result<WorkloadSystem<T>, InvalidSystem>) {
        Ok(self)
    }
}

} // verus!
