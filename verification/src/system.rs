use vstd::prelude::*;

use crate::access::{flat_borrows, ParamInfo, TypeInfo};
use crate::error::RunError;
use crate::validate::validate_spec;
use crate::world::{acquire_views, all_granted, handles_of, spec_denial, ViewHandle, World};

verus! {

/// One registered, immutable unit of work: the ordered access list its
/// parameters declared, the executable thunk wrapping the callable, a stable
/// type-identity token with a human-readable name, and the capture-free
/// parameter descriptors from which the access list can be regenerated
/// without the thunk instance.
pub struct WorkloadSystem<T> {
    pub borrow_constraints: Vec<TypeInfo>,
    pub system_fn: T,
    pub system_type_id: u64,
    pub system_type_name: String,
    pub generator: Vec<ParamInfo>,
}

impl<T> WorkloadSystem<T> {
    /// The descriptor invariant: the access list equals what the stored
    /// parameter descriptors regenerate, and the validator accepted it.
    pub open spec fn wf(&self) -> bool {
        &&& self.borrow_constraints.deep_view() == flat_borrows(self.generator.deep_view())
        &&& validate_spec(self.borrow_constraints.deep_view()) is Ok
    }
}

/// Recomputes, from parameter descriptors alone, the access list an
/// equivalent system would declare: what the stored `generator` of a
/// descriptor yields for an external scheduler, before or without
/// instantiation.
pub fn regenerate_constraints(params: &Vec<ParamInfo>) -> (r: Vec<TypeInfo>)
    ensures
        r.deep_view() == flat_borrows(params.deep_view()),
{
    crate::access::collect_borrows(params)
}

/// The thunk of a zero-argument callable: ignores the execution context and
/// invokes the callable directly.
pub struct PlainThunk<F> {
    pub f: F,
}

/// The thunk of a zero-argument callable whose returned outcome is not
/// inspected: the call's result is discarded and the run succeeds.
pub struct DiscardThunk<F> {
    pub f: F,
}

/// The thunk of a zero-argument failable callable: a reported failure
/// becomes a run failure wrapping the payload.
pub struct TryThunk<F> {
    pub f: F,
}

/// The thunk of a callable taking views: every declared access is acquired
/// from the context, in access-list order, before the callable runs.
pub struct ViewThunk<F> {
    pub f: F,
}

/// As [`ViewThunk`], but the callable's returned outcome is discarded.
pub struct ViewDiscardThunk<F> {
    pub f: F,
}

/// As [`ViewThunk`], for a failable callable: a reported failure becomes a
/// run failure wrapping the payload.
pub struct ViewTryThunk<F> {
    pub f: F,
}

impl<F: Fn() + Send + Sync + 'static> WorkloadSystem<PlainThunk<F>> {
    /// Runs this zero-argument system once: the context is ignored, the
    /// callable is invoked, and the run succeeds.
    pub fn run(&self, _world: &World) -> (r: Result<(), RunError>)
        requires
            call_requires(self.system_fn.f, ()),
        ensures
            r is Ok,
            call_ensures(self.system_fn.f, (), ()),
    {
        (self.system_fn.f)();
        Ok(())
    }
}

impl<F: Fn() -> Result<(), String> + Send + Sync + 'static> WorkloadSystem<DiscardThunk<F>> {
    /// Runs this zero-argument system once: the context is ignored, the
    /// callable is invoked, and whatever outcome it reports is discarded.
    pub fn run(&self, _world: &World) -> (r: Result<(), RunError>)
        requires
            call_requires(self.system_fn.f, ()),
        ensures
            r is Ok,
            exists|out: Result<(), String>| call_ensures(self.system_fn.f, (), out),
    {
        let _ = (self.system_fn.f)();
        Ok(())
    }
}

impl<F: Fn() -> Result<(), String> + Send + Sync + 'static> WorkloadSystem<TryThunk<F>> {
    /// Runs this zero-argument failable system once: the context is ignored;
    /// a failure the callable reports is returned as a run failure wrapping
    /// the payload, distinguishable from success.
    pub fn run(&self, _world: &World) -> (r: Result<(), RunError>)
        requires
            call_requires(self.system_fn.f, ()),
        ensures
            (match r {
                Ok(u) => call_ensures(self.system_fn.f, (), Ok::<(), String>(())),
                Err(RunError::Failure(p)) => call_ensures(self.system_fn.f, (), Err::<(), String>(p)),
                Err(RunError::MissingStorage(_)) => false,
            }),
    {
        let out = (self.system_fn.f)();
        proof {
            assert(call_ensures(self.system_fn.f, (), out));
        }
        match out {
            Ok(u) => Ok(()),
            Err(p) => Err(RunError::Failure(p)),
        }
    }
}

impl<F: Fn(Vec<ViewHandle>) + Send + Sync + 'static> WorkloadSystem<ViewThunk<F>> {
    /// Runs this system once: every declared access is acquired from the
    /// context in access-list order; the first acquisition failure is
    /// propagated as the run's failure without invoking the callable;
    /// otherwise the callable runs on the acquired views and the run
    /// succeeds.
    pub fn run(&self, world: &World) -> (r: Result<(), RunError>)
        requires
            forall|vs: Vec<ViewHandle>| #[trigger] call_requires(self.system_fn.f, (vs,)),
        ensures
            r is Ok <==> all_granted(*world, self.borrow_constraints.deep_view()),
            (match r {
                Ok(u) => exists|vs: Vec<ViewHandle>|
                    vs@ == handles_of(self.borrow_constraints.deep_view()) && call_ensures(
                        self.system_fn.f,
                        (vs,),
                        (),
                    ),
                Err(e) => spec_denial(*world, self.borrow_constraints.deep_view(), e),
            }),
    {
        match acquire_views(world, &self.borrow_constraints) {
            Ok(views) => {
                let ghost vs = views;
                (self.system_fn.f)(views);
                proof {
                    assert(call_ensures(self.system_fn.f, (vs,), ()));
                }
                Ok(())
            },
            Err(e) => Err(e),
        }
    }
}

impl<F: Fn(Vec<ViewHandle>) -> Result<(), String> + Send + Sync + 'static> WorkloadSystem<
    ViewDiscardThunk<F>,
> {
    /// Runs this system once: accesses are acquired as for a view thunk, the
    /// callable runs on the views, and whatever outcome it reports is
    /// discarded.
    pub fn run(&self, world: &World) -> (r: Result<(), RunError>)
        requires
            forall|vs: Vec<ViewHandle>| #[trigger] call_requires(self.system_fn.f, (vs,)),
        ensures
            r is Ok <==> all_granted(*world, self.borrow_constraints.deep_view()),
            (match r {
                Ok(u) => exists|vs: Vec<ViewHandle>, out: Result<(), String>|
                    vs@ == handles_of(self.borrow_constraints.deep_view()) && call_ensures(
                        self.system_fn.f,
                        (vs,),
                        out,
                    ),
                Err(e) => spec_denial(*world, self.borrow_constraints.deep_view(), e),
            }),
    {
        match acquire_views(world, &self.borrow_constraints) {
            Ok(views) => {
                let ghost vs = views;
                let out = (self.system_fn.f)(views);
                proof {
                    assert(call_ensures(self.system_fn.f, (vs,), out));
                }
                Ok(())
            },
            Err(e) => Err(e),
        }
    }
}

impl<F: Fn(Vec<ViewHandle>) -> Result<(), String> + Send + Sync + 'static> WorkloadSystem<
    ViewTryThunk<F>,
> {
    /// Runs this failable system once: accesses are acquired as for a view
    /// thunk; a failure the callable reports is returned as a run failure
    /// wrapping the payload, distinguishable from success.
    pub fn run(&self, world: &World) -> (r: Result<(), RunError>)
        requires
            forall|vs: Vec<ViewHandle>| #[trigger] call_requires(self.system_fn.f, (vs,)),
        ensures
            (match r {
                Ok(u) => all_granted(*world, self.borrow_constraints.deep_view()) && exists|
                    vs: Vec<ViewHandle>,
                |
                    vs@ == handles_of(self.borrow_constraints.deep_view()) && call_ensures(
                        self.system_fn.f,
                        (vs,),
                        Ok::<(), String>(()),
                    ),
                Err(RunError::Failure(p)) => all_granted(
                    *world,
                    self.borrow_constraints.deep_view(),
                ) && exists|vs: Vec<ViewHandle>|
                    vs@ == handles_of(self.borrow_constraints.deep_view()) && call_ensures(
                        self.system_fn.f,
                        (vs,),
                        Err::<(), String>(p),
                    ),
                Err(e) => spec_denial(*world, self.borrow_constraints.deep_view(), e),
            }),
    {
        match acquire_views(world, &self.borrow_constraints) {
            Ok(views) => {
                let ghost vs = views;
                let out = (self.system_fn.f)(views);
                proof {
                    assert(call_ensures(self.system_fn.f, (vs,), out));
                }
                match out {
                    Ok(u) => Ok(()),
                    Err(p) => Err(RunError::Failure(p)),
                }
            },
            Err(e) => Err(e),
        }
    }
}

} // verus!
