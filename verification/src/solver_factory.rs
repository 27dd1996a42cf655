//! Making the solver that a selector names.

use crate::codec::selector_of;
use crate::contracts_abi::AdditionalData;
use crate::primitives::Hash32;
use crate::solver::{SolverError, SolverParams};
use crate::solvers::limit_order::{LimitOrderSolver, APP_SELECTOR};
use crate::text::{hash_text, hash_to_text, join_text};
use vstd::prelude::*;

verus! {

/// Makes solvers by selector.
#[derive(Clone, Copy, Debug, PartialEq, Eq)]
pub struct SolverFactory;

/// Why the factory made no solver.
#[derive(Clone, Debug, PartialEq, Eq)]
pub enum SolverFactoryError {
    /// No policy has this selector.
    UnknownSelector(Hash32),
    /// The policy of the selector could not make its solver.
    SolverError(SolverError),
}

impl SolverFactoryError {
    /// The text that describes this error.
    pub open spec fn text(self) -> Seq<char> {
        match self {
            SolverFactoryError::UnknownSelector(id) => "UnknownSelector: "@ + hash_text(id@),
            SolverFactoryError::SolverError(error) => error.text(),
        }
    }

    /// Describes this error in words.
    pub fn to_string(&self) -> (r: String)
        ensures
            r@ == self.text(),
    {
        match self {
            SolverFactoryError::UnknownSelector(id) => {
                let short = hash_to_text(id);
                join_text("UnknownSelector: ", short.as_str())
            },
            SolverFactoryError::SolverError(error) => error.to_string(),
        }
    }
}

impl SolverFactory {
    /// Makes the solver of the policy that `selector` names, from the named
    /// parameters of an event. The one policy that the factory knows is the
    /// limit order.
    pub fn new_solver(
        selector: &Hash32,
        params: &Vec<AdditionalData>,
        solver_params: &SolverParams,
    ) -> (r: Result<LimitOrderSolver, SolverFactoryError>)
        ensures
            if selector@ != selector_of(APP_SELECTOR@) {
                r matches Err(SolverFactoryError::UnknownSelector(id)) && id@ == selector@
            } else {
                match LimitOrderSolver::named_construction_error(
                    selector@,
                    params@,
                    *solver_params,
                ) {
                    Some(expected) => (r matches Err(SolverFactoryError::SolverError(error))
                        && error@ == expected),
                    None => (r matches Ok(solver) && solver.built_from_named(
                        params@,
                        *solver_params,
                        None,
                    )),
                }
            },
    {
        let limit_order = LimitOrderSolver::selector();
        if *selector != limit_order {
            return Err(SolverFactoryError::UnknownSelector(*selector));
        }
        match LimitOrderSolver::from_named(selector, params, solver_params) {
            Ok(solver) => Ok(solver),
            Err(error) => Err(SolverFactoryError::SolverError(error)),
        }
    }
}

} // verus!
