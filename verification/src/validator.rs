//! The interface every validation node implements.

use vstd::prelude::*;
use pyo3::types::{PyAny, PyDict};
use pyo3::{PyObject, Python};
use crate::errors::{BuildError, ValResult};

verus! {

/// A node of a validation tree.
pub trait TypeValidator: Sized {
    /// The results this node may give for an input. Validation runs user
    /// code, so a node relates an input to the results it allows rather
    /// than to one result. A node that states nothing allows every result.
    open spec fn outcome(&self, obj: PyAny, out: ValResult<PyObject>) -> bool {
        true
    }

    /// The results that building this kind of node from a configuration may
    /// give. A kind that states nothing allows every result.
    open spec fn built(dict: PyDict, out: Result<Self, BuildError>) -> bool {
        true
    }

    /// Whether a configuration of kind `type_` selects this kind of node.
    fn is_match(type_: &str, dict: &PyDict) -> bool;

    /// Builds the node, and the nodes under it, from a configuration.
    fn build(dict: &PyDict) -> (out: Result<Self, BuildError>)
        ensures
            Self::built(*dict, out),
    ;

    /// Validates `obj`.
    fn validate(&self, py: Python<'_>, obj: &PyAny) -> (out: ValResult<PyObject>)
        ensures
            self.outcome(*obj, out),
    ;

    /// An independent copy of the node and of the nodes under it: it allows
    /// the results that the original allows.
    fn clone_dyn(&self) -> (copy: Self)
        ensures
            forall|obj: PyAny, out: ValResult<PyObject>|
                #[trigger] copy.outcome(obj, out) == self.outcome(obj, out),
    ;
}

/// The results that a validator allows, as a relation between an input and
/// a result: what is known of a validator wherever its type is not.
pub open spec fn allowed_by<V: TypeValidator>(v: V) -> spec_fn(PyAny, ValResult<PyObject>) -> bool {
    |obj: PyAny, out: ValResult<PyObject>| v.outcome(obj, out)
}

} // verus!
