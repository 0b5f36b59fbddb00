//! The boundary to the Python runtime: the pyo3 types that values are carried
//! in, and the pyo3 calls the validators make. Nothing in this module is
//! proved; each contract restates what pyo3 documents.

use vstd::prelude::*;
use pyo3::exceptions::PyValueError;
use pyo3::types::{IntoPyDict, PyAny, PyDict, PyTuple};
use pyo3::{Py, PyErr, PyObject, PyResult, Python, ToPyObject};
use crate::errors::{ValLineError, ValResult};

verus! {

/// `pyo3::Python`: the token that stands for the held interpreter lock.
#[verifier::external_type_specification]
#[verifier::external_body]
pub struct ExPython<'py>(Python<'py>);

/// `pyo3::types::PyAny`: a Python object, borrowed while the lock is held.
#[verifier::external_type_specification]
#[verifier::external_body]
pub struct ExPyAny(PyAny);

/// `pyo3::types::PyDict`: a Python dict.
#[verifier::external_type_specification]
#[verifier::external_body]
pub struct ExPyDict(PyDict);

/// `pyo3::types::PyTuple`: a Python tuple.
#[verifier::external_type_specification]
#[verifier::external_body]
pub struct ExPyTuple(PyTuple);

/// `pyo3::PyErr`: a Python exception.
#[verifier::external_type_specification]
#[verifier::external_body]
pub struct ExPyErr(PyErr);

/// `pyo3::Py`: an owned handle to a Python object.
#[verifier::external_type_specification]
#[verifier::external_body]
#[verifier::reject_recursive_types(T)]
pub struct ExPy<T>(Py<T>);

/// The value stored under `key` in a Python dict, if any
/// (`PyDict::get_item`). A configuration is read-only while validators are
/// built from it; of a dict that is changed between two reads this says
/// nothing.
pub uninterp spec fn dict_entry(dict: PyDict, key: Seq<char>) -> Option<PyAny>;

/// Whether Python's `callable()` holds of an object (`PyAny::is_callable`).
pub uninterp spec fn is_invocable(obj: PyAny) -> bool;

/// The owned handle to a Python object (`ToPyObject::to_object`).
pub uninterp spec fn handle_of(obj: PyAny) -> PyObject;

/// `PyDict::get_item`: the item stored under `key`, or `None` when the dict
/// has no such key.
#[verifier::external_body]
pub(crate) fn lookup<'py>(dict: &'py PyDict, key: &str) -> (found: Option<&'py PyAny>)
    ensures
        found.is_some() == dict_entry(*dict, key@).is_some(),
        found.is_some() ==> *found.unwrap() == dict_entry(*dict, key@).unwrap(),
{
    dict.get_item(key)
}

/// `PyAny::is_callable`: Python's `callable(obj)`.
#[verifier::external_body]
pub(crate) fn callable(obj: &PyAny) -> (yes: bool)
    ensures
        yes == is_invocable(*obj),
{
    obj.is_callable()
}

/// `ToPyObject::to_object` on a `PyAny`: a new owned handle to the same
/// Python object.
#[verifier::external_body]
pub(crate) fn to_handle(obj: &PyAny) -> (handle: PyObject)
    ensures
        handle == handle_of(*obj),
{
    obj.to_object(obj.py())
}

/// `Py::as_ref`: borrows the Python object behind an owned handle; the handle
/// of what is borrowed is the handle it was borrowed from.
#[verifier::external_body]
pub(crate) fn borrow<'py>(handle: &'py PyObject, py: Python<'py>) -> (obj: &'py PyAny)
    ensures
        handle_of(*obj) == *handle,
{
    handle.as_ref(py)
}

/// That a call of `func` on the one positional argument `arg` gave `out`
/// (`Py::call`). A relation, not a function: a Python callable may answer
/// two calls on one argument differently.
pub uninterp spec fn hook_gave(func: PyObject, arg: PyAny, out: PyResult<PyObject>) -> bool;

/// `Py::call` with one positional argument and no keyword arguments. What a
/// Python callable returns or raises is up to it: the contract only records
/// that this call of `func` on `arg` gave the result.
#[verifier::external_body]
pub(crate) fn invoke(func: &PyObject, py: Python<'_>, arg: &PyAny) -> (out: PyResult<PyObject>)
    ensures
        hook_gave(*func, *arg, out),
{
    func.call(py, (arg,), None)
}

/// The dict that an object is, if it is one (`PyAny::downcast` to `PyDict`).
pub uninterp spec fn dict_of(obj: PyAny) -> Option<PyDict>;

/// `PyAny::downcast::<PyDict>`: the object as a dict, or `None` when it is
/// not an instance of `dict`.
#[verifier::external_body]
pub(crate) fn as_dict<'py>(obj: &'py PyAny) -> (dict: Option<&'py PyDict>)
    ensures
        dict.is_some() == dict_of(*obj).is_some(),
        dict.is_some() ==> *dict.unwrap() == dict_of(*obj).unwrap(),
{
    obj.downcast::<PyDict>().ok()
}

/// That a call of `func` on the one positional argument `arg` and the one
/// keyword argument `name`, bound to `extra`, gave `out` (`Py::call`). A
/// relation, as `hook_gave` is.
pub uninterp spec fn hook_gave_with(
    func: PyObject,
    arg: PyAny,
    name: Seq<char>,
    extra: PyObject,
    out: PyResult<PyObject>,
) -> bool;

/// `Py::call` with one positional argument and one keyword argument, the
/// keyword dict made by `IntoPyDict::into_py_dict`. The contract only
/// records that this call gave the result.
#[verifier::external_body]
pub(crate) fn invoke_with(
    func: &PyObject,
    py: Python<'_>,
    arg: &PyAny,
    name: &str,
    extra: PyObject,
) -> (out: PyResult<PyObject>)
    ensures
        hook_gave_with(*func, *arg, name@, extra, out),
{
    func.call(py, (arg,), Some([(name, extra)].into_py_dict(py)))
}

/// `Clone` of `Py`: another handle to the same Python object.
pub assume_specification<T>[ <Py<T> as Clone>::clone ](handle: &Py<T>) -> (copy: Py<T>)
    ensures
        copy == *handle,
;

/// The items of a Python tuple, in order. A tuple never changes.
pub uninterp spec fn tuple_items(args: PyTuple) -> Seq<PyAny>;

/// `PyTuple::get_item`, which hands on what `PyTuple_GetItem` gives: the item
/// at `index` where the tuple has one, and otherwise the `IndexError` that
/// Python raises for a position out of bounds.
#[verifier::external_body]
pub(crate) fn item_at<'py>(args: &'py PyTuple, index: usize) -> (item: PyResult<&'py PyAny>)
    ensures
        item is Ok <==> index < tuple_items(*args).len(),
        item is Ok ==> *item->Ok_0 == tuple_items(*args)[index as int],
{
    args.get_item(index)
}

/// `PyTuple::py`: the token that proves the interpreter lock is held while
/// `args` is borrowed.
#[verifier::external_body]
pub(crate) fn token_of<'py>(args: &'py PyTuple) -> (py: Python<'py>)
{
    args.py()
}

/// The Python `ValueError` whose arguments are the rejection records, each
/// as a pair of location and reason, and the label
/// (`PyValueError::new_err`, which only stores its arguments).
pub uninterp spec fn validation_fault(records: Seq<ValLineError>, label: Seq<char>) -> PyErr;

/// `PyValueError::new_err`: a Python `ValueError` whose arguments are the
/// rejection records, each as a pair of location and reason, and the label.
#[verifier::external_body]
pub(crate) fn validation_exception(records: Vec<ValLineError>, label: String) -> (raised: PyErr)
    ensures
        raised == validation_fault(records@, label@),
{
    let rows: Vec<(Vec<String>, String)> =
        records.into_iter().map(|r| (r.location, r.reason)).collect();
    PyValueError::new_err((rows, label))
}

/// That making a Python function which answers calls as a validator with
/// the results `allowed` does gave `made` (`PyCFunction::new_closure`): the
/// function, or the fault for which Python could not make it.
pub uninterp spec fn wrapper_made(
    allowed: spec_fn(PyAny, ValResult<PyObject>) -> bool,
    made: PyResult<PyObject>,
) -> bool;

/// That formatting, with `Debug`, a validator with the results `allowed`
/// gave `text`. A relation: the text is the validator's own to choose.
pub uninterp spec fn debug_gave(
    allowed: spec_fn(PyAny, ValResult<PyObject>) -> bool,
    text: Seq<char>,
) -> bool;

/// `str`'s `==`.
#[verifier::external_body]
pub(crate) fn same_text(a: &str, b: &str) -> (same: bool)
    ensures
        same == (a@ == b@),
{
    a == b
}

} // verus!
