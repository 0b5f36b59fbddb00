//! The three decorator validators and the callable view of a validator.

use vstd::prelude::*;
use vstd::string::StringExecFns;
use pyo3::types::{PyAny, PyCFunction, PyDict, PyTuple};
use pyo3::{PyErr, PyObject, PyResult, Python};
use crate::errors::{BuildError, ValError, ValLineError, ValResult};
use crate::host::{
    as_dict, borrow, callable, dict_entry, dict_of, handle_of, hook_gave, hook_gave_with,
    invoke, invoke_with, is_invocable, item_at, lookup, same_text, to_handle, token_of,
    debug_gave, tuple_items, validation_exception, validation_fault, wrapper_made,
};
use crate::validator::{allowed_by, TypeValidator};

verus! {

/// The message of the build error for a key that the configuration lacks.
pub open spec fn required_message(key: Seq<char>) -> Seq<char> {
    key + " is required"@
}

/// The message of the build error for a key whose value cannot be called.
pub open spec fn not_callable_message(key: Seq<char>) -> Seq<char> {
    key + " must be callable"@
}

/// The message of the build error for a key whose value is not a mapping.
pub open spec fn not_dict_message(key: Seq<char>) -> Seq<char> {
    key + " must be a dict"@
}

/// The callable that a configuration holds under `key`, or the message of
/// the build error when `entry`, the value under that key, is absent or
/// cannot be called.
pub open spec fn function_of(entry: Option<PyAny>, key: Seq<char>) -> Result<PyObject, Seq<char>> {
    match entry {
        None => Err(required_message(key)),
        Some(obj) => if is_invocable(obj) {
            Ok(handle_of(obj))
        } else {
            Err(not_callable_message(key))
        },
    }
}

/// The nested configuration that a configuration holds under `key`, or the
/// message of the build error.
pub open spec fn section_of(entry: Option<PyAny>, key: Seq<char>) -> Result<PyDict, Seq<char>> {
    match entry {
        None => Err(required_message(key)),
        Some(obj) => match dict_of(obj) {
            Some(dict) => Ok(dict),
            None => Err(not_dict_message(key)),
        },
    }
}

/// Whether a configuration of kind `kind` with `entry` under a decorator's
/// key selects that decorator.
pub open spec fn selects(kind: Seq<char>, entry: Option<PyAny>) -> bool {
    kind == "decorator"@ && entry is Some
}

/// A fault of the callable, as the decorators report it: always internal.
pub open spec fn classified(called: PyResult<PyObject>) -> ValResult<PyObject> {
    match called {
        Ok(output) => Ok(output),
        Err(fault) => Err(ValError::InternalErr(fault)),
    }
}

/// Whether a result is an expected rejection of the input.
pub open spec fn is_rejection(out: ValResult<PyObject>) -> bool {
    out matches Err(ValError::LineErrors(_))
}

/// How the result of a pre-decorated validation follows from what the call
/// of the function on the input gave: its fault as an internal error; else
/// the result of `inner` for the very object that it returned.
pub open spec fn after_hook<V: TypeValidator>(
    inner: V,
    called: PyResult<PyObject>,
    out: ValResult<PyObject>,
) -> bool {
    match called {
        Err(fault) => out == Err::<PyObject, ValError>(ValError::InternalErr(fault)),
        Ok(value) => exists|passed: PyAny|
            handle_of(passed) == value && #[trigger] inner.outcome(passed, out),
    }
}

/// How the result of a post-decorated validation follows from the inner
/// validator's: a failure unchanged; after an accepted value, what a call of
/// `hook` on that value gave.
pub open spec fn after_inner(hook: PyObject, inner: ValResult<PyObject>, out: ValResult<PyObject>) -> bool {
    match inner {
        Err(e) => out == Err::<PyObject, ValError>(e),
        Ok(value) => exists|passed: PyAny, called: PyResult<PyObject>|
            handle_of(passed) == value && #[trigger] hook_gave(hook, passed, called) && out
                == classified(called),
    }
}

/// The name of the keyword argument under which a wrap-decorated validator
/// hands the callable view of its inner validator to the function.
pub open spec fn wrapper_keyword() -> Seq<char> {
    "validator"@
}

/// How the result of a wrap-decorated validation of `obj` follows from what
/// making the callable view gave: the fault of making it as an internal
/// error; else what a call of `hook` on `obj`, with the view under its
/// keyword, gave.
pub open spec fn after_wrapper(
    hook: PyObject,
    obj: PyAny,
    made: PyResult<PyObject>,
    out: ValResult<PyObject>,
) -> bool {
    match made {
        Err(fault) => out == Err::<PyObject, ValError>(ValError::InternalErr(fault)),
        Ok(wrapper) => exists|called: PyResult<PyObject>| #[trigger]
            hook_gave_with(hook, obj, wrapper_keyword(), wrapper, called) && out == classified(
                called,
            ),
    }
}

/// The Python exception for what a call of the validator raises: for a
/// rejection the exception that carries its records and label; an internal
/// fault is itself the exception.
pub open spec fn raised_as(raised: Raised) -> PyErr {
    match raised {
        Raised::Validation { line_errors, label } => validation_fault(line_errors@, label@),
        Raised::Internal(fault) => fault,
    }
}

/// The label under which a rejection is raised to user code.
pub open spec fn context_label() -> Seq<char> {
    "Model"@
}

/// How a call of the validator from user code answers a validation result.
pub open spec fn surfaced(result: ValResult<PyObject>, out: Result<PyObject, Raised>) -> bool {
    match result {
        Ok(value) => out == Ok::<PyObject, Raised>(value),
        Err(ValError::LineErrors(records)) => out matches Err(
            Raised::Validation { line_errors, label },
        ) && line_errors == records && label@ == context_label(),
        Err(ValError::InternalErr(fault)) => out == Err::<PyObject, Raised>(Raised::Internal(fault)),
    }
}

/// How a call from Python answers a validation result: an accepted value is
/// returned, an internal fault is raised as it is, and a rejection is raised
/// as the exception that carries its records under the fixed label.
pub open spec fn replied(result: ValResult<PyObject>, out: PyResult<PyObject>) -> bool {
    match result {
        Ok(value) => out == Ok::<PyObject, PyErr>(value),
        Err(ValError::InternalErr(fault)) => out == Err::<PyObject, PyErr>(fault),
        Err(ValError::LineErrors(records)) => out == Err::<PyObject, PyErr>(
            validation_fault(records@, context_label()),
        ),
    }
}

fn about(key: &str, tail: &str) -> (text: String)
    ensures
        text@ == key@ + tail@,
{
    String::from_str(key).concat(tail)
}

/// Reads the callable stored under `key` in a configuration: an error that
/// names the key when it is absent or its value cannot be called.
pub fn get_function(dict: &PyDict, key: &str) -> (hook: Result<PyObject, BuildError>)
    ensures
        match function_of(dict_entry(*dict, key@), key@) {
            Ok(handle) => hook == Ok::<PyObject, BuildError>(handle),
            Err(message) => hook is Err && hook->Err_0.message@ == message,
        },
{
    match lookup(dict, key) {
        Some(obj) => {
            if !callable(obj) {
                return Err(BuildError { message: about(key, " must be callable") });
            }
            Ok(to_handle(obj))
        },
        None => Err(BuildError { message: about(key, " is required") }),
    }
}

/// Reads the nested configuration stored under `key`.
pub fn get_section<'py>(dict: &'py PyDict, key: &str) -> (section: Result<&'py PyDict, BuildError>)
    ensures
        match section_of(dict_entry(*dict, key@), key@) {
            Ok(inner) => section is Ok && *section->Ok_0 == inner,
            Err(message) => section is Err && section->Err_0.message@ == message,
        },
{
    match lookup(dict, key) {
        Some(obj) => match as_dict(obj) {
            Some(inner) => Ok(inner),
            None => Err(BuildError { message: about(key, " must be a dict") }),
        },
        None => Err(BuildError { message: about(key, " is required") }),
    }
}

/// Whether a configuration is a decorator's: its kind is "decorator" and it
/// has an entry under the decorator's own key.
pub fn is_decorator(type_: &str, dict: &PyDict, key: &str) -> (yes: bool)
    ensures
        yes == selects(type_@, dict_entry(*dict, key@)),
{
    same_text(type_, "decorator") && lookup(dict, key).is_some()
}

/// Turns what a call of the user's function gave into a validation result:
/// its return value, or its fault as an internal error.
pub fn classify(called: PyResult<PyObject>) -> (out: ValResult<PyObject>)
    ensures
        out == classified(called),
{
    match called {
        Ok(output) => Ok(output),
        Err(fault) => Err(ValError::InternalErr(fault)),
    }
}

/// Two inner validators that allow the same results give a pre-decorated
/// validation the same results.
proof fn same_after_hook<V: TypeValidator>(
    a: V,
    b: V,
    called: PyResult<PyObject>,
    out: ValResult<PyObject>,
)
    requires
        forall|obj: PyAny, r: ValResult<PyObject>| #[trigger] a.outcome(obj, r) == b.outcome(obj, r),
        after_hook(a, called, out),
    ensures
        after_hook(b, called, out),
{
    if let Ok(value) = called {
        let passed = choose|passed: PyAny|
            handle_of(passed) == value && #[trigger] a.outcome(passed, out);
        assert(b.outcome(passed, out));
    }
}

/// A validator that hands its input to a function first and validates what
/// the function returns.
#[derive(Debug, Clone)]
pub struct PreDecoratorValidator<V> {
    validator: V,
    func: PyObject,
}

impl<V: TypeValidator> PreDecoratorValidator<V> {
    /// The validator that is decorated.
    pub closed spec fn inner(&self) -> V {
        self.validator
    }

    /// The function that transforms the input.
    pub closed spec fn hook(&self) -> PyObject {
        self.func
    }

    /// What building gives once the inner validator's own build gave
    /// `inner`: its error unchanged; else the error for the function's key;
    /// else the decorator made of the two.
    pub open spec fn assembled(inner: Result<V, BuildError>, dict: PyDict, out: Result<Self, BuildError>) -> bool {
        match inner {
            Err(e) => out == Err::<Self, BuildError>(e),
            Ok(v) => match function_of(dict_entry(dict, "pre_decorator"@), "pre_decorator"@) {
                Ok(handle) => out is Ok && out->Ok_0.inner() == v && out->Ok_0.hook() == handle,
                Err(message) => out is Err && out->Err_0.message@ == message,
            },
        }
    }

    /// The decorator for an inner validator that was built, or failed to
    /// build, from the "field" section of `dict`.
    pub fn assemble(inner: Result<V, BuildError>, dict: &PyDict) -> (out: Result<Self, BuildError>)
        ensures
            Self::assembled(inner, *dict, out),
    {
        match inner {
            Err(e) => Err(e),
            Ok(validator) => match get_function(dict, "pre_decorator") {
                Err(e) => Err(e),
                Ok(func) => Ok(Self { validator, func }),
            },
        }
    }

    /// The result of a validation whose call of the function gave `called`:
    /// a fault is an internal error; a value goes to the inner validator,
    /// whose result is the decorator's.
    pub fn validate_output(&self, py: Python<'_>, called: PyResult<PyObject>) -> (out: ValResult<PyObject>)
        ensures
            after_hook(self.inner(), called, out),
    {
        match classify(called) {
            Err(fault) => Err(fault),
            Ok(value) => {
                let v = borrow(&value, py);
                let out = self.validator.validate(py, v);
                assert(self.inner().outcome(*v, out));
                out
            },
        }
    }
}

impl<V: TypeValidator> TypeValidator for PreDecoratorValidator<V> {
    /// The function was called on the input, and the result follows from
    /// what it gave: its fault, or the inner validator's result for what it
    /// returned.
    open spec fn outcome(&self, obj: PyAny, out: ValResult<PyObject>) -> bool {
        exists|called: PyResult<PyObject>| #[trigger]
            hook_gave(self.hook(), obj, called) && after_hook(self.inner(), called, out)
    }

    fn is_match(type_: &str, dict: &PyDict) -> (yes: bool)
        ensures
            yes == selects(type_@, dict_entry(*dict, "pre_decorator"@)),
    {
        is_decorator(type_, dict, "pre_decorator")
    }

    /// The "field" section is read first, then the inner validator is built
    /// from it, then the function is read.
    open spec fn built(dict: PyDict, out: Result<Self, BuildError>) -> bool {
        match section_of(dict_entry(dict, "field"@), "field"@) {
            Err(message) => out is Err && out->Err_0.message@ == message,
            Ok(field) => exists|inner: Result<V, BuildError>|
                #[trigger] V::built(field, inner) && Self::assembled(inner, dict, out),
        }
    }

    fn build(dict: &PyDict) -> (out: Result<Self, BuildError>)
    {
        match get_section(dict, "field") {
            Err(e) => Err(e),
            Ok(field) => {
                let inner = V::build(field);
                assert(V::built(*field, inner));
                Self::assemble(inner, dict)
            },
        }
    }

    fn validate(&self, py: Python<'_>, obj: &PyAny) -> (out: ValResult<PyObject>)
    {
        let called = invoke(&self.func, py, obj);
        let ghost given = called;
        let out = self.validate_output(py, called);
        assert(hook_gave(self.hook(), *obj, given) && after_hook(self.inner(), given, out));
        out
    }

    fn clone_dyn(&self) -> (copy: Self)
        ensures
            copy.hook() == self.hook(),
            forall|obj: PyAny, out: ValResult<PyObject>| #[trigger]
                copy.inner().outcome(obj, out) == self.inner().outcome(obj, out),
    {
        let copy = Self { validator: self.validator.clone_dyn(), func: self.func.clone() };
        assert forall|obj: PyAny, out: ValResult<PyObject>|
            #[trigger] copy.outcome(obj, out) == self.outcome(obj, out) by {
            if self.outcome(obj, out) {
                let called = choose|called: PyResult<PyObject>| #[trigger]
                    hook_gave(self.hook(), obj, called) && after_hook(self.inner(), called, out);
                same_after_hook(self.inner(), copy.inner(), called, out);
                assert(hook_gave(copy.hook(), obj, called));
            }
            if copy.outcome(obj, out) {
                let called = choose|called: PyResult<PyObject>| #[trigger]
                    hook_gave(copy.hook(), obj, called) && after_hook(copy.inner(), called, out);
                same_after_hook(copy.inner(), self.inner(), called, out);
                assert(hook_gave(self.hook(), obj, called));
            }
        }
        copy
    }
}

/// A validator that validates its input first and hands what the inner
/// validator accepted to a function, whose return value is the result.
#[derive(Debug, Clone)]
pub struct PostDecoratorValidator<V> {
    validator: V,
    func: PyObject,
}

impl<V: TypeValidator> PostDecoratorValidator<V> {
    /// The validator that is decorated.
    pub closed spec fn inner(&self) -> V {
        self.validator
    }

    /// The function that transforms the validated value.
    pub closed spec fn hook(&self) -> PyObject {
        self.func
    }

    /// What building gives once the inner validator's own build gave
    /// `inner`: its error unchanged; else the error for the function's key;
    /// else the decorator made of the two.
    pub open spec fn assembled(inner: Result<V, BuildError>, dict: PyDict, out: Result<Self, BuildError>) -> bool {
        match inner {
            Err(e) => out == Err::<Self, BuildError>(e),
            Ok(v) => match function_of(dict_entry(dict, "post_decorator"@), "post_decorator"@) {
                Ok(handle) => out is Ok && out->Ok_0.inner() == v && out->Ok_0.hook() == handle,
                Err(message) => out is Err && out->Err_0.message@ == message,
            },
        }
    }

    /// The decorator for an inner validator that was built, or failed to
    /// build, from the "field" section of `dict`.
    pub fn assemble(inner: Result<V, BuildError>, dict: &PyDict) -> (out: Result<Self, BuildError>)
        ensures
            Self::assembled(inner, *dict, out),
    {
        match inner {
            Err(e) => Err(e),
            Ok(validator) => match get_function(dict, "post_decorator") {
                Err(e) => Err(e),
                Ok(func) => Ok(Self { validator, func }),
            },
        }
    }

    /// The result of a validation whose inner validator gave `inner`: a
    /// failure is handed on unchanged and the function is not called; an
    /// accepted value goes to the function, whose return value is the result
    /// and whose fault is an internal error.
    pub fn finish(&self, py: Python<'_>, inner: ValResult<PyObject>) -> (out: ValResult<PyObject>)
        ensures
            after_inner(self.hook(), inner, out),
    {
        match inner {
            Err(e) => Err(e),
            Ok(v) => {
                let passed = borrow(&v, py);
                let called = invoke(&self.func, py, passed);
                assert(hook_gave(self.hook(), *passed, called));
                classify(called)
            },
        }
    }
}

impl<V: TypeValidator> TypeValidator for PostDecoratorValidator<V> {
    /// The inner validator gave some result for the same input, and the
    /// decorator's result follows from it.
    open spec fn outcome(&self, obj: PyAny, out: ValResult<PyObject>) -> bool {
        exists|inner: ValResult<PyObject>|
            #[trigger] self.inner().outcome(obj, inner) && after_inner(self.hook(), inner, out)
    }

    fn is_match(type_: &str, dict: &PyDict) -> (yes: bool)
        ensures
            yes == selects(type_@, dict_entry(*dict, "post_decorator"@)),
    {
        is_decorator(type_, dict, "post_decorator")
    }

    /// The "field" section is read first, then the inner validator is built
    /// from it, then the function is read.
    open spec fn built(dict: PyDict, out: Result<Self, BuildError>) -> bool {
        match section_of(dict_entry(dict, "field"@), "field"@) {
            Err(message) => out is Err && out->Err_0.message@ == message,
            Ok(field) => exists|inner: Result<V, BuildError>|
                #[trigger] V::built(field, inner) && Self::assembled(inner, dict, out),
        }
    }

    fn build(dict: &PyDict) -> (out: Result<Self, BuildError>)
    {
        match get_section(dict, "field") {
            Err(e) => Err(e),
            Ok(field) => {
                let inner = V::build(field);
                assert(V::built(*field, inner));
                Self::assemble(inner, dict)
            },
        }
    }

    fn validate(&self, py: Python<'_>, obj: &PyAny) -> (out: ValResult<PyObject>)
    {
        let inner = self.validator.validate(py, obj);
        assert(self.inner().outcome(*obj, inner));
        self.finish(py, inner)
    }

    fn clone_dyn(&self) -> (copy: Self)
        ensures
            copy.hook() == self.hook(),
            forall|obj: PyAny, out: ValResult<PyObject>| #[trigger]
                copy.inner().outcome(obj, out) == self.inner().outcome(obj, out),
    {
        let copy = Self { validator: self.validator.clone_dyn(), func: self.func.clone() };
        assert forall|obj: PyAny, out: ValResult<PyObject>|
            #[trigger] copy.outcome(obj, out) == self.outcome(obj, out) by {
            if self.outcome(obj, out) {
                let inner = choose|inner: ValResult<PyObject>|
                    #[trigger] self.inner().outcome(obj, inner) && after_inner(self.hook(), inner, out);
                assert(copy.inner().outcome(obj, inner));
            }
            if copy.outcome(obj, out) {
                let inner = choose|inner: ValResult<PyObject>|
                    #[trigger] copy.inner().outcome(obj, inner) && after_inner(copy.hook(), inner, out);
                assert(self.inner().outcome(obj, inner));
            }
        }
        copy
    }
}

/// A validator that hands its input to a function together with a callable
/// view of the inner validator, and leaves the rest to the function.
#[derive(Debug, Clone)]
pub struct WrapDecoratorValidator<V> {
    validator: V,
    func: PyObject,
}

impl<V: TypeValidator> WrapDecoratorValidator<V> {
    /// The validator that is decorated.
    pub closed spec fn inner(&self) -> V {
        self.validator
    }

    /// The function that is given the input and the inner validator.
    pub closed spec fn hook(&self) -> PyObject {
        self.func
    }

    /// What building gives once the inner validator's own build gave
    /// `inner`: its error unchanged; else the error for the function's key;
    /// else the decorator made of the two.
    pub open spec fn assembled(inner: Result<V, BuildError>, dict: PyDict, out: Result<Self, BuildError>) -> bool {
        match inner {
            Err(e) => out == Err::<Self, BuildError>(e),
            Ok(v) => match function_of(dict_entry(dict, "wrap_decorator"@), "wrap_decorator"@) {
                Ok(handle) => out is Ok && out->Ok_0.inner() == v && out->Ok_0.hook() == handle,
                Err(message) => out is Err && out->Err_0.message@ == message,
            },
        }
    }

    /// The decorator for an inner validator that was built, or failed to
    /// build, from the "field" section of `dict`.
    pub fn assemble(inner: Result<V, BuildError>, dict: &PyDict) -> (out: Result<Self, BuildError>)
        ensures
            Self::assembled(inner, *dict, out),
    {
        match inner {
            Err(e) => Err(e),
            Ok(validator) => match get_function(dict, "wrap_decorator") {
                Err(e) => Err(e),
                Ok(func) => Ok(Self { validator, func }),
            },
        }
    }


    /// The inner validator as the function gets it: a callable view of a
    /// copy of it, made anew for each validation, which allows the results
    /// that the inner validator allows.
    pub fn callable_view(&self) -> (view: ValidatorCallable<V>)
        ensures
            forall|obj: PyAny, out: ValResult<PyObject>| #[trigger]
                view.wrapped().outcome(obj, out) == self.inner().outcome(obj, out),
    {
        ValidatorCallable::new(self.validator.clone_dyn())
    }
}

impl<V: TypeValidator + Send + 'static> TypeValidator for WrapDecoratorValidator<V> {
    /// The callable view of the inner validator was made, and the result
    /// follows from that: the fault of making it, or what the call of the
    /// function on the input and the view gave.
    open spec fn outcome(&self, obj: PyAny, out: ValResult<PyObject>) -> bool {
        exists|made: PyResult<PyObject>| #[trigger]
            wrapper_made(allowed_by(self.inner()), made) && after_wrapper(
                self.hook(),
                obj,
                made,
                out,
            )
    }

    fn is_match(type_: &str, dict: &PyDict) -> (yes: bool)
        ensures
            yes == selects(type_@, dict_entry(*dict, "wrap_decorator"@)),
    {
        is_decorator(type_, dict, "wrap_decorator")
    }

    /// The "field" section is read first, then the inner validator is built
    /// from it, then the function is read.
    open spec fn built(dict: PyDict, out: Result<Self, BuildError>) -> bool {
        match section_of(dict_entry(dict, "field"@), "field"@) {
            Err(message) => out is Err && out->Err_0.message@ == message,
            Ok(field) => exists|inner: Result<V, BuildError>|
                #[trigger] V::built(field, inner) && Self::assembled(inner, dict, out),
        }
    }

    fn build(dict: &PyDict) -> (out: Result<Self, BuildError>)
    {
        match get_section(dict, "field") {
            Err(e) => Err(e),
            Ok(field) => {
                let inner = V::build(field);
                assert(V::built(*field, inner));
                Self::assemble(inner, dict)
            },
        }
    }

    fn validate(&self, py: Python<'_>, obj: &PyAny) -> (out: ValResult<PyObject>)
    {
        let validator_kwarg = self.callable_view();
        let ghost view = validator_kwarg;
        let made = expose(validator_kwarg, py);
        let ghost given = made;
        let out = match made {
            Err(fault) => Err(ValError::InternalErr(fault)),
            Ok(wrapper) => {
                let called = invoke_with(&self.func, py, obj, "validator", wrapper);
                assert(hook_gave_with(self.hook(), *obj, wrapper_keyword(), wrapper, called));
                classify(called)
            },
        };
        assert(allowed_by(view.wrapped()) =~= allowed_by(self.inner()));
        assert(wrapper_made(allowed_by(self.inner()), given) && after_wrapper(
            self.hook(),
            *obj,
            given,
            out,
        ));
        out
    }

    fn clone_dyn(&self) -> (copy: Self)
        ensures
            copy.hook() == self.hook(),
            forall|obj: PyAny, out: ValResult<PyObject>| #[trigger]
                copy.inner().outcome(obj, out) == self.inner().outcome(obj, out),
    {
        let copy = Self { validator: self.validator.clone_dyn(), func: self.func.clone() };
        assert(allowed_by(copy.inner()) =~= allowed_by(self.inner()));
        copy
    }
}

/// What a call of the validator raises to user code.
#[derive(Debug)]
pub enum Raised {
    /// The input was rejected: the records, under a fixed label.
    Validation { line_errors: Vec<ValLineError>, label: String },
    /// An internal fault, handed on as it came.
    Internal(PyErr),
}

/// A validator as user code sees it: one callable that validates its
/// argument and raises where the validator fails.
#[derive(Debug, Clone)]
pub struct ValidatorCallable<V> {
    type_validator: V,
}

/// `PyCFunction::new_closure`: a Python function that, when called, answers
/// with `respond` of the given callable on the positional arguments. Making
/// the function can fail; the contract records that the result is what
/// making it for a validator with the callable's results gave.
#[verifier::external_body]
fn expose<V: TypeValidator + Send + 'static>(target: ValidatorCallable<V>, py: Python<'_>) -> (made: PyResult<PyObject>)
    ensures
        wrapper_made(allowed_by(target.wrapped()), made),
{
    PyCFunction::new_closure(move |args: &PyTuple, _kwargs: Option<&PyDict>| target.respond(args), py)
        .map(|f| f.into())
}

/// `Debug` formatting of a validator through `format!`. What the text is
/// the validator's `Debug` decides: the contract only records that the
/// formatting of this validator gave it.
#[verifier::external_body]
fn debug_text<V: TypeValidator + core::fmt::Debug>(value: &V) -> (text: String)
    ensures
        debug_gave(allowed_by(*value), text@),
{
    format!("{:?}", value)
}

/// The text that stands for a callable whose validator is described by
/// `inner`.
pub open spec fn repr_text(inner: Seq<char>) -> Seq<char> {
    "ValidatorCallable("@ + inner + ")"@
}

impl<V: TypeValidator> ValidatorCallable<V> {
    /// The validator that a call runs.
    pub closed spec fn wrapped(&self) -> V {
        self.type_validator
    }

    /// Whether `value` is a result with which the validator accepts some
    /// argument.
    pub open spec fn accepts(&self, value: PyObject) -> bool {
        exists|arg: PyAny| #[trigger] self.wrapped().outcome(arg, Ok::<PyObject, ValError>(value))
    }

    /// The callable view of `type_validator`.
    pub fn new(type_validator: V) -> (made: Self)
        ensures
            made.wrapped() == type_validator,
    {
        Self { type_validator }
    }

    /// Answers a validation result as user code expects it: the value
    /// itself, the rejection records under the fixed label, or the internal
    /// fault unchanged.
    pub fn surface(result: ValResult<PyObject>) -> (out: Result<PyObject, Raised>)
        ensures
            surfaced(result, out),
    {
        match result {
            Ok(obj) => Ok(obj),
            Err(ValError::LineErrors(line_errors)) => Err(
                Raised::Validation { line_errors, label: String::from_str("Model") },
            ),
            Err(ValError::InternalErr(err)) => Err(Raised::Internal(err)),
        }
    }

    /// Validates `arg` and answers as `surface` says.
    pub fn __call__(&self, py: Python<'_>, arg: &PyAny) -> (out: Result<PyObject, Raised>)
        ensures
            exists|result: ValResult<PyObject>|
                #[trigger] self.wrapped().outcome(*arg, result) && surfaced(result, out),
    {
        let result = self.type_validator.validate(py, arg);
        assert(self.wrapped().outcome(*arg, result));
        Self::surface(result)
    }

    /// The Python exception for what a call raises: for a rejection the
    /// exception that carries its records and label; an internal fault is
    /// itself the exception.
    pub fn exception(raised: Raised) -> (err: PyErr)
        ensures
            err == raised_as(raised),
    {
        match raised {
            Raised::Validation { line_errors, label } => validation_exception(line_errors, label),
            Raised::Internal(fault) => fault,
        }
    }

    /// Answers a call from Python with positional arguments `args`: the
    /// first argument is validated and the result answered as `replied`
    /// says; without an argument, Python's own error for the missing item
    /// is raised.
    pub fn respond(&self, args: &PyTuple) -> (out: PyResult<PyObject>)
        ensures
            tuple_items(*args).len() == 0 ==> out is Err,
            tuple_items(*args).len() > 0 ==> exists|result: ValResult<PyObject>| #[trigger]
                self.wrapped().outcome(tuple_items(*args)[0], result) && replied(result, out),
            out matches Ok(value) ==> self.accepts(value),
    {
        match item_at(args, 0) {
            Err(fault) => Err(fault),
            Ok(arg) => {
                let raw = self.__call__(token_of(args), arg);
                let ghost result = choose|result: ValResult<PyObject>| #[trigger]
                    self.wrapped().outcome(*arg, result) && surfaced(result, raw);
                let out = match raw {
                    Ok(value) => Ok(value),
                    Err(raised) => Err(Self::exception(raised)),
                };
                proof {
                    assert(self.wrapped().outcome(tuple_items(*args)[0], result));
                    assert(replied(result, out));
                    if out is Ok {
                        assert(result == Ok::<PyObject, ValError>(out->Ok_0));
                        assert(self.accepts(out->Ok_0));
                    }
                }
                out
            },
        }
    }

    /// The text that stands for a callable around a validator described by
    /// `inner`.
    pub fn repr_of(inner: &str) -> (text: String)
        ensures
            text@ == repr_text(inner@),
    {
        String::from_str("ValidatorCallable(").concat(inner).concat(")")
    }
}

impl<V: TypeValidator + core::fmt::Debug> ValidatorCallable<V> {
    /// A text that names the validator inside, for diagnostics: the text
    /// that formatting the wrapped validator gave, in the callable's frame.
    pub fn __repr__(&self) -> (text: String)
        ensures
            exists|inner: Seq<char>| #[trigger]
                debug_gave(allowed_by(self.wrapped()), inner) && text@ == repr_text(inner),
    {
        let inner = debug_text(&self.type_validator);
        let text = Self::repr_of(inner.as_str());
        assert(debug_gave(allowed_by(self.wrapped()), inner@) && text@ == repr_text(inner@));
        text
    }
}

} // verus!
