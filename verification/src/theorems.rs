//! What follows from the decorators' contracts, for every validator they
//! may wrap.

use vstd::prelude::*;
use pyo3::types::{PyAny, PyDict};
use pyo3::{PyErr, PyObject, PyResult};
use crate::decorator::{
    after_hook, after_inner, after_wrapper, classified, context_label, function_of,
    is_rejection, replied, section_of, surfaced, wrapper_keyword, PostDecoratorValidator,
    PreDecoratorValidator, Raised, WrapDecoratorValidator,
};
use crate::errors::{BuildError, ValError, ValResult};
use crate::host::{
    dict_entry, handle_of, hook_gave, hook_gave_with, validation_fault, wrapper_made,
};
use crate::validator::{allowed_by, TypeValidator};

verus! {

/// A pre-decorated validator calls its function on the input; the inner
/// validator is given what the function returned, never the input itself,
/// and its result is the decorator's; a fault of the function is the
/// internal error that is returned.
pub proof fn pre_validates_function_output<V: TypeValidator>(
    pre: PreDecoratorValidator<V>,
    obj: PyAny,
    out: ValResult<PyObject>,
)
    requires
        pre.outcome(obj, out),
    ensures
        exists|called: PyResult<PyObject>| #[trigger]
            hook_gave(pre.hook(), obj, called) && match called {
                Err(fault) => out == Err::<PyObject, ValError>(ValError::InternalErr(fault)),
                Ok(value) => exists|passed: PyAny|
                    handle_of(passed) == value && #[trigger] pre.inner().outcome(passed, out),
            },
{
    let called = choose|called: PyResult<PyObject>| #[trigger]
        hook_gave(pre.hook(), obj, called) && after_hook(pre.inner(), called, out);
    assert(hook_gave(pre.hook(), obj, called));
}

/// A pre-decorated validator rejects an input only with a rejection that
/// its inner validator gave for a value it was passed: the function's own
/// faults are always internal errors.
pub proof fn pre_rejection_is_inner<V: TypeValidator>(
    pre: PreDecoratorValidator<V>,
    obj: PyAny,
    out: ValResult<PyObject>,
)
    requires
        pre.outcome(obj, out),
        is_rejection(out),
    ensures
        exists|passed: PyAny| #[trigger] pre.inner().outcome(passed, out),
{
    let called = choose|called: PyResult<PyObject>| #[trigger]
        hook_gave(pre.hook(), obj, called) && after_hook(pre.inner(), called, out);
    assert(called is Ok);
    let passed = choose|passed: PyAny|
        handle_of(passed) == called->Ok_0 && #[trigger] pre.inner().outcome(passed, out);
    assert(pre.inner().outcome(passed, out));
}

/// Where the inner validator fails on an input, a post-decorated validator
/// fails with that very failure.
pub proof fn post_failure_unchanged<V: TypeValidator>(
    post: PostDecoratorValidator<V>,
    obj: PyAny,
    failure: ValError,
    out: ValResult<PyObject>,
)
    requires
        post.outcome(obj, out),
        forall|inner: ValResult<PyObject>| #[trigger]
            post.inner().outcome(obj, inner) ==> inner == Err::<PyObject, ValError>(failure),
    ensures
        out == Err::<PyObject, ValError>(failure),
{
    let inner = choose|inner: ValResult<PyObject>| #[trigger]
        post.inner().outcome(obj, inner) && after_inner(post.hook(), inner, out);
    assert(inner == Err::<PyObject, ValError>(failure));
}

/// Where the inner validator accepts an input, a post-decorated validator
/// calls its function on the accepted value, and the result is what that
/// call gave: the return value, or the fault as an internal error.
pub proof fn post_success_is_function_output<V: TypeValidator>(
    post: PostDecoratorValidator<V>,
    obj: PyAny,
    out: ValResult<PyObject>,
)
    requires
        post.outcome(obj, out),
        forall|inner: ValResult<PyObject>| #[trigger] post.inner().outcome(obj, inner) ==> inner is Ok,
    ensures
        exists|passed: PyAny, called: PyResult<PyObject>| #[trigger]
            hook_gave(post.hook(), passed, called) && post.inner().outcome(
                obj,
                Ok::<PyObject, ValError>(handle_of(passed)),
            ) && out == classified(called),
        !is_rejection(out),
{
    let inner = choose|inner: ValResult<PyObject>| #[trigger]
        post.inner().outcome(obj, inner) && after_inner(post.hook(), inner, out);
    assert(inner is Ok);
    let (passed, called) = choose|passed: PyAny, called: PyResult<PyObject>|
        handle_of(passed) == inner->Ok_0 && #[trigger] hook_gave(post.hook(), passed, called)
            && out == classified(called);
    assert(inner == Ok::<PyObject, ValError>(handle_of(passed)));
    assert(hook_gave(post.hook(), passed, called));
}

/// What the function of a post-decorated validator gave for the accepted
/// value decides the result: its return value is returned, its fault is
/// the internal error.
pub proof fn post_result_is_classified(
    hook: PyObject,
    value: PyObject,
    out: ValResult<PyObject>,
)
    requires
        after_inner(hook, Ok::<PyObject, ValError>(value), out),
    ensures
        exists|passed: PyAny, called: PyResult<PyObject>| #[trigger]
            hook_gave(hook, passed, called) && handle_of(passed) == value && match called {
                Ok(output) => out == Ok::<PyObject, ValError>(output),
                Err(fault) => out == Err::<PyObject, ValError>(ValError::InternalErr(fault)),
            },
{
    let (passed, called) = choose|passed: PyAny, called: PyResult<PyObject>|
        handle_of(passed) == value && #[trigger] hook_gave(hook, passed, called) && out
            == classified(called);
    assert(hook_gave(hook, passed, called));
}

/// A post-decorated validator rejects an input only with a rejection that
/// its inner validator gave for the same input.
pub proof fn post_rejection_is_inner<V: TypeValidator>(
    post: PostDecoratorValidator<V>,
    obj: PyAny,
    out: ValResult<PyObject>,
)
    requires
        post.outcome(obj, out),
        is_rejection(out),
    ensures
        post.inner().outcome(obj, out),
{
    let inner = choose|inner: ValResult<PyObject>| #[trigger]
        post.inner().outcome(obj, inner) && after_inner(post.hook(), inner, out);
    assert(inner is Err);
}

/// A wrap-decorated validator that could make the callable view calls its
/// function on the input with the view under the keyword "validator", and
/// the result is what that call gave, whatever the inner validator would
/// say of the input: it is never a rejection.
pub proof fn wrap_result_is_function_output<V: TypeValidator + Send + 'static>(
    wrap: WrapDecoratorValidator<V>,
    obj: PyAny,
    out: ValResult<PyObject>,
)
    requires
        wrap.outcome(obj, out),
    ensures
        !is_rejection(out),
        exists|made: PyResult<PyObject>| #[trigger]
            wrapper_made(allowed_by(wrap.inner()), made) && match made {
                Err(fault) => out == Err::<PyObject, ValError>(ValError::InternalErr(fault)),
                Ok(wrapper) => exists|called: PyResult<PyObject>| #[trigger]
                    hook_gave_with(wrap.hook(), obj, wrapper_keyword(), wrapper, called) && out
                        == classified(called),
            },
{
    let made = choose|made: PyResult<PyObject>| #[trigger]
        wrapper_made(allowed_by(wrap.inner()), made) && after_wrapper(wrap.hook(), obj, made, out);
    assert(wrapper_made(allowed_by(wrap.inner()), made));
}

/// Where the callable view was made and the function of a wrap-decorated
/// validator returns `value` whatever the view would say, the result is
/// `value`: the inner validator has no say, also on an input that it would
/// reject.
pub proof fn wrap_function_decides(
    hook: PyObject,
    obj: PyAny,
    wrapper: PyObject,
    value: PyObject,
    out: ValResult<PyObject>,
)
    requires
        after_wrapper(hook, obj, Ok::<PyObject, PyErr>(wrapper), out),
        forall|called: PyResult<PyObject>| #[trigger]
            hook_gave_with(hook, obj, wrapper_keyword(), wrapper, called) ==> called == Ok::<
                PyObject,
                PyErr,
            >(value),
    ensures
        out == Ok::<PyObject, ValError>(value),
{
    let called = choose|called: PyResult<PyObject>| #[trigger]
        hook_gave_with(hook, obj, wrapper_keyword(), wrapper, called) && out == classified(called);
    assert(called == Ok::<PyObject, PyErr>(value));
}

/// A call from user code answers a rejection with exactly its records under
/// the fixed label, an internal fault with that fault, and an accepted value
/// with the value.
pub proof fn surfacing_keeps_kind_and_content(result: ValResult<PyObject>, out: Result<PyObject, Raised>)
    requires
        surfaced(result, out),
    ensures
        result is Ok <==> out is Ok,
        result matches Ok(value) ==> out == Ok::<PyObject, Raised>(value),
        is_rejection(result) <==> out matches Err(Raised::Validation { .. }),
        result matches Err(ValError::LineErrors(records)) ==> out matches Err(
            Raised::Validation { line_errors, label },
        ) && line_errors == records && label@ == context_label(),
        result matches Err(ValError::InternalErr(fault)) ==> out == Err::<PyObject, Raised>(
            Raised::Internal(fault),
        ),
{
}

/// A call from Python raises a rejection as the exception that carries
/// exactly its records under the fixed label, and an internal fault as it
/// came.
pub proof fn reply_keeps_records_and_faults(result: ValResult<PyObject>, out: PyResult<PyObject>)
    requires
        replied(result, out),
    ensures
        result is Ok <==> out is Ok,
        result matches Err(ValError::LineErrors(records)) ==> out == Err::<PyObject, PyErr>(
            validation_fault(records@, context_label()),
        ),
        result matches Err(ValError::InternalErr(fault)) ==> out == Err::<PyObject, PyErr>(fault),
{
}

/// No pre-decorated validator is built from a configuration whose function
/// is missing or cannot be called; and where the "field" section is there
/// and the inner validator builds, the error is the one that names the key.
pub proof fn pre_build_fails_fast<V: TypeValidator>(
    dict: PyDict,
    out: Result<PreDecoratorValidator<V>, BuildError>,
)
    requires
        PreDecoratorValidator::<V>::built(dict, out),
        function_of(dict_entry(dict, "pre_decorator"@), "pre_decorator"@) is Err,
    ensures
        out is Err,
        section_of(dict_entry(dict, "field"@), "field"@) matches Ok(field) && (forall|
            inner: Result<V, BuildError>,
        | #[trigger] V::built(field, inner) ==> inner is Ok) ==> out->Err_0.message@ == function_of(
            dict_entry(dict, "pre_decorator"@),
            "pre_decorator"@,
        )->Err_0,
{
}

/// No post-decorated validator is built from a configuration whose function
/// is missing or cannot be called; and where the "field" section is there
/// and the inner validator builds, the error is the one that names the key.
pub proof fn post_build_fails_fast<V: TypeValidator>(
    dict: PyDict,
    out: Result<PostDecoratorValidator<V>, BuildError>,
)
    requires
        PostDecoratorValidator::<V>::built(dict, out),
        function_of(dict_entry(dict, "post_decorator"@), "post_decorator"@) is Err,
    ensures
        out is Err,
        section_of(dict_entry(dict, "field"@), "field"@) matches Ok(field) && (forall|
            inner: Result<V, BuildError>,
        | #[trigger] V::built(field, inner) ==> inner is Ok) ==> out->Err_0.message@ == function_of(
            dict_entry(dict, "post_decorator"@),
            "post_decorator"@,
        )->Err_0,
{
}

/// No wrap-decorated validator is built from a configuration whose function
/// is missing or cannot be called; and where the "field" section is there
/// and the inner validator builds, the error is the one that names the key.
pub proof fn wrap_build_fails_fast<V: TypeValidator + Send + 'static>(
    dict: PyDict,
    out: Result<WrapDecoratorValidator<V>, BuildError>,
)
    requires
        WrapDecoratorValidator::<V>::built(dict, out),
        function_of(dict_entry(dict, "wrap_decorator"@), "wrap_decorator"@) is Err,
    ensures
        out is Err,
        section_of(dict_entry(dict, "field"@), "field"@) matches Ok(field) && (forall|
            inner: Result<V, BuildError>,
        | #[trigger] V::built(field, inner) ==> inner is Ok) ==> out->Err_0.message@ == function_of(
            dict_entry(dict, "wrap_decorator"@),
            "wrap_decorator"@,
        )->Err_0,
{
}

/// A built decorator holds exactly the callable that the configuration
/// stores under the decorator's key.
pub proof fn pre_build_keeps_function<V: TypeValidator>(
    dict: PyDict,
    out: Result<PreDecoratorValidator<V>, BuildError>,
)
    requires
        PreDecoratorValidator::<V>::built(dict, out),
        out is Ok,
    ensures
        function_of(dict_entry(dict, "pre_decorator"@), "pre_decorator"@) == Ok::<PyObject, Seq<char>>(
            out->Ok_0.hook(),
        ),
{
}

/// A built decorator holds exactly the callable that the configuration
/// stores under the decorator's key.
pub proof fn post_build_keeps_function<V: TypeValidator>(
    dict: PyDict,
    out: Result<PostDecoratorValidator<V>, BuildError>,
)
    requires
        PostDecoratorValidator::<V>::built(dict, out),
        out is Ok,
    ensures
        function_of(dict_entry(dict, "post_decorator"@), "post_decorator"@) == Ok::<PyObject, Seq<char>>(
            out->Ok_0.hook(),
        ),
{
}

/// A built decorator holds exactly the callable that the configuration
/// stores under the decorator's key.
pub proof fn wrap_build_keeps_function<V: TypeValidator + Send + 'static>(
    dict: PyDict,
    out: Result<WrapDecoratorValidator<V>, BuildError>,
)
    requires
        WrapDecoratorValidator::<V>::built(dict, out),
        out is Ok,
    ensures
        function_of(dict_entry(dict, "wrap_decorator"@), "wrap_decorator"@) == Ok::<PyObject, Seq<char>>(
            out->Ok_0.hook(),
        ),
{
}

} // verus!
