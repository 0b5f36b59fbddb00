use decorator_validators::decorator::{
    get_function, get_section, is_decorator, classify, PostDecoratorValidator,
    PreDecoratorValidator, Raised, ValidatorCallable, WrapDecoratorValidator,
};
use decorator_validators::errors::{BuildError, ValError, ValLineError, ValResult};
use decorator_validators::validator::TypeValidator;
use pyo3::exceptions::{PyKeyError, PyValueError};
use pyo3::types::{PyAny, PyDict, PyTuple};
use pyo3::{IntoPy, PyErr, PyObject, Python};
use std::sync::atomic::{AtomicUsize, Ordering};

static INNER_RUNS: AtomicUsize = AtomicUsize::new(0);

const NOT_AN_INT: &str = "Value is not a valid integer";

#[derive(Debug, Clone)]
struct IntValidator;

impl TypeValidator for IntValidator {
    fn is_match(type_: &str, _dict: &PyDict) -> bool {
        type_ == "int"
    }

    fn build(dict: &PyDict) -> Result<Self, BuildError> {
        if dict.get_item("broken").is_some() {
            return Err(BuildError { message: "no validator matches".to_string() });
        }
        Ok(IntValidator)
    }

    fn validate(&self, py: Python<'_>, obj: &PyAny) -> ValResult<PyObject> {
        INNER_RUNS.fetch_add(1, Ordering::SeqCst);
        match obj.extract::<i64>() {
            Ok(i) => Ok(i.into_py(py)),
            Err(_) => Err(ValError::LineErrors(vec![ValLineError {
                location: vec!["value".to_string()],
                reason: NOT_AN_INT.to_string(),
            }])),
        }
    }

    fn clone_dyn(&self) -> Self {
        IntValidator
    }
}

/// A validator whose every validation is an internal fault.
#[derive(Debug, Clone)]
struct Faulty;

impl TypeValidator for Faulty {
    fn is_match(type_: &str, _dict: &PyDict) -> bool {
        type_ == "faulty"
    }

    fn build(_dict: &PyDict) -> Result<Self, BuildError> {
        Ok(Faulty)
    }

    fn validate(&self, _py: Python<'_>, _obj: &PyAny) -> ValResult<PyObject> {
        Err(ValError::InternalErr(PyKeyError::new_err("lost")))
    }

    fn clone_dyn(&self) -> Self {
        Faulty
    }
}

fn config<'py>(py: Python<'py>, key: &str, code: &str) -> &'py PyDict {
    let dict = PyDict::new(py);
    dict.set_item("field", PyDict::new(py)).unwrap();
    dict.set_item(key, py.eval(code, None, None).unwrap()).unwrap();
    dict
}

/// A configuration whose function appends each argument to the list `calls`
/// before it answers with `code` applied to it.
fn counting_config<'py>(py: Python<'py>, key: &str, code: &str) -> (&'py PyDict, &'py PyAny) {
    let globals = PyDict::new(py);
    let source = format!("calls = []\ndef hook(x, **kw):\n    calls.append(x)\n    return ({})(x)\n", code);
    py.run(&source, Some(globals), None).unwrap();
    let dict = PyDict::new(py);
    dict.set_item("field", PyDict::new(py)).unwrap();
    dict.set_item(key, globals.get_item("hook").unwrap()).unwrap();
    (dict, globals.get_item("calls").unwrap())
}

fn number(py: Python<'_>, out: ValResult<PyObject>) -> i64 {
    out.unwrap().extract::<i64>(py).unwrap()
}

fn rejection(out: ValResult<PyObject>) -> Vec<ValLineError> {
    match out {
        Err(ValError::LineErrors(records)) => records,
        other => panic!("expected a rejection, got {:?}", other),
    }
}

fn internal(out: ValResult<PyObject>) -> PyErr {
    match out {
        Err(ValError::InternalErr(fault)) => fault,
        other => panic!("expected an internal error, got {:?}", other),
    }
}

fn not_an_int() -> Vec<ValLineError> {
    vec![ValLineError { location: vec!["value".to_string()], reason: NOT_AN_INT.to_string() }]
}

fn message<T: std::fmt::Debug>(out: Result<T, BuildError>) -> String {
    out.unwrap_err().message
}

#[test]
fn pre_decorator_doubles_before_inner_validation() {
    pyo3::prepare_freethreaded_python();
    Python::with_gil(|py| {
        let dict = config(py, "pre_decorator", "lambda x: x * 2");
        let v = PreDecoratorValidator::<IntValidator>::build(dict).unwrap();
        let out = v.validate(py, 5i64.into_py(py).as_ref(py));
        assert_eq!(number(py, out), 10);
    });
}

#[test]
fn pre_decorator_calls_the_function_once_and_validates_its_output() {
    pyo3::prepare_freethreaded_python();
    Python::with_gil(|py| {
        let (dict, calls) = counting_config(py, "pre_decorator", "lambda x: int(x) + 1");
        let v = PreDecoratorValidator::<IntValidator>::build(dict).unwrap();
        // the raw input is no integer; what the function returns is
        let out = v.validate(py, "41".into_py(py).as_ref(py));
        assert_eq!(number(py, out), 42);
        assert_eq!(calls.len().unwrap(), 1);
        assert_eq!(calls.get_item(0).unwrap().extract::<String>().unwrap(), "41");
    });
}

#[test]
fn pre_decorator_rejects_what_the_function_returns() {
    pyo3::prepare_freethreaded_python();
    Python::with_gil(|py| {
        let dict = config(py, "pre_decorator", "lambda x: 'abc'");
        let v = PreDecoratorValidator::<IntValidator>::build(dict).unwrap();
        let out = v.validate(py, 5i64.into_py(py).as_ref(py));
        assert_eq!(rejection(out), not_an_int());
    });
}

#[test]
fn pre_decorator_fault_is_internal() {
    pyo3::prepare_freethreaded_python();
    Python::with_gil(|py| {
        let dict = config(py, "pre_decorator", "lambda x: x['missing']");
        let v = PreDecoratorValidator::<IntValidator>::build(dict).unwrap();
        let out = v.validate(py, PyDict::new(py).as_ref());
        assert!(internal(out).is_instance_of::<PyKeyError>(py));
    });
}

#[test]
fn post_decorator_hands_inner_rejection_on_without_calling() {
    pyo3::prepare_freethreaded_python();
    Python::with_gil(|py| {
        let (dict, calls) = counting_config(py, "post_decorator", "str");
        let v = PostDecoratorValidator::<IntValidator>::build(dict).unwrap();
        let out = v.validate(py, "abc".into_py(py).as_ref(py));
        assert_eq!(rejection(out), not_an_int());
        assert_eq!(calls.len().unwrap(), 0);
    });
}

#[test]
fn post_decorator_returns_the_function_output() {
    pyo3::prepare_freethreaded_python();
    Python::with_gil(|py| {
        let (dict, calls) = counting_config(py, "post_decorator", "str");
        let v = PostDecoratorValidator::<IntValidator>::build(dict).unwrap();
        let out = v.validate(py, 7i64.into_py(py).as_ref(py)).unwrap();
        assert_eq!(out.extract::<String>(py).unwrap(), "7");
        assert_eq!(calls.len().unwrap(), 1);
        assert_eq!(calls.get_item(0).unwrap().extract::<i64>().unwrap(), 7);
    });
}

#[test]
fn post_decorator_fault_is_internal() {
    pyo3::prepare_freethreaded_python();
    Python::with_gil(|py| {
        let dict = config(py, "post_decorator", "lambda x: 1 // 0");
        let v = PostDecoratorValidator::<IntValidator>::build(dict).unwrap();
        let out = v.validate(py, 7i64.into_py(py).as_ref(py));
        assert!(internal(out).is_instance_of::<pyo3::exceptions::PyZeroDivisionError>(py));
    });
}

#[test]
fn post_decorator_hands_inner_fault_on() {
    pyo3::prepare_freethreaded_python();
    Python::with_gil(|py| {
        let (dict, calls) = counting_config(py, "post_decorator", "str");
        let v = PostDecoratorValidator::<Faulty>::build(dict).unwrap();
        let out = v.validate(py, 7i64.into_py(py).as_ref(py));
        assert!(internal(out).is_instance_of::<PyKeyError>(py));
        assert_eq!(calls.len().unwrap(), 0);
    });
}

#[test]
fn wrap_decorator_adds_one_to_the_validated_value() {
    pyo3::prepare_freethreaded_python();
    Python::with_gil(|py| {
        let dict = config(py, "wrap_decorator", "lambda x, validator: validator(x) + 1");
        let v = WrapDecoratorValidator::<IntValidator>::build(dict).unwrap();
        let out = v.validate(py, 5i64.into_py(py).as_ref(py));
        assert_eq!(number(py, out), 6);
    });
}

#[test]
fn wrap_decorator_validates_each_call_on_its_own() {
    pyo3::prepare_freethreaded_python();
    Python::with_gil(|py| {
        let dict = config(py, "wrap_decorator", "lambda x, validator: (validator(x), validator(x + 1))");
        let v = WrapDecoratorValidator::<IntValidator>::build(dict).unwrap();
        let out = v.validate(py, 5i64.into_py(py).as_ref(py)).unwrap();
        assert_eq!(out.extract::<(i64, i64)>(py).unwrap(), (5, 6));

        let dict = config(py, "wrap_decorator", "lambda x, validator: (validator(x), validator('abc'))");
        let v = WrapDecoratorValidator::<IntValidator>::build(dict).unwrap();
        let out = v.validate(py, 5i64.into_py(py).as_ref(py));
        assert!(internal(out).is_instance_of::<PyValueError>(py));
    });
}

#[test]
fn wrap_decorator_that_ignores_the_validator_never_runs_it() {
    pyo3::prepare_freethreaded_python();
    Python::with_gil(|py| {
        let dict = config(py, "wrap_decorator", "lambda x, validator: 42");
        let v = WrapDecoratorValidator::<IntValidator>::build(dict).unwrap();
        let before = INNER_RUNS.load(Ordering::SeqCst);
        let out = v.validate(py, "abc".into_py(py).as_ref(py));
        assert_eq!(number(py, out), 42);
        assert_eq!(INNER_RUNS.load(Ordering::SeqCst), before);
    });
}

#[test]
fn wrap_decorator_passes_the_validator_under_its_name() {
    pyo3::prepare_freethreaded_python();
    Python::with_gil(|py| {
        let dict = config(py, "wrap_decorator", "lambda x, **kw: sorted(kw)");
        let v = WrapDecoratorValidator::<IntValidator>::build(dict).unwrap();
        let out = v.validate(py, 1i64.into_py(py).as_ref(py)).unwrap();
        assert_eq!(out.extract::<Vec<String>>(py).unwrap(), vec!["validator".to_string()]);
    });
}

#[test]
fn wrapper_raises_rejection_with_records_and_label() {
    pyo3::prepare_freethreaded_python();
    Python::with_gil(|py| {
        let code = "lambda x, validator: validator(x)";
        let dict = config(py, "wrap_decorator", code);
        let v = WrapDecoratorValidator::<IntValidator>::build(dict).unwrap();
        let fault = internal(v.validate(py, "abc".into_py(py).as_ref(py)));
        assert!(fault.is_instance_of::<PyValueError>(py));
        let args = fault.value(py).getattr("args").unwrap();
        let (rows, label) = args.extract::<(Vec<(Vec<String>, String)>, String)>().unwrap();
        assert_eq!(rows, vec![(vec!["value".to_string()], NOT_AN_INT.to_string())]);
        assert_eq!(label, "Model");
    });
}

#[test]
fn wrapper_hands_internal_fault_on_unchanged() {
    pyo3::prepare_freethreaded_python();
    Python::with_gil(|py| {
        let dict = config(py, "wrap_decorator", "lambda x, validator: validator(x)");
        let v = WrapDecoratorValidator::<Faulty>::build(dict).unwrap();
        let fault = internal(v.validate(py, 1i64.into_py(py).as_ref(py)));
        assert!(fault.is_instance_of::<PyKeyError>(py));
        let args = fault.value(py).getattr("args").unwrap();
        assert_eq!(args.extract::<(String,)>().unwrap(), ("lost".to_string(),));
    });
}

#[test]
fn wrapper_without_argument_raises_pythons_error() {
    pyo3::prepare_freethreaded_python();
    Python::with_gil(|py| {
        let dict = config(py, "wrap_decorator", "lambda x, validator: validator()");
        let v = WrapDecoratorValidator::<IntValidator>::build(dict).unwrap();
        let fault = internal(v.validate(py, 1i64.into_py(py).as_ref(py)));
        assert!(fault.is_instance_of::<pyo3::exceptions::PyIndexError>(py));
    });
}

#[test]
fn surface_translates_each_kind_of_result() {
    pyo3::prepare_freethreaded_python();
    Python::with_gil(|py| {
        let ok = ValidatorCallable::<IntValidator>::surface(Ok(3i64.into_py(py)));
        assert_eq!(ok.unwrap().extract::<i64>(py).unwrap(), 3);

        let out = ValidatorCallable::<IntValidator>::surface(Err(ValError::LineErrors(not_an_int())));
        match out {
            Err(Raised::Validation { line_errors, label }) => {
                assert_eq!(line_errors, not_an_int());
                assert_eq!(label, "Model");
            }
            other => panic!("expected a rejection, got {:?}", other),
        }

        let fault = PyKeyError::new_err("lost");
        let out = ValidatorCallable::<IntValidator>::surface(Err(ValError::InternalErr(fault)));
        match out {
            Err(Raised::Internal(fault)) => assert!(fault.is_instance_of::<PyKeyError>(py)),
            other => panic!("expected an internal fault, got {:?}", other),
        }
    });
}

#[test]
fn callable_validates_and_answers() {
    pyo3::prepare_freethreaded_python();
    Python::with_gil(|py| {
        let callable = ValidatorCallable::new(IntValidator);
        let out = callable.__call__(py, 9i64.into_py(py).as_ref(py));
        assert_eq!(out.unwrap().extract::<i64>(py).unwrap(), 9);
        let out = callable.__call__(py, "x".into_py(py).as_ref(py));
        assert!(matches!(out, Err(Raised::Validation { .. })));
        let args = PyTuple::new(py, [4i64]);
        assert_eq!(callable.respond(args).unwrap().extract::<i64>(py).unwrap(), 4);
    });
}

#[test]
fn exception_keeps_an_internal_fault() {
    pyo3::prepare_freethreaded_python();
    Python::with_gil(|py| {
        let raised = Raised::Internal(PyKeyError::new_err("lost"));
        let err = ValidatorCallable::<IntValidator>::exception(raised);
        assert!(err.is_instance_of::<PyKeyError>(py));
        let raised = Raised::Validation { line_errors: not_an_int(), label: "Model".to_string() };
        let err = ValidatorCallable::<IntValidator>::exception(raised);
        assert!(err.is_instance_of::<PyValueError>(py));
        let args = err.value(py).getattr("args").unwrap();
        let (rows, label) = args.extract::<(Vec<(Vec<String>, String)>, String)>().unwrap();
        assert_eq!(rows, vec![(vec!["value".to_string()], NOT_AN_INT.to_string())]);
        assert_eq!(label, "Model");
    });
}

#[test]
fn repr_names_the_validator_inside() {
    let callable = ValidatorCallable::new(IntValidator);
    assert_eq!(callable.__repr__(), "ValidatorCallable(IntValidator)");
    assert_eq!(ValidatorCallable::<IntValidator>::repr_of("x"), "ValidatorCallable(x)");
}

#[test]
fn build_fails_when_the_function_is_missing() {
    pyo3::prepare_freethreaded_python();
    Python::with_gil(|py| {
        let dict = PyDict::new(py);
        dict.set_item("field", PyDict::new(py)).unwrap();
        assert_eq!(
            message(PreDecoratorValidator::<IntValidator>::build(dict)),
            "pre_decorator is required"
        );
        assert_eq!(
            message(PostDecoratorValidator::<IntValidator>::build(dict)),
            "post_decorator is required"
        );
        assert_eq!(
            message(WrapDecoratorValidator::<IntValidator>::build(dict)),
            "wrap_decorator is required"
        );
    });
}

#[test]
fn build_fails_when_the_function_cannot_be_called() {
    pyo3::prepare_freethreaded_python();
    Python::with_gil(|py| {
        assert_eq!(
            message(PreDecoratorValidator::<IntValidator>::build(config(py, "pre_decorator", "3"))),
            "pre_decorator must be callable"
        );
        assert_eq!(
            message(PostDecoratorValidator::<IntValidator>::build(config(py, "post_decorator", "'f'"))),
            "post_decorator must be callable"
        );
        assert_eq!(
            message(WrapDecoratorValidator::<IntValidator>::build(config(py, "wrap_decorator", "None"))),
            "wrap_decorator must be callable"
        );
    });
}

#[test]
fn build_fails_without_a_field_section() {
    pyo3::prepare_freethreaded_python();
    Python::with_gil(|py| {
        let dict = PyDict::new(py);
        dict.set_item("pre_decorator", py.eval("abs", None, None).unwrap()).unwrap();
        assert_eq!(message(PreDecoratorValidator::<IntValidator>::build(dict)), "field is required");
        dict.set_item("field", 3).unwrap();
        assert_eq!(message(PreDecoratorValidator::<IntValidator>::build(dict)), "field must be a dict");
    });
}

#[test]
fn build_hands_on_the_inner_build_error() {
    pyo3::prepare_freethreaded_python();
    Python::with_gil(|py| {
        let dict = config(py, "post_decorator", "abs");
        let field = get_section(dict, "field").unwrap();
        field.set_item("broken", true).unwrap();
        assert_eq!(message(PostDecoratorValidator::<IntValidator>::build(dict)), "no validator matches");
        let failed: Result<IntValidator, BuildError> = Err(BuildError { message: "inner".to_string() });
        assert_eq!(message(WrapDecoratorValidator::assemble(failed, dict)), "inner");
    });
}

#[test]
fn get_function_returns_the_stored_callable() {
    pyo3::prepare_freethreaded_python();
    Python::with_gil(|py| {
        let dict = config(py, "hook", "abs");
        let func = get_function(dict, "hook").unwrap();
        assert!(func.as_ref(py).is(dict.get_item("hook").unwrap()));
        assert_eq!(message(get_function(dict, "other")), "other is required");
        assert_eq!(message(get_function(dict, "field")), "field must be callable");
    });
}

#[test]
fn is_match_needs_kind_and_key() {
    pyo3::prepare_freethreaded_python();
    Python::with_gil(|py| {
        let dict = config(py, "pre_decorator", "abs");
        assert!(PreDecoratorValidator::<IntValidator>::is_match("decorator", dict));
        assert!(!PreDecoratorValidator::<IntValidator>::is_match("int", dict));
        assert!(!PostDecoratorValidator::<IntValidator>::is_match("decorator", dict));
        assert!(!WrapDecoratorValidator::<IntValidator>::is_match("decorator", dict));
        assert!(PostDecoratorValidator::<IntValidator>::is_match(
            "decorator",
            config(py, "post_decorator", "abs")
        ));
        assert!(WrapDecoratorValidator::<IntValidator>::is_match(
            "decorator",
            config(py, "wrap_decorator", "abs")
        ));
        assert!(is_decorator("decorator", dict, "field"));
        assert!(!is_decorator("decorators", dict, "field"));
    });
}

#[test]
fn classify_makes_a_fault_internal() {
    pyo3::prepare_freethreaded_python();
    Python::with_gil(|py| {
        assert_eq!(number(py, classify(Ok(8i64.into_py(py)))), 8);
        let fault = internal(classify(Err(PyValueError::new_err("bad"))));
        assert!(fault.is_instance_of::<PyValueError>(py));
    });
}

#[test]
fn clone_validates_as_the_original_does() {
    pyo3::prepare_freethreaded_python();
    Python::with_gil(|py| {
        let dict = config(py, "pre_decorator", "lambda x: x * 2");
        let v = PreDecoratorValidator::<IntValidator>::build(dict).unwrap();
        let copy = v.clone_dyn();
        // rebinding the key in the configuration reaches neither
        dict.set_item("pre_decorator", py.eval("lambda x: 0", None, None).unwrap()).unwrap();
        assert_eq!(number(py, v.validate(py, 5i64.into_py(py).as_ref(py))), 10);
        assert_eq!(number(py, copy.validate(py, 5i64.into_py(py).as_ref(py))), 10);
        drop(v);
        assert_eq!(number(py, copy.validate(py, 6i64.into_py(py).as_ref(py))), 12);

        let dict = config(py, "wrap_decorator", "lambda x, validator: validator(x) + 1");
        let w = WrapDecoratorValidator::<PostDecoratorValidator<IntValidator>>::build(dict);
        assert_eq!(message(w), "field is required");
    });
}

#[test]
fn decorators_nest() {
    pyo3::prepare_freethreaded_python();
    Python::with_gil(|py| {
        let dict = config(py, "wrap_decorator", "lambda x, validator: validator(x) + 1");
        let field = get_section(dict, "field").unwrap();
        field.set_item("field", PyDict::new(py)).unwrap();
        field.set_item("pre_decorator", py.eval("lambda x: x * 2", None, None).unwrap()).unwrap();
        let v = WrapDecoratorValidator::<PreDecoratorValidator<IntValidator>>::build(dict).unwrap();
        assert_eq!(number(py, v.validate(py, 5i64.into_py(py).as_ref(py))), 11);
        let copy = v.clone();
        assert_eq!(number(py, copy.validate(py, 5i64.into_py(py).as_ref(py))), 11);
    });
}

#[test]
fn respond_validates_the_first_argument() {
    pyo3::prepare_freethreaded_python();
    Python::with_gil(|py| {
        let callable = ValidatorCallable::new(IntValidator);
        let two = PyTuple::new(py, [7i64.into_py(py), "abc".into_py(py)]);
        assert_eq!(callable.respond(two).unwrap().extract::<i64>(py).unwrap(), 7);
        let bad = PyTuple::new(py, ["abc".into_py(py), 7i64.into_py(py)]);
        assert!(callable.respond(bad).unwrap_err().is_instance_of::<PyValueError>(py));
        let none = PyTuple::empty(py);
        let err = callable.respond(none).unwrap_err();
        assert!(err.is_instance_of::<pyo3::exceptions::PyIndexError>(py));
        let faulty = ValidatorCallable::new(Faulty);
        let one = PyTuple::new(py, [1i64]);
        assert!(faulty.respond(one).unwrap_err().is_instance_of::<PyKeyError>(py));
    });
}

#[test]
fn post_decorator_stringifies_the_validated_integer() {
    pyo3::prepare_freethreaded_python();
    Python::with_gil(|py| {
        let dict = config(py, "post_decorator", "lambda x: str(x)");
        let v = PostDecoratorValidator::<IntValidator>::build(dict).unwrap();
        let out = v.validate(py, 5i64.into_py(py).as_ref(py)).unwrap();
        assert_eq!(out.extract::<String>(py).unwrap(), "5");
        assert!(out.extract::<i64>(py).is_err());
    });
}

#[test]
fn build_error_messages_name_the_key_without_quotes() {
    pyo3::prepare_freethreaded_python();
    Python::with_gil(|py| {
        let dict = PyDict::new(py);
        dict.set_item("field", PyDict::new(py)).unwrap();
        assert_eq!(message(get_function(dict, "wrap_decorator")), "wrap_decorator is required");
        dict.set_item("pre_decorator", 3).unwrap();
        assert_eq!(message(get_function(dict, "pre_decorator")), "pre_decorator must be callable");
        assert_eq!(message(get_section(dict, "pre_decorator").map(|_| ())), "pre_decorator must be a dict");
    });
}

#[test]
fn callable_view_validates_as_the_inner_validator() {
    pyo3::prepare_freethreaded_python();
    Python::with_gil(|py| {
        let dict = config(py, "wrap_decorator", "lambda x, validator: 0");
        let v = WrapDecoratorValidator::<IntValidator>::build(dict).unwrap();
        let view = v.callable_view();
        assert_eq!(view.__call__(py, 5i64.into_py(py).as_ref(py)).unwrap().extract::<i64>(py).unwrap(), 5);
        assert!(matches!(
            view.__call__(py, "abc".into_py(py).as_ref(py)),
            Err(Raised::Validation { .. })
        ));
        assert_eq!(view.__repr__(), "ValidatorCallable(IntValidator)");
    });
}

#[test]
fn repr_follows_the_wrapped_validator() {
    assert_eq!(ValidatorCallable::new(Faulty).__repr__(), "ValidatorCallable(Faulty)");
    assert_ne!(
        ValidatorCallable::new(Faulty).__repr__(),
        ValidatorCallable::new(IntValidator).__repr__()
    );
}
