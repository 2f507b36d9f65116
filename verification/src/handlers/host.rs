//! The Python host: the handler objects it owns and the calls made into it.
//!
//! Nothing in this file is proved. Each contract here is a claim about
//! `pyo3` or `pyo3_asyncio`, stated in the item's documentation.

use pyo3::panic::PanicException;
use pyo3::types::PyModule;
use pyo3::Py;
use pyo3::PyAny;
use pyo3::PyErr;
use pyo3::Python;
use vstd::prelude::*;

verus! {

/// `pyo3::Py<T>`: an owning reference to an object on the Python heap.
/// Opaque here; two values are equal when they refer to the same object.
#[verifier::external_type_specification]
#[verifier::external_body]
#[verifier::reject_recursive_types(T)]
pub struct ExPy<T>(Py<T>);

/// `pyo3::PyAny`: a Python object of unknown type. Opaque here.
#[verifier::external_type_specification]
#[verifier::external_body]
pub struct ExPyAny(PyAny);

/// `pyo3::PyErr`: a Python exception. Opaque here.
#[verifier::external_type_specification]
#[verifier::external_body]
pub struct ExPyErr(PyErr);

/// `pyo3::Python`: the token that shows that its holder has the host's
/// interpreter lock. Opaque here.
#[verifier::external_type_specification]
#[verifier::external_body]
pub struct ExPython<'py>(Python<'py>);

/// `<pyo3::Py<T> as Clone>::clone`: a second reference to the same Python
/// object. The clone holds the same pointer as the reference it was made
/// from, so the two are the same value; only the object's reference count
/// changes.
#[verifier::external_body]
pub(crate) fn share_object(object: &Py<PyAny>) -> (shared: Py<PyAny>)
    ensures
        shared == *object,
{
    object.clone()
}

/// `pyo3::PyAny::call1` on a guard that `pyo3::types::PyModule::from_code`
/// sets up in the host (`pyo3::PyAny::getattr` picks the guard out of its
/// module, `pyo3::Python::get_type` names the exception type for it): the
/// guard calls the handler with the payload as its one positional argument
/// (`None` where there is no payload) and hands on what the handler returns
/// or raises, but for one exception. `pyo3` resumes
/// a panic when it meets its own `PanicException`; the guard catches that
/// type inside the host and raises a `RuntimeError` in its place, so the
/// call returns where `pyo3` alone would unwind. What comes back depends on
/// the handler, so nothing is claimed of it: `Ok` holds what the handler
/// returned, `Err` what was raised, or the host's error where the guard
/// could not be set up.
#[verifier::external_body]
pub(crate) fn call_handler(
    py: Python<'_>,
    handler: &Py<PyAny>,
    data: &Option<Py<PyAny>>,
) -> Result<Py<PyAny>, PyErr> {
    let guard = PyModule::from_code(
        py,
        "def call(handler, data, panic):\n    try:\n        return handler(data)\n    except panic:\n        raise RuntimeError('handler panicked') from None\n",
        "handler_guard.py",
        "handler_guard",
    )?;
    let panic = py.get_type::<PanicException>();
    let reply = guard.getattr("call")?.call1((handler.clone(), data.clone(), panic))?;
    Ok(reply.into())
}

/// `pyo3_asyncio::async_std::into_future`: hands what a handler returned to
/// the running Python event loop as an awaitable. The future that comes back
/// is dropped, never awaited. Whether this succeeds depends on the host (it
/// fails where no event loop runs), so nothing is claimed of the result.
#[verifier::external_body]
pub(crate) fn schedule_reply(py: Python<'_>, reply: &Py<PyAny>) -> Result<(), PyErr> {
    match pyo3_asyncio::async_std::into_future(reply.as_ref(py)) {
        Ok(_) => Ok(()),
        Err(cause) => Err(cause),
    }
}

} // verus!
