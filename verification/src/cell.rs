//! The cell in which the loaded value is published.

use std::sync::OnceLock;
use vstd::prelude::*;

verus! {

/// The standard library's write-once cell. It is written at most once and read
/// through shared references; Verus sees nothing inside it.
#[verifier::external_type_specification]
#[verifier::external_body]
#[verifier::reject_recursive_types(T)]
pub struct ExOnceLock<T>(OnceLock<T>);

/// `OnceLock::new`: a cell that has not been written.
pub assume_specification<T>[ OnceLock::<T>::new ]() -> (cell: OnceLock<T>)
;

/// `OnceLock::get`: the value, if the cell has been written. Whether it has depends
/// on the other threads, so nothing is claimed of the result.
pub assume_specification<T>[ OnceLock::<T>::get ](cell: &OnceLock<T>) -> (value: Option<&T>)
;

/// Publishes `value` in a cell, by `OnceLock::get_or_init`: the cell is written with
/// `value` if it has not been written before, and the result is what the cell
/// holds then. Whether it had been written depends on the other threads, so
/// nothing is claimed of the result; that there is one is in its type.
#[verifier::external_body]
pub(crate) fn get_or_init<T>(cell: &OnceLock<T>, value: T) -> (published: &T) {
    cell.get_or_init(move || value)
}

/// `OnceLock::into_inner`: the value of a cell that nobody shares any more, if the
/// cell has been written.
pub assume_specification<T>[ OnceLock::<T>::into_inner ](cell: OnceLock<T>) -> (value: Option<T>)
;

} // verus!
