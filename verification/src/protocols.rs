//! A named protocol from the external catalogue: its name and its source
//! text in the IRP notation.  The catalogue document itself is read and
//! decoded outside the library and handed in as plain values.

use vstd::prelude::*;

verus! {

/// One catalogue entry.
#[derive(Debug)]
pub struct Protocol {
    pub name: String,
    pub irp: String,
}

} // verus!
