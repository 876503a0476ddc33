//! A minimal code generator for a two-register stack machine.
//!
//! A program is a fixed sequence of [`ops::Operation`] values. Lowering turns
//! each operation into literal assembly text for an ELF64 executable; the
//! result is a single string whose exact contents are pinned down by the
//! specification functions in [`lowering`]. The intended run-time meaning of
//! the emitted instruction sequences is modelled in [`machine`], where the
//! arithmetic properties of generated programs are stated and proved.

pub mod decimal;
pub mod lowering;
pub mod machine;
pub mod ops;

use vstd::prelude::*;

verus! {

} // verus!
