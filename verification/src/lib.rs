//! The logic behind the `ToKdl` and `FromKdl` derives: reading the
//! `#[kdl(..)]` attributes and the shape of each field of a struct, and
//! writing out the Rust code of the two generated impls.
use vstd::prelude::*;

pub mod code_laws;
pub mod expand;
pub mod laws;
pub mod model;
pub mod template;
pub mod text;

use crate::expand::{expand_from_kdl, expand_to_kdl, from_kdl_text, literals_of, to_kdl_text};
use crate::model::{container_of, input_error, Container, DeriveError, DeriveInput};

verus! {

/// The `ToKdl` derive: the code of the impl for `input`, or the error that
/// refuses it.
pub fn derive_to_kdl(input: DeriveInput) -> (r: Result<String, DeriveError>)
    ensures
        match input_error(input) {
            Some(e) => r == Err::<String, DeriveError>(e),
            None => r matches Ok(code) && exists|c: Container, lits: Seq<String>|
                #![trigger container_of(input, c), to_kdl_text(c, lits)]
                container_of(input, c) && literals_of(c.fields@, lits) && code@ == to_kdl_text(c, lits),
        },
{
    match Container::from_derive_input(input) {
        Ok(container) => {
            let code = expand_to_kdl(&container);
            Ok(code)
        },
        Err(err) => Err(err),
    }
}

/// The `FromKdl` derive: the code of the impl for `input`, or the error that
/// refuses it.
pub fn derive_from_kdl(input: DeriveInput) -> (r: Result<String, DeriveError>)
    ensures
        match input_error(input) {
            Some(e) => r == Err::<String, DeriveError>(e),
            None => r matches Ok(code) && exists|c: Container, lits: Seq<String>|
                #![trigger container_of(input, c), from_kdl_text(c, lits)]
                container_of(input, c) && literals_of(c.fields@, lits) && code@ == from_kdl_text(c, lits),
        },
{
    match Container::from_derive_input(input) {
        Ok(container) => {
            let code = expand_from_kdl(&container);
            Ok(code)
        },
        Err(err) => Err(err),
    }
}

} // verus!
