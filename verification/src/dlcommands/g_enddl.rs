use crate::errors::Error;
use vstd::prelude::*;
use vstd::string::StringExecFns;

verus! {

/// G_ENDDL: ends the current display list.
#[allow(non_camel_case_types)]
#[derive(Clone, Copy, Debug)]
pub struct G_ENDDL {}

impl G_ENDDL {
    /// Decodes the command word; this command carries no fields.
    pub fn new(_cmd: [u8; 8]) -> (r: Result<G_ENDDL, Error>)
        ensures
            r is Ok,
    {
        Ok(G_ENDDL {  })
    }

    /// The listing line for this command.
    pub open spec fn spec_psuedo_code(self) -> Seq<char> {
        "G_ENDDL"@
    }

    pub fn psuedo_code(&self) -> (r: String)
        ensures
            r@ == self.spec_psuedo_code(),
    {
        String::from_str("G_ENDDL")
    }
}

} // verus!
