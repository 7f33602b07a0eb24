use crate::errors::Error;
use vstd::prelude::*;
use vstd::string::StringExecFns;

verus! {

/// G_SETCOMBINE: sets the blend mode through the color combiner. Its flag
/// bits are not interpreted yet.
#[allow(non_camel_case_types)]
#[derive(Clone, Copy, Debug)]
pub struct G_SETCOMBINE {}

impl G_SETCOMBINE {
    /// Decodes the command word; the combiner flags are not interpreted yet.
    pub fn new(_cmd: [u8; 8]) -> (r: Result<G_SETCOMBINE, Error>)
        ensures
            r is Ok,
    {
        Ok(G_SETCOMBINE {  })
    }

    /// The listing line for this command.
    pub open spec fn spec_psuedo_code(self) -> Seq<char> {
        "G_SETCOMBINE [TODO: flags]"@
    }

    pub fn psuedo_code(&self) -> (r: String)
        ensures
            r@ == self.spec_psuedo_code(),
    {
        String::from_str("G_SETCOMBINE [TODO: flags]")
    }
}

} // verus!
