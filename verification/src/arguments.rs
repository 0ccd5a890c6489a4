use vstd::prelude::*;

verus! {

/// Command-line arguments of the bootstrap executable: the path of the
/// configuration file to apply.  The flag parsing itself is done by the
/// binary's CLI layer, which hands the library this plain value.
pub struct Arguments {
    pub configuration_file: String,
}

} // verus!
