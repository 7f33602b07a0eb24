use vstd::prelude::*;

verus! {

/// The options a user picks on the command line: a model file and one of
/// three read-only operations on it. The argument parsing itself lives
/// outside the library.
pub struct CommandLineOptions {
    /// Path of the model file to read.
    pub filename: String,
    /// Which operation to run.
    pub sub_command: SubCommand,
}

/// The three read-only operations.
pub enum SubCommand {
    /// Print the model's summary information.
    Inspect(Inspect),
    /// Print the display list as a listing.
    ViewDisplayList(ViewDisplayList),
    /// Print the vertex records.
    ViewVertexStore(ViewVertexStore),
}

/// Options of the inspect operation; it takes none.
pub struct Inspect {}

/// Options of the display-list listing; it takes none.
pub struct ViewDisplayList {}

/// Options of the vertex dump; it takes none.
pub struct ViewVertexStore {}

} // verus!
