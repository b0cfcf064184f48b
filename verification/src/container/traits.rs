//! The operations an audit needs from a container engine.

use vstd::prelude::*;

verus! {

/// An answer to running a command, as plain values.
pub open spec fn output_view(out: Result<Vec<u8>, String>) -> Result<Seq<u8>, Seq<char>> {
    match out {
        Ok(bytes) => Ok(bytes@),
        Err(e) => Err(e@),
    }
}

/// The words of a command, as plain values.
pub open spec fn command_view(command: Seq<&str>) -> Seq<Seq<char>> {
    command.map_values(|s: &str| s@)
}

/// Whether `engine` has at most one answer to `command` in `image`: the
/// same command, run there again, answers the same.
pub open spec fn answers_one_way<C: ContainerEngine + ?Sized>(
    engine: &C,
    image: Seq<char>,
    command: Seq<Seq<char>>,
) -> bool {
    forall|o1: Result<Seq<u8>, Seq<char>>, o2: Result<Seq<u8>, Seq<char>>|
        #[trigger] engine.answers(image, command, o1) && #[trigger] engine.answers(image, command, o2)
            ==> o1 == o2
}

/// An engine that builds images and runs commands inside them. What the
/// engine answers depends on the machine it runs on: an engine may say,
/// through `answers`, which answers it can give to a command (by default,
/// any answer), and the library relies on nothing more than that what
/// `run` returned is one of them.
pub trait ContainerEngine {
    /// Whether `out` is an answer this engine may give when `command` runs
    /// in `image`. Unless an engine says otherwise, any answer is possible,
    /// as for an engine that runs real processes.
    closed spec fn answers(
        &self,
        image: Seq<char>,
        command: Seq<Seq<char>>,
        out: Result<Seq<u8>, Seq<char>>,
    ) -> bool {
        true
    }

    /// Builds the image defined by the file at path `file`.
    fn build(&self, file: &str) -> Result<(), String>;

    /// Runs `command` in a fresh container of `image` and returns what it
    /// printed on standard output, or why it failed.
    fn run(&self, image: &str, command: &[&str]) -> (out: Result<Vec<u8>, String>)
        ensures
            self.answers(image@, command_view(command@), output_view(out)),
    ;

    /// Removes `image`.
    fn remove(&self, image: &str) -> Result<(), String>;

    /// Prunes the engine's caches.
    fn clean(&self) -> Result<(), String>;
}

} // verus!
