//! The options of a run.

use vstd::prelude::*;

verus! {

/// Where the reports go unless the command line names another directory.
pub const DEFAULT_OUTPUT: &'static str = "audit";

/// The image name used unless the command line names another.
pub const DEFAULT_IMAGE_NAME: &'static str = "temp-image";

/// The container engine used unless the command line names another.
pub const DEFAULT_ENGINE: &'static str = "podman";

/// What a run was asked to do.
pub struct Cli {
    /// A single definition to audit.
    pub file: Option<String>,
    /// A directory to search for definitions.
    pub path: Option<String>,
    /// Where the reports go.
    pub output: String,
    /// How much to log: each `-v` adds one.
    pub verbose: u8,
    /// Log errors only.
    pub quiet: bool,
    /// The name of the image that is built and audited.
    pub image_name: String,
    /// Build and audit the images, rather than only report on earlier audits.
    pub build: bool,
    /// The container engine to use, `podman` or `docker`.
    pub engine: String,
    /// Prune the engine's caches after each audit.
    pub prune: bool,
    /// Write the index page of the reports.
    pub html: bool,
}

impl Cli {
    /// The options of a command line that gives none: reports go to
    /// `DEFAULT_OUTPUT`, the image is named `DEFAULT_IMAGE_NAME`, the engine
    /// is `DEFAULT_ENGINE`; no definition or directory is named, and every
    /// switch is off.
    pub fn with_defaults() -> (c: Cli)
        ensures
            c.file is None,
            c.path is None,
            c.output@ == DEFAULT_OUTPUT@,
            c.verbose == 0,
            !c.quiet,
            c.image_name@ == DEFAULT_IMAGE_NAME@,
            !c.build,
            c.engine@ == DEFAULT_ENGINE@,
            !c.prune,
            !c.html,
    {
        Cli {
            file: None,
            path: None,
            output: DEFAULT_OUTPUT.to_string(),
            verbose: 0,
            quiet: false,
            image_name: DEFAULT_IMAGE_NAME.to_string(),
            build: false,
            engine: DEFAULT_ENGINE.to_string(),
            prune: false,
            html: false,
        }
    }
}

impl Default for Cli {
    fn default() -> (c: Cli)
        ensures
            c.file is None,
            c.path is None,
            c.output@ == Seq::<char>::empty(),
            c.verbose == 0,
            !c.quiet,
            c.image_name@ == Seq::<char>::empty(),
            !c.build,
            c.engine@ == Seq::<char>::empty(),
            !c.prune,
            !c.html,
    {
        Cli {
            file: None,
            path: None,
            output: String::new(),
            verbose: 0,
            quiet: false,
            image_name: String::new(),
            build: false,
            engine: String::new(),
            prune: false,
            html: false,
        }
    }
}

} // verus!
