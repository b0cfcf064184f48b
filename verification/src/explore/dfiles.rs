//! Which definitions a run audits: the one file it was given, or every
//! `Dockerfile` and `Containerfile` under the directory it was given.

use vstd::prelude::*;

use crate::cli::Cli;
use crate::text::same_text;

verus! {

/// The first step of finding the definitions.
pub enum FileLookup {
    /// Check that this file exists, then report with [`confirm_file`].
    CheckExists(String),
    /// Search this directory, then report what was found with
    /// [`collect_found`].
    Search(String),
    /// The options do not say which definitions to audit.
    Failed(String),
}

/// How the definitions of a run are found: from `--file` or from `--path`,
/// which must not both be given, nor both be missing.
pub fn get_files(cli: &Cli) -> (r: FileLookup)
    ensures
        match (cli.file, cli.path) {
            (Some(f), None) => r matches FileLookup::CheckExists(g) && g@ == f@,
            (None, Some(p)) => r matches FileLookup::Search(q) && q@ == p@,
            (None, None) => r matches FileLookup::Failed(m) && m@ == "Provide either --file or --path"@,
            (Some(_), Some(_)) => r matches FileLookup::Failed(m) && m@
                == "Cannot use --file and --path together"@,
        },
{
    match (&cli.file, &cli.path) {
        (Some(file), None) => FileLookup::CheckExists(file.clone()),
        (None, Some(path)) => FileLookup::Search(path.clone()),
        (None, None) => FileLookup::Failed("Provide either --file or --path".to_string()),
        (Some(_), Some(_)) => FileLookup::Failed("Cannot use --file and --path together".to_string()),
    }
}

/// The definitions of a run given `--file`: that file, if it exists.
pub fn confirm_file(file: String, exists: bool) -> (r: Result<Vec<String>, String>)
    ensures
        exists ==> (r matches Ok(v) && v@.len() == 1 && v@[0]@ == file@),
        !exists ==> (r matches Err(m) && m@ == "File does not exist: "@ + file@),
{
    if !exists {
        let mut m = "File does not exist: ".to_string();
        m.append(file.as_str());
        return Err(m);
    }
    let mut v = Vec::new();
    v.push(file);
    Ok(v)
}

/// The definitions of a run given `--path`: those found under it, of which
/// there must be at least one.
pub fn collect_found(path: &str, found: Vec<String>) -> (r: Result<Vec<String>, String>)
    ensures
        found@.len() > 0 ==> r == Ok::<Vec<String>, String>(found),
        found@.len() == 0 ==> (r matches Err(m) && m@
            == "No Dockerfile or Containerfile found in '"@ + path@ + "'"@),
{
    if found.len() == 0 {
        let mut m = "No Dockerfile or Containerfile found in '".to_string();
        m.append(path);
        m.append("'");
        return Err(m);
    }
    Ok(found)
}

/// Whether a directory entry is a container definition: a file named
/// exactly `Dockerfile` or `Containerfile`.
pub fn is_container_definition(is_file: bool, name: &str) -> (b: bool)
    ensures
        b == (is_file && (name@ == "Dockerfile"@ || name@ == "Containerfile"@)),
{
    is_file && (same_text(name, "Dockerfile") || same_text(name, "Containerfile"))
}

} // verus!
