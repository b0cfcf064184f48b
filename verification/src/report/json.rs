//! Where the JSON report of a container definition is written: in a
//! directory of the output named after the directory that holds the
//! definition.

use vstd::prelude::*;

use crate::paths::{
    file_name, file_name_of, join_name, parent, parent_of, parts_view, PartV, PathPart,
};

verus! {

/// The name of every report file.
pub const REPORT_FILE: &'static str = "audit-report.json";

/// Where the report of one definition goes.
pub struct ReportLocation {
    /// The directory to create.
    pub directory: Vec<PathPart>,
    /// The report file inside it.
    pub file: Vec<PathPart>,
}

/// The name of the directory that holds `dockerfile`, if it has one.
pub open spec fn definition_dir_name(dockerfile: Seq<PartV>) -> Option<Seq<char>> {
    match parent_of(dockerfile) {
        Some(dir) => file_name_of(dir),
        None => None,
    }
}

/// Where the report for `dockerfile` goes under `output`: the directory
/// `output/<name of the definition's directory>` and the report file in
/// it; or why there is no such place.
pub open spec fn location_of(output: Seq<PartV>, dockerfile: Seq<PartV>) -> Result<
    (Seq<PartV>, Seq<PartV>),
    Seq<char>,
> {
    match parent_of(dockerfile) {
        None => Err("cannot find parent directory"@),
        Some(dir) => match file_name_of(dir) {
            None => Err("cannot get directory name"@),
            Some(name) => {
                let directory = output.push(PartV::Normal(name));
                Ok((directory, directory.push(PartV::Normal(REPORT_FILE@))))
            },
        },
    }
}

/// Where the report for `dockerfile` is written under `output`: in
/// `output/<name of the definition's directory>/audit-report.json`. It is
/// an error when the definition has no parent directory, or when that
/// directory has no name.
pub fn report_location(output: &Vec<PathPart>, dockerfile: &Vec<PathPart>) -> (r: Result<
    ReportLocation,
    String,
>)
    ensures
        match r {
            Ok(loc) => location_of(parts_view(output@), parts_view(dockerfile@)) == Ok::<
                (Seq<PartV>, Seq<PartV>),
                Seq<char>,
            >((parts_view(loc.directory@), parts_view(loc.file@))),
            Err(e) => location_of(parts_view(output@), parts_view(dockerfile@)) == Err::<
                (Seq<PartV>, Seq<PartV>),
                Seq<char>,
            >(e@),
        },
{
    let dir = match parent(dockerfile) {
        Some(d) => d,
        None => {
            return Err("cannot find parent directory".to_string());
        },
    };
    let name = match file_name(&dir) {
        Some(n) => n,
        None => {
            return Err("cannot get directory name".to_string());
        },
    };
    let directory = join_name(output, name);
    let file = join_name(&directory, REPORT_FILE.to_string());
    Ok(ReportLocation { directory, file })
}

/// The project a report file belongs to: the name of the directory that
/// holds it.
pub open spec fn project_of(report: Seq<PartV>) -> Option<Seq<char>> {
    definition_dir_name(report)
}

/// A report written for a definition is found again as a report file, and
/// is shown under the name of the directory that holds the definition.
pub proof fn lemma_written_report_is_listed(output: Seq<PartV>, dockerfile: Seq<PartV>)
    requires
        location_of(output, dockerfile) is Ok,
    ensures
        file_name_of(location_of(output, dockerfile)->Ok_0.1) == Some(REPORT_FILE@),
        project_of(location_of(output, dockerfile)->Ok_0.1) == definition_dir_name(dockerfile),
{
    let (directory, file) = location_of(output, dockerfile)->Ok_0;
    assert(file.drop_last() =~= directory);
}

} // verus!
