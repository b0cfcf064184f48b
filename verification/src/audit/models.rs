//! The records an audit produces.

use vstd::prelude::*;

verus! {

/// One installed package as found inside an image.
#[derive(Debug, PartialEq)]
pub struct Package {
    pub name: String,
    pub version: String,
}

impl View for Package {
    type V = (Seq<char>, Seq<char>);

    open spec fn view(&self) -> (Seq<char>, Seq<char>) {
        (self.name@, self.version@)
    }
}

/// The name and version of each package, in order.
pub open spec fn package_views(ps: Seq<Package>) -> Seq<(Seq<char>, Seq<char>)> {
    ps.map_values(|p: Package| p@)
}

/// What was found inside one image: the description label of its
/// definition, and the Python and R packages installed in it (`None` where
/// the interpreter is missing).
#[derive(Debug, PartialEq)]
pub struct AuditReport {
    pub description: Option<String>,
    pub python_packages: Option<Vec<Package>>,
    pub r_packages: Option<Vec<Package>>,
}

} // verus!
