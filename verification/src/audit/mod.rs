//! Auditing an image: which Python and R packages it holds.

pub mod models;
pub mod python;
pub mod r;

use vstd::prelude::*;

use crate::container::traits::{answers_one_way, ContainerEngine};
use models::{AuditReport, Package};

verus! {

/// Whether `r` is an outcome of auditing `image` for answers `engine` may
/// give: a report whose Python and R packages are outcomes of the two
/// audits and whose description is left empty, or the error of a Python
/// audit.
pub open spec fn run_outcome<C: ContainerEngine + ?Sized, D: Fn(Vec<u8>) -> Result<Vec<Package>, String>>(
    engine: &C,
    image: Seq<char>,
    decode: &D,
    r: Result<AuditReport, String>,
) -> bool {
    match r {
        Ok(report) => {
            &&& report.description is None
            &&& python::answered(
                engine,
                image,
                decode,
                Ok::<Option<Vec<Package>>, String>(report.python_packages),
            )
            &&& r::answered(engine, image, report.r_packages)
        },
        Err(m) => python::answered(engine, image, decode, Err::<Option<Vec<Package>>, String>(m)),
    }
}

/// Audits `image` with `engine`: its Python packages, then its R packages,
/// each from what the engine answered the listing command. A Python
/// listing that `decode` rejects ends the audit with that error; the
/// description is left for the caller to fill in.
pub fn run<C: ContainerEngine + ?Sized, D: Fn(Vec<u8>) -> Result<Vec<Package>, String>>(
    engine: &C,
    image: &str,
    decode: &D,
) -> (r: Result<AuditReport, String>)
    requires
        forall|bytes: Vec<u8>| decode.requires((bytes,)),
    ensures
        run_outcome(engine, image@, decode, r),
{
    let found = python::audit(engine, image, decode);
    let python_packages = match found {
        Ok(p) => p,
        Err(m) => {
            return Err(m);
        },
    };
    let listed = r::audit(engine, image);
    let r_packages = match listed {
        Ok(p) => p,
        Err(m) => return Err(m),
    };
    Ok(AuditReport { python_packages, r_packages, description: None })
}

/// A full audit gives what the two audits give on their own, where the
/// engine answers each listing one way and the Python listing is decoded
/// one way: if the Python audit finds `p` and the R audit finds `q`, the
/// run reports `p` and `q`, with no description.
pub proof fn lemma_run_as_separate_audits<C: ContainerEngine + ?Sized, D: Fn(Vec<u8>) -> Result<Vec<Package>, String>>(
    engine: &C,
    image: Seq<char>,
    decode: &D,
    r: Result<AuditReport, String>,
    p: Option<Vec<Package>>,
    q: Option<Vec<Package>>,
)
    requires
        answers_one_way(engine, image, python::py_command()),
        answers_one_way(engine, image, r::r_command()),
        python::decodes_one_way(decode),
        run_outcome(engine, image, decode, r),
        python::answered(engine, image, decode, Ok::<Option<Vec<Package>>, String>(p)),
        r::answered(engine, image, q),
    ensures
        r matches Ok(report) && report.python_packages == p && r::found_view(report.r_packages)
            == r::found_view(q) && report.description is None,
{
    match r {
        Ok(report) => {
            python::lemma_python_audit_determined(
                engine,
                image,
                decode,
                Ok::<Option<Vec<Package>>, String>(p),
                Ok::<Option<Vec<Package>>, String>(report.python_packages),
            );
            r::lemma_r_audit_determined(engine, image, q, report.r_packages);
        },
        Err(m) => {
            python::lemma_python_audit_determined(
                engine,
                image,
                decode,
                Ok::<Option<Vec<Package>>, String>(p),
                Err::<Option<Vec<Package>>, String>(m),
            );
        },
    }
}

/// A full audit fails as the Python audit does, where the engine answers
/// the pip listing one way and it is decoded one way: with the same
/// message.
pub proof fn lemma_run_fails_as_python_audit<C: ContainerEngine + ?Sized, D: Fn(Vec<u8>) -> Result<Vec<Package>, String>>(
    engine: &C,
    image: Seq<char>,
    decode: &D,
    r: Result<AuditReport, String>,
    m: String,
)
    requires
        answers_one_way(engine, image, python::py_command()),
        python::decodes_one_way(decode),
        run_outcome(engine, image, decode, r),
        python::answered(engine, image, decode, Err::<Option<Vec<Package>>, String>(m)),
    ensures
        r matches Err(e) && e@ == m@,
{
    match r {
        Ok(report) => {
            python::lemma_python_audit_determined(
                engine,
                image,
                decode,
                Err::<Option<Vec<Package>>, String>(m),
                Ok::<Option<Vec<Package>>, String>(report.python_packages),
            );
        },
        Err(e) => {
            python::lemma_python_audit_determined(
                engine,
                image,
                decode,
                Err::<Option<Vec<Package>>, String>(m),
                Err::<Option<Vec<Package>>, String>(e),
            );
        },
    }
}

} // verus!
