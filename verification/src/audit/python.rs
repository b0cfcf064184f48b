//! Python packages: the JSON that `pip list --format=json` prints.

use vstd::prelude::*;

use super::models::Package;
use crate::container::traits::{answers_one_way, command_view, output_view, ContainerEngine};

verus! {

/// The text that heads the error for a listing that does not decode.
pub open spec fn parse_error_prefix() -> Seq<char> {
    "failed parsing python packages: "@
}

/// The words of the command that lists the installed Python packages.
pub open spec fn py_command() -> Seq<Seq<char>> {
    seq!["python3"@, "-m"@, "pip"@, "list"@, "--format=json"@]
}

/// The command that lists the installed Python packages.
pub fn command() -> (c: Vec<&'static str>)
    ensures
        command_view(c@) == py_command(),
{
    let c = vec!["python3", "-m", "pip", "list", "--format=json"];
    assert(command_view(c@) =~= py_command());
    c
}

/// Whether `r` is the outcome of an audit whose listing decoded to
/// `decoded`: the packages, or the decoding error under a heading.
pub open spec fn interpreted(decoded: Result<Vec<Package>, String>, r: Result<Option<Vec<Package>>, String>) -> bool {
    match decoded {
        Ok(ps) => r == Ok::<Option<Vec<Package>>, String>(Some(ps)),
        Err(e) => r matches Err(m) && m@ == parse_error_prefix() + e@,
    }
}

/// Whether `r` is the outcome of an audit given what running pip gave:
/// `None` when pip could not be run; otherwise the outcome for what
/// `decode` read from its listing.
pub open spec fn pip_outcome<D: Fn(Vec<u8>) -> Result<Vec<Package>, String>>(
    output: Result<Vec<u8>, String>,
    decode: &D,
    r: Result<Option<Vec<Package>>, String>,
) -> bool {
    match output {
        Err(_) => r == Ok::<Option<Vec<Package>>, String>(None),
        Ok(bytes) => exists|d: Result<Vec<Package>, String>|
            decode.ensures((bytes,), d) && interpreted(d, r),
    }
}

/// The outcome of an audit whose listing decoded to `decoded`: the
/// packages, or the decoding error under a heading.
pub fn interpret(decoded: Result<Vec<Package>, String>) -> (r: Result<Option<Vec<Package>>, String>)
    ensures
        decoded matches Ok(ps) ==> r == Ok::<Option<Vec<Package>>, String>(Some(ps)),
        decoded matches Err(e) ==> r matches Err(m) && m@ == parse_error_prefix() + e@,
{
    match decoded {
        Ok(ps) => Ok(Some(ps)),
        Err(e) => {
            let mut m = String::new();
            m.append("failed parsing python packages: ");
            m.append(e.as_str());
            Err(m)
        },
    }
}

/// Whether `r` is the outcome of an audit for some answer `engine` may
/// give to the pip listing command in `image`.
pub open spec fn answered<C: ContainerEngine + ?Sized, D: Fn(Vec<u8>) -> Result<Vec<Package>, String>>(
    engine: &C,
    image: Seq<char>,
    decode: &D,
    r: Result<Option<Vec<Package>>, String>,
) -> bool {
    exists|out: Result<Vec<u8>, String>|
        engine.answers(image, py_command(), output_view(out)) && pip_outcome(out, decode, r)
}

/// The outcome of an audit given what running pip gave: `None` when pip
/// could not be run; otherwise what `decode` reads from its listing, or the
/// decoding error under a heading.
pub fn from_output<D: Fn(Vec<u8>) -> Result<Vec<Package>, String>>(
    output: Result<Vec<u8>, String>,
    decode: &D,
) -> (r: Result<Option<Vec<Package>>, String>)
    requires
        forall|bytes: Vec<u8>| decode.requires((bytes,)),
    ensures
        pip_outcome(output, decode, r),
{
    match output {
        Ok(bytes) => {
            let ghost b = bytes;
            let decoded = decode(bytes);
            let ghost d = decoded;
            let r = interpret(decoded);
            assert(decode.ensures((b,), d) && interpreted(d, r));
            r
        },
        Err(_) => Ok(None),
    }
}

/// Lists the Python packages installed in `image`, as `engine` answered
/// the pip listing command there: `None` when it answered an error (pip
/// cannot be run); otherwise what `decode` reads from the JSON it printed,
/// and a listing that does not decode is an error.
pub fn audit<C: ContainerEngine + ?Sized, D: Fn(Vec<u8>) -> Result<Vec<Package>, String>>(
    engine: &C,
    image: &str,
    decode: &D,
) -> (r: Result<Option<Vec<Package>>, String>)
    requires
        forall|bytes: Vec<u8>| decode.requires((bytes,)),
    ensures
        answered(engine, image@, decode, r),
{
    let cmd = command();
    let output = engine.run(image, cmd.as_slice());
    let ghost out = output;
    assert(engine.answers(image@, py_command(), output_view(out)));
    let r = from_output(output, decode);
    assert(pip_outcome(out, decode, r));
    r
}

/// Whether `decode` reads the same bytes the same way each time.
pub open spec fn decodes_one_way<D: Fn(Vec<u8>) -> Result<Vec<Package>, String>>(decode: &D) -> bool {
    forall|b1: Vec<u8>, b2: Vec<u8>, d1: Result<Vec<Package>, String>, d2: Result<Vec<Package>, String>|
        b1@ == b2@ && #[trigger] decode.ensures((b1,), d1) && #[trigger] decode.ensures((b2,), d2)
            ==> d1 == d2
}

/// A Python audit reports exactly the packages the decoder reads from the
/// listing, in their order, where the engine answers the pip listing one
/// way, with `listing`, and the decoder reads it one way, as `ps`.
pub proof fn lemma_python_audit_reads_listing<C: ContainerEngine + ?Sized, D: Fn(Vec<u8>) -> Result<Vec<Package>, String>>(
    engine: &C,
    image: Seq<char>,
    decode: &D,
    listing: Vec<u8>,
    ps: Vec<Package>,
    r: Result<Option<Vec<Package>>, String>,
)
    requires
        answers_one_way(engine, image, py_command()),
        decodes_one_way(decode),
        engine.answers(image, py_command(), Ok::<Seq<u8>, Seq<char>>(listing@)),
        decode.ensures((listing,), Ok::<Vec<Package>, String>(ps)),
        answered(engine, image, decode, r),
    ensures
        r == Ok::<Option<Vec<Package>>, String>(Some(ps)),
{
    let expected = Ok::<Option<Vec<Package>>, String>(Some(ps));
    let out = Ok::<Vec<u8>, String>(listing);
    assert(output_view(out) == Ok::<Seq<u8>, Seq<char>>(listing@));
    assert(interpreted(Ok::<Vec<Package>, String>(ps), expected));
    assert(pip_outcome(out, decode, expected));
    assert(answered(engine, image, decode, expected));
    lemma_python_audit_determined(engine, image, decode, expected, r);
}

/// Two Python audits of one image agree, where the engine answers the pip
/// listing one way and the listing is decoded one way: both give the same
/// packages, or both fail with the same message.
pub proof fn lemma_python_audit_determined<C: ContainerEngine + ?Sized, D: Fn(Vec<u8>) -> Result<Vec<Package>, String>>(
    engine: &C,
    image: Seq<char>,
    decode: &D,
    r1: Result<Option<Vec<Package>>, String>,
    r2: Result<Option<Vec<Package>>, String>,
)
    requires
        answers_one_way(engine, image, py_command()),
        decodes_one_way(decode),
        answered(engine, image, decode, r1),
        answered(engine, image, decode, r2),
    ensures
        r1 is Ok <==> r2 is Ok,
        r1 is Ok ==> r1 == r2,
        r1 matches Err(m1) ==> r2 matches Err(m2) && m1@ == m2@,
{
    let out1 = choose|out: Result<Vec<u8>, String>|
        engine.answers(image, py_command(), output_view(out)) && pip_outcome(out, decode, r1);
    let out2 = choose|out: Result<Vec<u8>, String>|
        engine.answers(image, py_command(), output_view(out)) && pip_outcome(out, decode, r2);
    assert(output_view(out1) == output_view(out2));
    match (out1, out2) {
        (Ok(b1), Ok(b2)) => {
            let d1 = choose|d: Result<Vec<Package>, String>|
                decode.ensures((b1,), d) && interpreted(d, r1);
            let d2 = choose|d: Result<Vec<Package>, String>|
                decode.ensures((b2,), d) && interpreted(d, r2);
            assert(d1 == d2);
        },
        _ => {},
    }
}

} // verus!
