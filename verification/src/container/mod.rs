//! Container engines: the conversations that build images, run commands
//! in them and remove them, with Docker or with Podman.

pub mod docker;
pub mod podman;
pub mod session;
pub mod traits;

use vstd::prelude::*;

verus! {

/// The engines a run can use.
#[derive(Debug, Clone, Copy, PartialEq, Eq, Structural)]
pub enum EngineChoice {
    Podman,
    Docker,
}

/// The engine named `name`: `podman` or `docker`.
pub fn select_engine(name: &str) -> (r: Result<EngineChoice, String>)
    ensures
        name@ == "podman"@ ==> r == Ok::<EngineChoice, String>(EngineChoice::Podman),
        name@ == "docker"@ ==> r == Ok::<EngineChoice, String>(EngineChoice::Docker),
        name@ != "podman"@ && name@ != "docker"@ ==> (r matches Err(m) && m@
            == "Unknown container engine: "@ + name@),
{
    proof {
        reveal_strlit("podman");
        reveal_strlit("docker");
        assert("docker"@[0] != "podman"@[0]);
    }
    if crate::text::same_text(name, "podman") {
        Ok(EngineChoice::Podman)
    } else if crate::text::same_text(name, "docker") {
        Ok(EngineChoice::Docker)
    } else {
        let mut m = "Unknown container engine: ".to_string();
        m.append(name);
        Err(m)
    }
}

} // verus!
