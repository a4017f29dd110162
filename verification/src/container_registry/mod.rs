//! Container registries and the commands that reach them.

pub mod docker;

use vstd::prelude::*;

verus! {

/// The registries that images are kept in.
#[derive(Clone, Copy, Debug, PartialEq, Eq, Structural)]
pub enum Kind {
    DockerHub,
    Ecr,
    Docr,
    ScalewayCr,
}

impl Kind {
    /// The name of the registry, as it is shown.
    pub open spec fn provider(self) -> Seq<char> {
        match self {
            Kind::DockerHub => "DockerHub"@,
            Kind::Ecr => "AWS ECR"@,
            Kind::Docr => "DigitalOcean Registry"@,
            Kind::ScalewayCr => "Scaleway Registry"@,
        }
    }

    /// The name of the registry, as it is shown.
    pub fn provider_name(&self) -> (r: &'static str)
        ensures
            r@ == self.provider(),
    {
        match self {
            Kind::DockerHub => "DockerHub",
            Kind::Ecr => "AWS ECR",
            Kind::Docr => "DigitalOcean Registry",
            Kind::ScalewayCr => "Scaleway Registry",
        }
    }
}

} // verus!
