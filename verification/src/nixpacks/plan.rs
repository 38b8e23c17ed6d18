//! The build plan: what the planner derives and the renderers consume.

use vstd::prelude::*;
use super::environment::EnvironmentVariables;
use super::pkg::{Pkg, PkgView};

verus! {

/// A normalized description of how to install, build and start an
/// application, with its packages and variables.
#[derive(Debug, PartialEq, Eq)]
pub struct BuildPlan {
    pub version: String,
    pub nixpkgs_archive: Option<String>,
    pub pkgs: Vec<Pkg>,
    pub install_cmd: Option<String>,
    pub start_cmd: Option<String>,
    pub build_cmd: Option<String>,
    pub variables: EnvironmentVariables,
}

/// The mathematical content of a [`BuildPlan`].
#[verifier::ext_equal]
pub struct PlanView {
    pub version: Seq<char>,
    pub nixpkgs_archive: Option<Seq<char>>,
    pub pkgs: Seq<PkgView>,
    pub install_cmd: Option<Seq<char>>,
    pub start_cmd: Option<Seq<char>>,
    pub build_cmd: Option<Seq<char>>,
    pub variables: Map<Seq<char>, Seq<char>>,
}

impl View for BuildPlan {
    type V = PlanView;

    open spec fn view(&self) -> PlanView {
        PlanView {
            version: self.version@,
            nixpkgs_archive: self.nixpkgs_archive.deep_view(),
            pkgs: self.pkgs.deep_view(),
            install_cmd: self.install_cmd.deep_view(),
            start_cmd: self.start_cmd.deep_view(),
            build_cmd: self.build_cmd.deep_view(),
            variables: self.variables@,
        }
    }
}

impl DeepView for BuildPlan {
    type V = PlanView;

    open spec fn deep_view(&self) -> PlanView {
        self@
    }
}

} // verus!
