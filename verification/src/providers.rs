//! The capability that each supported ecosystem implements.

use vstd::prelude::*;
use crate::nixpacks::app::App;
use crate::nixpacks::environment::{Environment, EnvironmentVariables};
use crate::nixpacks::error::{outcome, Error};
use crate::nixpacks::pkg::{Pkg, PkgView};

verus! {

/// What a provider answers on one tree in one environment: for each of its
/// operations the value it returns or the failure it reports.
pub struct Answers {
    pub detect: Result<bool, Seq<Seq<char>>>,
    pub pkgs: Result<Seq<PkgView>, Seq<Seq<char>>>,
    pub install_cmd: Result<Option<Seq<char>>, Seq<Seq<char>>>,
    pub build_cmd: Result<Option<Seq<char>>, Seq<Seq<char>>>,
    pub start_cmd: Result<Option<Seq<char>>, Seq<Seq<char>>>,
    pub variables: Result<Map<Seq<char>, Seq<char>>, Seq<Seq<char>>>,
}

/// An ecosystem detector that supplies the defaults for the trees it claims.
///
/// Every operation is a function of the tree and the environment alone:
/// what it returns is what [`Provider::answers`] holds for it, and the
/// planner's contracts are stated over those answers. `answers` exists in
/// specifications only. Compiled code never calls it, so an implementation
/// outside verified code gives it a body that cannot be reached.
pub trait Provider {
    /// A stable identifier of the ecosystem.
    fn name(&self) -> &str;

    /// The answers of this provider on `app` in `env`.
    spec fn answers(&self, app: &App, env: &Environment) -> Answers;

    /// Whether this provider claims the tree.
    fn detect(&self, app: &App, env: &Environment) -> (r: Result<bool, Error>)
        ensures
            outcome(r) == self.answers(app, env).detect,
    ;

    /// The packages that the tree needs, in order.
    fn pkgs(&self, app: &App, env: &Environment) -> (r: Result<Vec<Pkg>, Error>)
        ensures
            outcome(r) == self.answers(app, env).pkgs,
    ;

    /// The command that installs the tree's dependencies, if there is one.
    fn install_cmd(&self, app: &App, env: &Environment) -> (r: Result<Option<String>, Error>)
        ensures
            outcome(r) == self.answers(app, env).install_cmd,
    ;

    /// The build command that this ecosystem suggests, if any.
    fn suggested_build_cmd(&self, app: &App, env: &Environment) -> (r: Result<
        Option<String>,
        Error,
    >)
        ensures
            outcome(r) == self.answers(app, env).build_cmd,
    ;

    /// The start command that this ecosystem suggests, if any.
    fn suggested_start_command(&self, app: &App, env: &Environment) -> (r: Result<
        Option<String>,
        Error,
    >)
        ensures
            outcome(r) == self.answers(app, env).start_cmd,
    ;

    /// The variables that this ecosystem sets.
    fn get_environment_variables(&self, app: &App, env: &Environment) -> (r: Result<
        EnvironmentVariables,
        Error,
    >)
        ensures
            outcome(r) == self.answers(app, env).variables,
    ;
}

} // verus!
