//! The planner: from a source tree, an environment and options to a build
//! plan.

pub mod app;
pub mod environment;
pub mod error;
pub mod laws;
pub mod orchestrator;
pub mod pkg;
pub mod plan;
pub mod procfile;
pub mod render;
pub mod text;

use vstd::prelude::*;
use vstd::string::*;
use crate::providers::Provider;
use self::app::App;
use self::environment::{Environment, EnvironmentVariables};
use self::error::{in_stage, outcome, Error};
use self::pkg::{Pkg, PkgView};
use self::plan::{BuildPlan, PlanView};
use self::procfile::{parse_web_command, web_command};

verus! {

/// What a caller may set before planning and building.
#[derive(Debug)]
pub struct AppBuilderOptions {
    /// Stands in place of the build command that the provider suggests.
    pub custom_build_cmd: Option<String>,
    /// Stands in place of the start command of the Procfile and of the
    /// provider.
    pub custom_start_cmd: Option<String>,
    /// Packages that come before those of the provider.
    pub custom_pkgs: Vec<Pkg>,
    /// Whether the plan records the catalog commit to build from.
    pub pin_pkgs: bool,
    /// Where to leave the artifacts; with it set, no image is built.
    pub out_dir: Option<String>,
    /// A persisted plan to build from; with it set, no plan is derived.
    pub plan_path: Option<String>,
}

impl AppBuilderOptions {
    /// The options that set nothing.
    pub fn empty() -> (r: AppBuilderOptions)
        ensures
            r.custom_build_cmd is None,
            r.custom_start_cmd is None,
            r.custom_pkgs@.len() == 0,
            !r.pin_pkgs,
            r.out_dir is None,
            r.plan_path is None,
    {
        AppBuilderOptions {
            custom_build_cmd: None,
            custom_start_cmd: None,
            custom_pkgs: Vec::new(),
            pin_pkgs: false,
            out_dir: None,
            plan_path: None,
        }
    }
}

/// Derives the plan of one application and renders it.
pub struct AppBuilder<'a, P: Provider + ?Sized> {
    /// The tag for the image, if the caller chose one.
    pub name: Option<String>,
    pub app: &'a App,
    pub environment: &'a Environment,
    pub options: &'a AppBuilderOptions,
    /// The active provider: the one that detection bound, if any.
    pub provider: Option<&'a P>,
}

/// `first` where it is present, else `second`.
pub open spec fn or_else(first: Option<Seq<char>>, second: Option<Seq<char>>) -> Option<
    Seq<char>,
> {
    if first is Some {
        first
    } else {
        second
    }
}

/// What the Procfile of a tree says of the web process: nothing where the
/// tree has no Procfile, a failure where it cannot be read.
pub open spec fn procfile_command(app: &App) -> Result<Option<Seq<char>>, Seq<Seq<char>>> {
    if !app@.files.contains_key("Procfile"@) {
        Ok(None)
    } else {
        match app@.files["Procfile"@] {
            Some(contents) => Ok(web_command(contents)),
            None => Err(app::read_failure("Procfile"@, true)),
        }
    }
}

/// The position of the first provider at or after `from` that does not
/// answer a plain no, or the number of providers when all of them do.
pub open spec fn first_decisive<P: Provider + ?Sized>(
    providers: Seq<&P>,
    app: &App,
    env: &Environment,
    from: int,
) -> int
    decreases providers.len() - from,
{
    if 0 <= from < providers.len() && providers[from].answers(app, env).detect == Ok::<
        bool,
        Seq<Seq<char>>,
    >(false) {
        first_decisive(providers, app, env, from + 1)
    } else {
        from
    }
}

/// The outcome of detection: the position of the first provider that
/// claims the tree, nothing where none does, or the failure of the first
/// provider that fails before one claims it.
pub open spec fn detected<P: Provider + ?Sized>(
    providers: Seq<&P>,
    app: &App,
    env: &Environment,
) -> Result<Option<int>, Seq<Seq<char>>> {
    let k = first_decisive(providers, app, env, 0);
    if k >= providers.len() {
        Ok(None)
    } else {
        match providers[k].answers(app, env).detect {
            Ok(_) => Ok(Some(k)),
            Err(e) => Err(e),
        }
    }
}

/// The version of the plan schema.
pub open spec fn plan_version() -> Seq<char> {
    "0.0.1"@
}

/// The catalog commit that a pinned plan records.
pub open spec fn pinned_archive() -> Seq<char> {
    "30d3d79b7d3607d56546dd2a6b49e156ba0ec634"@
}

impl<'a, P: Provider + ?Sized> AppBuilder<'a, P> {
    /// The plan that the bound provider, the options, the tree and the
    /// environment yield. The stages run in the order packages, install
    /// command, build command, start command, variables; the first that
    /// fails ends the planning, and its failure carries the stage's name.
    pub open spec fn plan_outcome(&self) -> Result<PlanView, Seq<Seq<char>>> {
        match in_stage(self.pkgs_outcome(), "Getting packages"@) {
            Err(e) => Err(e),
            Ok(pkgs) => match in_stage(
                self.install_cmd_outcome(),
                "Generating install command"@,
            ) {
                Err(e) => Err(e),
                Ok(install_cmd) => match in_stage(
                    self.build_cmd_outcome(),
                    "Generating build command"@,
                ) {
                    Err(e) => Err(e),
                    Ok(build_cmd) => match in_stage(
                        self.start_cmd_outcome(),
                        "Generating start command"@,
                    ) {
                        Err(e) => Err(e),
                        Ok(start_cmd) => match in_stage(
                            self.variables_outcome(),
                            "Getting plan variables"@,
                        ) {
                            Err(e) => Err(e),
                            Ok(variables) => Ok(
                                PlanView {
                                    version: plan_version(),
                                    nixpkgs_archive: if self.options.pin_pkgs {
                                        Some(pinned_archive())
                                    } else {
                                        None
                                    },
                                    pkgs,
                                    install_cmd,
                                    start_cmd,
                                    build_cmd,
                                    variables,
                                },
                            ),
                        },
                    },
                },
            },
        }
    }

    /// Whether `other` is this builder but for the provider it has bound.
    pub open spec fn same_inputs(&self, other: &AppBuilder<'a, P>) -> bool {
        &&& self.name == other.name
        &&& self.app == other.app
        &&& self.environment == other.environment
        &&& self.options == other.options
    }

    /// Whether `after` is what detection among `providers` makes of this
    /// builder: the first provider that claims the tree is bound, none where
    /// none claims it, and where detection fails the binding stays.
    pub open spec fn rebound(&self, after: &AppBuilder<'a, P>, providers: Seq<&P>) -> bool {
        &&& self.same_inputs(after)
        &&& match detected(providers, self.app, self.environment) {
            Ok(Some(k)) => after.provider == Some(providers[k]),
            Ok(None) => after.provider is None,
            Err(e) => after.provider == self.provider,
        }
    }

    /// What planning among `providers` yields, seen from the builder as
    /// detection left it: the failure of detection, or the plan of the
    /// provider that is bound.
    pub open spec fn plan_result(&self, providers: Seq<&P>) -> Result<
        PlanView,
        Seq<Seq<char>>,
    > {
        match detected(providers, self.app, self.environment) {
            Ok(_) => self.plan_outcome(),
            Err(e) => Err(e.push("Detecting provider"@)),
        }
    }

    /// The packages of the plan: the custom ones, then those of the active
    /// provider.
    pub open spec fn pkgs_outcome(&self) -> Result<Seq<PkgView>, Seq<Seq<char>>> {
        match self.provider {
            Some(provider) => match provider.answers(self.app, self.environment).pkgs {
                Ok(pkgs) => Ok(self.options.custom_pkgs.deep_view() + pkgs),
                Err(e) => Err(e),
            },
            None => Ok(self.options.custom_pkgs.deep_view()),
        }
    }

    /// The install command of the plan: that of the active provider.
    pub open spec fn install_cmd_outcome(&self) -> Result<Option<Seq<char>>, Seq<Seq<char>>> {
        match self.provider {
            Some(provider) => provider.answers(self.app, self.environment).install_cmd,
            None => Ok(None),
        }
    }

    /// The build command of the plan: the custom one, else the suggestion
    /// of the active provider.
    pub open spec fn build_cmd_outcome(&self) -> Result<Option<Seq<char>>, Seq<Seq<char>>> {
        let suggested = match self.provider {
            Some(provider) => provider.answers(self.app, self.environment).build_cmd,
            None => Ok(None),
        };
        match suggested {
            Ok(cmd) => Ok(or_else(self.options.custom_build_cmd.deep_view(), cmd)),
            Err(e) => Err(e),
        }
    }

    /// The start command of the plan: the custom one, else that of the
    /// Procfile, else the suggestion of the active provider.
    pub open spec fn start_cmd_outcome(&self) -> Result<Option<Seq<char>>, Seq<Seq<char>>> {
        match procfile_command(self.app) {
            Err(e) => Err(e),
            Ok(procfile_cmd) => {
                let suggested = match self.provider {
                    Some(provider) => provider.answers(self.app, self.environment).start_cmd,
                    None => Ok(None),
                };
                match suggested {
                    Ok(cmd) => Ok(
                        or_else(
                            or_else(self.options.custom_start_cmd.deep_view(), procfile_cmd),
                            cmd,
                        ),
                    ),
                    Err(e) => Err(e),
                }
            },
        }
    }

    /// The variables of the plan: those of the environment, overlaid with
    /// those of the active provider.
    pub open spec fn variables_outcome(&self) -> Result<
        Map<Seq<char>, Seq<char>>,
        Seq<Seq<char>>,
    > {
        match self.provider {
            Some(provider) => match provider.answers(self.app, self.environment).variables {
                Ok(variables) => Ok(self.environment@.union_prefer_right(variables)),
                Err(e) => Err(e),
            },
            None => Ok(self.environment@),
        }
    }

    /// A builder for `app` in `environment` under `options`, with no
    /// provider bound yet.
    pub fn new(
        name: Option<String>,
        app: &'a App,
        environment: &'a Environment,
        options: &'a AppBuilderOptions,
    ) -> (r: Result<AppBuilder<'a, P>, Error>)
        ensures
            r matches Ok(builder) && builder.name == name && builder.app == app
                && builder.environment == environment && builder.options == options
                && builder.provider is None,
    {
        Ok(AppBuilder { name, app, environment, options, provider: None })
    }

    /// The packages of the plan.
    pub fn get_pkgs(&self) -> (r: Result<Vec<Pkg>, Error>)
        ensures
            outcome(r) == self.pkgs_outcome(),
    {
        let mut pkgs: Vec<Pkg> = Vec::new();
        let custom = &self.options.custom_pkgs;
        let mut i: usize = 0;
        while i < custom.len()
            invariant
                i <= custom.len(),
                pkgs.len() == i,
                forall|j: int| 0 <= j < i ==> pkgs[j]@ == custom[j]@,
            decreases custom.len() - i,
        {
            pkgs.push(custom[i].clone());
            i = i + 1;
        }
        assert(pkgs.deep_view() =~= custom.deep_view());
        match self.provider {
            Some(provider) => {
                let mut provider_pkgs = provider.pkgs(self.app, self.environment)?;
                let ghost before = pkgs.deep_view();
                let ghost added = provider_pkgs.deep_view();
                pkgs.append(&mut provider_pkgs);
                assert(pkgs.deep_view() =~= before + added);
                Ok(pkgs)
            },
            None => Ok(pkgs),
        }
    }

    /// The variables of the plan.
    pub fn get_variables(&self) -> (r: Result<EnvironmentVariables, Error>)
        ensures
            outcome(r) == self.variables_outcome(),
    {
        match self.provider {
            Some(provider) => {
                let provider_variables = provider.get_environment_variables(
                    self.app,
                    self.environment,
                )?;
                Ok(self.environment.merge_variables(&provider_variables))
            },
            None => Ok(Environment::clone_variables(self.environment)),
        }
    }

    /// The install command of the plan.
    pub fn get_install_cmd(&self) -> (r: Result<Option<String>, Error>)
        ensures
            outcome(r) == self.install_cmd_outcome(),
    {
        match self.provider {
            Some(provider) => provider.install_cmd(self.app, self.environment),
            None => Ok(None),
        }
    }

    /// The build command of the plan.
    pub fn get_build_cmd(&self) -> (r: Result<Option<String>, Error>)
        ensures
            outcome(r) == self.build_cmd_outcome(),
    {
        let suggested_build_cmd = match self.provider {
            Some(provider) => provider.suggested_build_cmd(self.app, self.environment)?,
            None => None,
        };
        match &self.options.custom_build_cmd {
            Some(cmd) => Ok(Some(cmd.clone())),
            None => Ok(suggested_build_cmd),
        }
    }

    /// The start command of the plan.
    pub fn get_start_cmd(&self) -> (r: Result<Option<String>, Error>)
        ensures
            outcome(r) == self.start_cmd_outcome(),
    {
        let procfile_cmd = self.parse_procfile()?;
        let suggested_start_cmd = match self.provider {
            Some(provider) => provider.suggested_start_command(self.app, self.environment)?,
            None => None,
        };
        match &self.options.custom_start_cmd {
            Some(cmd) => Ok(Some(cmd.clone())),
            None => match procfile_cmd {
                Some(cmd) => Ok(Some(cmd)),
                None => Ok(suggested_start_cmd),
            },
        }
    }

    /// Asks the providers in order and binds the first that claims the
    /// tree; binds none where none claims it. A provider that fails ends the
    /// detection, and the binding stays as it was.
    pub fn detect(&mut self, providers: Vec<&'a P>) -> (r: Result<(), Error>)
        ensures
            old(self).rebound(final(self), providers@),
            match detected(providers@, old(self).app, old(self).environment) {
                Ok(_) => r is Ok,
                Err(e) => r matches Err(x) && x@ == e,
            },
    {
        let mut i: usize = 0;
        while i < providers.len()
            invariant
                i <= providers.len(),
                *self == *old(self),
                first_decisive(providers@, self.app, self.environment, 0) == first_decisive(
                    providers@,
                    self.app,
                    self.environment,
                    i as int,
                ),
            decreases providers.len() - i,
        {
            let provider = providers[i];
            let matches = provider.detect(self.app, self.environment)?;
            if matches {
                let found = Some(provider);
                self.provider = found;
                return Ok(());
            }
            i = i + 1;
        }
        self.provider = None;
        Ok(())
    }

    /// Derives the plan: detects the provider, then runs the stages of
    /// [`AppBuilder::plan_outcome`].
    pub fn plan(&mut self, providers: Vec<&'a P>) -> (r: Result<BuildPlan, Error>)
        ensures
            old(self).rebound(final(self), providers@),
            outcome(r) == final(self).plan_result(providers@),
    {
        match self.detect(providers) {
            Ok(()) => {},
            Err(e) => {
                return Err(e.context("Detecting provider"));
            },
        }
        let pkgs = match self.get_pkgs() {
            Ok(pkgs) => pkgs,
            Err(e) => {
                return Err(e.context("Getting packages"));
            },
        };
        let install_cmd = match self.get_install_cmd() {
            Ok(cmd) => cmd,
            Err(e) => {
                return Err(e.context("Generating install command"));
            },
        };
        let build_cmd = match self.get_build_cmd() {
            Ok(cmd) => cmd,
            Err(e) => {
                return Err(e.context("Generating build command"));
            },
        };
        let start_cmd = match self.get_start_cmd() {
            Ok(cmd) => cmd,
            Err(e) => {
                return Err(e.context("Generating start command"));
            },
        };
        let variables = match self.get_variables() {
            Ok(variables) => variables,
            Err(e) => {
                return Err(e.context("Getting plan variables"));
            },
        };
        let plan = BuildPlan {
            version: String::from_str("0.0.1"),
            nixpkgs_archive: if self.options.pin_pkgs {
                Some(String::from_str("30d3d79b7d3607d56546dd2a6b49e156ba0ec634"))
            } else {
                None
            },
            pkgs,
            install_cmd,
            start_cmd,
            build_cmd,
            variables,
        };
        Ok(plan)
    }

    /// The command of the web process in the Procfile of the tree, if the
    /// tree has one and it names such a command.
    pub fn parse_procfile(&self) -> (r: Result<Option<String>, Error>)
        ensures
            outcome(r) == procfile_command(self.app),
    {
        if self.app.includes_file("Procfile") {
            let contents = self.app.read_file("Procfile")?;
            Ok(parse_web_command(contents.as_str()))
        } else {
            Ok(None)
        }
    }
}

} // verus!
