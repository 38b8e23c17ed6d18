use nixpacks::nixpacks::app::{App, AppFile};
use nixpacks::nixpacks::environment::{Environment, EnvironmentVariables};
use nixpacks::nixpacks::error::Error;
use nixpacks::nixpacks::orchestrator::{BuildAction, BuildEvent, BuildState};
use nixpacks::nixpacks::pkg::Pkg;
use nixpacks::nixpacks::plan::BuildPlan;
use nixpacks::nixpacks::{AppBuilder, AppBuilderOptions};
use nixpacks::providers::{Answers, Provider};

struct Failing;

impl Provider for Failing {
    fn name(&self) -> &str {
        "failing"
    }

    fn answers(&self, _app: &App, _env: &Environment) -> Answers {
        unreachable!()
    }

    fn detect(&self, _app: &App, _env: &Environment) -> Result<bool, Error> {
        Err(Error::new("cannot look"))
    }

    fn pkgs(&self, _app: &App, _env: &Environment) -> Result<Vec<Pkg>, Error> {
        Ok(Vec::new())
    }

    fn install_cmd(&self, _app: &App, _env: &Environment) -> Result<Option<String>, Error> {
        Ok(None)
    }

    fn suggested_build_cmd(&self, _app: &App, _env: &Environment) -> Result<Option<String>, Error> {
        Ok(None)
    }

    fn suggested_start_command(
        &self,
        _app: &App,
        _env: &Environment,
    ) -> Result<Option<String>, Error> {
        Ok(None)
    }

    fn get_environment_variables(
        &self,
        _app: &App,
        _env: &Environment,
    ) -> Result<EnvironmentVariables, Error> {
        Ok(EnvironmentVariables::new())
    }
}

fn app() -> App {
    App::new("/srv/app", vec![AppFile::new("Procfile", "web: ./serve")])
}

fn env() -> Environment {
    let mut variables = EnvironmentVariables::new();
    variables.insert("CI".to_string(), "true".to_string());
    Environment::new(variables)
}

fn plan() -> BuildPlan {
    BuildPlan {
        version: "0.0.1".to_string(),
        nixpkgs_archive: None,
        pkgs: vec![Pkg::new("go")],
        install_cmd: None,
        start_cmd: Some("./serve".to_string()),
        build_cmd: Some("go build".to_string()),
        variables: EnvironmentVariables::new(),
    }
}

fn strings(items: &[&str]) -> Vec<String> {
    items.iter().map(|s| s.to_string()).collect()
}

fn failure(messages: &[&str]) -> (BuildState, BuildAction) {
    let error = Error { messages: strings(messages) };
    (BuildState::Failed { error: error.clone() }, BuildAction::Abort { error })
}

fn is_uuid(text: &str) -> bool {
    text.len() == 36
        && text.chars().enumerate().all(|(i, c)| {
            if i == 8 || i == 13 || i == 18 || i == 23 {
                c == '-'
            } else {
                c.is_ascii_digit() || ('a'..='f').contains(&c)
            }
        })
}

#[test]
fn build_into_an_output_directory() {
    let (app, env) = (app(), env());
    let mut options = AppBuilderOptions::empty();
    options.out_dir = Some("/out".to_string());
    let mut builder = AppBuilder::<Failing>::new(Some("img".to_string()), &app, &env, &options).unwrap();
    let (state, action) = builder.build(Vec::new());
    let planned = builder.plan(Vec::new()).unwrap();
    assert_eq!(planned.start_cmd, Some("./serve".to_string()));
    assert_eq!(
        state,
        BuildState::DestReady {
            plan: builder.plan(Vec::new()).unwrap(),
            dest: "/out".to_string(),
            name: "img".to_string(),
        }
    );
    assert_eq!(
        action,
        BuildAction::Run { program: "cp".to_string(), args: strings(&["-a", "/srv/app/.", "/out"]) }
    );

    let (state, action) = builder.advance(state, BuildEvent::Succeeded);
    assert_eq!(
        state,
        BuildState::SourceCopied { dest: "/out".to_string(), name: "img".to_string() }
    );
    assert_eq!(
        action,
        BuildAction::WriteArtifacts {
            dest: "/out".to_string(),
            artifacts: AppBuilder::write_build_plan(&planned).unwrap(),
        }
    );

    let (state, action) = builder.advance(state, BuildEvent::Succeeded);
    assert_eq!(state, BuildState::Saved { dest: "/out".to_string() });
    assert_eq!(
        action,
        BuildAction::Report { message: "\nSaved output to:\n  /out".to_string() }
    );

    let (state, action) = builder.advance(state, BuildEvent::Succeeded);
    assert_eq!(state, BuildState::Saved { dest: "/out".to_string() });
    assert_eq!(action, BuildAction::Stop);
}

#[test]
fn build_an_image_in_a_temporary_directory() {
    let (app, env) = (app(), env());
    let options = AppBuilderOptions::empty();
    let builder = AppBuilder::<Failing>::new(Some("img".to_string()), &app, &env, &options).unwrap();
    let (state, action) = builder.do_build(plan());
    assert_eq!(state, BuildState::PlanAcquired { plan: plan(), name: "img".to_string() });
    assert_eq!(action, BuildAction::CreateTempDir { prefix: "nixpacks".to_string() });

    let (state, action) =
        builder.advance(state, BuildEvent::TempDirCreated("/tmp/nixpacks.1".to_string()));
    assert_eq!(
        state,
        BuildState::DestReady {
            plan: plan(),
            dest: "/tmp/nixpacks.1".to_string(),
            name: "img".to_string(),
        }
    );
    assert_eq!(
        action,
        BuildAction::Run {
            program: "cp".to_string(),
            args: strings(&["-a", "/srv/app/.", "/tmp/nixpacks.1"]),
        }
    );

    let (state, action) = builder.advance(state, BuildEvent::Succeeded);
    assert_eq!(
        action,
        BuildAction::WriteArtifacts {
            dest: "/tmp/nixpacks.1".to_string(),
            artifacts: AppBuilder::write_build_plan(&plan()).unwrap(),
        }
    );

    let (state, action) = builder.advance(state, BuildEvent::Succeeded);
    assert_eq!(
        state,
        BuildState::ArtifactsWritten {
            dest: "/tmp/nixpacks.1".to_string(),
            name: "img".to_string(),
        }
    );
    assert_eq!(
        action,
        BuildAction::Run {
            program: "docker".to_string(),
            args: strings(&["build", "/tmp/nixpacks.1", "-t", "img"]),
        }
    );

    let (state, action) = builder.advance(state, BuildEvent::Succeeded);
    assert_eq!(state, BuildState::Built { name: "img".to_string() });
    assert_eq!(
        action,
        BuildAction::Report { message: "\nRun:\n  docker run -it img".to_string() }
    );

    let (state, action) = builder.advance(state, BuildEvent::Failed(Error::new("late")));
    assert_eq!(state, BuildState::Built { name: "img".to_string() });
    assert_eq!(action, BuildAction::Stop);
}

#[test]
fn an_unnamed_build_is_tagged_with_a_fresh_identifier() {
    let (app, env) = (app(), env());
    let options = AppBuilderOptions::empty();
    let mut builder = AppBuilder::<Failing>::new(None, &app, &env, &options).unwrap();
    let first = match builder.do_build(plan()).0 {
        BuildState::PlanAcquired { name, .. } => name,
        other => panic!("unexpected state {:?}", other),
    };
    let second = match builder.build(Vec::new()).0 {
        BuildState::PlanAcquired { name, .. } => name,
        other => panic!("unexpected state {:?}", other),
    };
    assert!(is_uuid(&first));
    assert!(is_uuid(&second));
    assert_ne!(first, second);
    assert_eq!(&first[14..15], "4");
}

#[test]
fn image_name_prefers_the_given_name() {
    let (app, env) = (app(), env());
    let options = AppBuilderOptions::empty();
    let named = AppBuilder::<Failing>::new(Some("img".to_string()), &app, &env, &options).unwrap();
    assert_eq!(named.image_name("id".to_string()), "img");
    let unnamed = AppBuilder::<Failing>::new(None, &app, &env, &options).unwrap();
    assert_eq!(unnamed.image_name("id".to_string()), "id");
    let (state, _) = unnamed.do_build_named(plan(), "tag".to_string());
    assert_eq!(state, BuildState::PlanAcquired { plan: plan(), name: "tag".to_string() });
}

#[test]
fn a_persisted_plan_bypasses_planning() {
    let (app, env) = (app(), env());
    let mut options = AppBuilderOptions::empty();
    options.plan_path = Some("plan.json".to_string());
    options.out_dir = Some("/out".to_string());
    let failing = Failing;
    let mut builder = AppBuilder::<Failing>::new(Some("img".to_string()), &app, &env, &options).unwrap();
    let (state, action) = builder.build(vec![&failing]);
    assert_eq!(state, BuildState::Start { name: "img".to_string() });
    assert_eq!(action, BuildAction::LoadPlan { path: "plan.json".to_string() });
    assert!(builder.provider.is_none());

    let (state, action) = builder.advance(state, BuildEvent::PlanLoaded(plan()));
    assert_eq!(
        state,
        BuildState::DestReady { plan: plan(), dest: "/out".to_string(), name: "img".to_string() }
    );
    assert_eq!(
        action,
        BuildAction::Run { program: "cp".to_string(), args: strings(&["-a", "/srv/app/.", "/out"]) }
    );
}

#[test]
fn a_plan_that_cannot_be_loaded_fails_the_build() {
    let (app, env) = (app(), env());
    let mut options = AppBuilderOptions::empty();
    options.plan_path = Some("plan.json".to_string());
    let builder = AppBuilder::<Failing>::new(Some("img".to_string()), &app, &env, &options).unwrap();
    let start = || BuildState::Start { name: "img".to_string() };
    assert_eq!(
        builder.advance(start(), BuildEvent::PlanUnreadable(Error::new("denied"))),
        failure(&["denied", "Reading build plan"])
    );
    assert_eq!(
        builder.advance(start(), BuildEvent::PlanMalformed(Error::new("EOF"))),
        failure(&["EOF", "Deserializing build plan"])
    );
    assert_eq!(builder.advance(start(), BuildEvent::Succeeded), failure(&["Unexpected event"]));
}

#[test]
fn a_failing_planner_fails_the_build() {
    let (app, env) = (app(), env());
    let options = AppBuilderOptions::empty();
    let failing = Failing;
    let mut builder = AppBuilder::<Failing>::new(None, &app, &env, &options).unwrap();
    assert_eq!(
        builder.build(vec![&failing]),
        failure(&["cannot look", "Detecting provider", "Creating build plan"])
    );
    let (state, action) = builder.build_named(vec![&failing], "img".to_string());
    let (state, next) = builder.advance(state, BuildEvent::Succeeded);
    assert_eq!(
        (state, action),
        failure(&["cannot look", "Detecting provider", "Creating build plan"])
    );
    assert_eq!(next, BuildAction::Stop);
}

#[test]
fn each_stage_names_its_failure() {
    let (app, env) = (app(), env());
    let options = AppBuilderOptions::empty();
    let builder = AppBuilder::<Failing>::new(None, &app, &env, &options).unwrap();
    let dest = || "/tmp/d".to_string();
    let name = || "img".to_string();
    let boom = || BuildEvent::Failed(Error::new("boom"));

    let acquired = || BuildState::PlanAcquired { plan: plan(), name: name() };
    assert_eq!(builder.advance(acquired(), boom()), failure(&["boom", "Creating a temp directory"]));
    assert_eq!(builder.advance(acquired(), BuildEvent::Succeeded), failure(&["Unexpected event"]));

    let ready = || BuildState::DestReady { plan: plan(), dest: dest(), name: name() };
    assert_eq!(
        builder.advance(ready(), boom()),
        failure(&["boom", "Copying app source to tmp dir"])
    );
    assert_eq!(builder.advance(ready(), BuildEvent::ExitedWithFailure), failure(&["Copy failed"]));
    assert_eq!(
        builder.advance(ready(), BuildEvent::TempDirCreated(dest())),
        failure(&["Unexpected event"])
    );

    let copied = || BuildState::SourceCopied { dest: dest(), name: name() };
    assert_eq!(builder.advance(copied(), boom()), failure(&["boom", "Writing build plan"]));
    assert_eq!(
        builder.advance(copied(), BuildEvent::ExitedWithFailure),
        failure(&["Unexpected event"])
    );

    let written = || BuildState::ArtifactsWritten { dest: dest(), name: name() };
    assert_eq!(builder.advance(written(), boom()), failure(&["boom", "Building image"]));
    assert_eq!(
        builder.advance(written(), BuildEvent::ExitedWithFailure),
        failure(&["Docker build failed"])
    );
    assert_eq!(
        builder.advance(written(), BuildEvent::PlanLoaded(plan())),
        failure(&["Unexpected event"])
    );

    let (state, action) = failure(&["boom"]);
    assert_eq!(builder.advance(state, BuildEvent::Succeeded).1, BuildAction::Stop);
    assert_eq!(action, BuildAction::Abort { error: Error::new("boom") });
}
