//! The build: which outside step comes next, and what its result means.
//!
//! A build alternates between decisions, which are made here, and outside
//! work (reading a persisted plan, creating a directory, running the file
//! copy and the container builder, writing files), which the caller performs.
//! The caller starts with [`AppBuilder::build`] or [`AppBuilder::do_build`],
//! performs the action it is handed, reports what happened as a
//! [`BuildEvent`] to [`AppBuilder::advance`], and goes on until it is told to
//! report, to abort or to stop.

use vstd::prelude::*;
use vstd::string::*;
use crate::providers::Provider;
use super::error::Error;
use super::plan::{BuildPlan, PlanView};
use super::render::{dockerfile, nix_expression, Artifact};
use super::{detected, AppBuilder};

verus! {

/// What the caller reports after performing an action.
#[derive(Debug, PartialEq, Eq)]
pub enum BuildEvent {
    /// The persisted plan was read and understood.
    PlanLoaded(BuildPlan),
    /// The persisted plan could not be read.
    PlanUnreadable(Error),
    /// The persisted plan was read but is no plan.
    PlanMalformed(Error),
    /// A fresh temporary directory exists at this path.
    TempDirCreated(String),
    /// The action was carried out; a program that was run exited with
    /// success.
    Succeeded,
    /// The program that was run exited with a failure status.
    ExitedWithFailure,
    /// The action could not be carried out.
    Failed(Error),
}

/// The mathematical content of a [`BuildEvent`].
pub enum EventView {
    PlanLoaded(PlanView),
    PlanUnreadable(Seq<Seq<char>>),
    PlanMalformed(Seq<Seq<char>>),
    TempDirCreated(Seq<char>),
    Succeeded,
    ExitedWithFailure,
    Failed(Seq<Seq<char>>),
}

impl View for BuildEvent {
    type V = EventView;

    open spec fn view(&self) -> EventView {
        match self {
            BuildEvent::PlanLoaded(plan) => EventView::PlanLoaded(plan@),
            BuildEvent::PlanUnreadable(e) => EventView::PlanUnreadable(e@),
            BuildEvent::PlanMalformed(e) => EventView::PlanMalformed(e@),
            BuildEvent::TempDirCreated(path) => EventView::TempDirCreated(path@),
            BuildEvent::Succeeded => EventView::Succeeded,
            BuildEvent::ExitedWithFailure => EventView::ExitedWithFailure,
            BuildEvent::Failed(e) => EventView::Failed(e@),
        }
    }
}

/// What the caller is to do next.
#[derive(Debug, PartialEq, Eq)]
pub enum BuildAction {
    /// Read the persisted plan at `path` and report it.
    LoadPlan { path: String },
    /// Create a fresh temporary directory whose name begins with `prefix`,
    /// to be removed when the build ends, and report its path.
    CreateTempDir { prefix: String },
    /// Run `program` with `args` and wait for it.
    Run { program: String, args: Vec<String> },
    /// Write each artifact into `dest`, in order, replacing what is there.
    WriteArtifacts { dest: String, artifacts: Vec<Artifact> },
    /// The build succeeded: tell the user `message`.
    Report { message: String },
    /// The build failed with `error`.
    Abort { error: Error },
    /// The build has ended before; there is nothing to do.
    Stop,
}

/// The mathematical content of a [`BuildAction`].
pub enum ActionView {
    LoadPlan { path: Seq<char> },
    CreateTempDir { prefix: Seq<char> },
    Run { program: Seq<char>, args: Seq<Seq<char>> },
    WriteArtifacts { dest: Seq<char>, artifacts: Seq<(Seq<char>, Seq<char>)> },
    Report { message: Seq<char> },
    Abort { error: Seq<Seq<char>> },
    Stop,
}

/// Artifacts as pairs of file name and contents.
pub open spec fn artifact_views(artifacts: Seq<Artifact>) -> Seq<(Seq<char>, Seq<char>)> {
    Seq::new(artifacts.len(), |i: int| (artifacts[i].file_name@, artifacts[i].contents@))
}

impl View for BuildAction {
    type V = ActionView;

    open spec fn view(&self) -> ActionView {
        match self {
            BuildAction::LoadPlan { path } => ActionView::LoadPlan { path: path@ },
            BuildAction::CreateTempDir { prefix } => ActionView::CreateTempDir { prefix: prefix@ },
            BuildAction::Run { program, args } => ActionView::Run {
                program: program@,
                args: args.deep_view(),
            },
            BuildAction::WriteArtifacts { dest, artifacts } => ActionView::WriteArtifacts {
                dest: dest@,
                artifacts: artifact_views(artifacts@),
            },
            BuildAction::Report { message } => ActionView::Report { message: message@ },
            BuildAction::Abort { error } => ActionView::Abort { error: error@ },
            BuildAction::Stop => ActionView::Stop,
        }
    }
}

/// How far a build has come. `name` is the tag that the image will carry.
#[derive(Debug, PartialEq, Eq)]
pub enum BuildState {
    /// Nothing is done; the persisted plan is being loaded.
    Start { name: String },
    /// The plan is there; a temporary destination is being created.
    PlanAcquired { plan: BuildPlan, name: String },
    /// The destination is known; the source is being copied into it.
    DestReady { plan: BuildPlan, dest: String, name: String },
    /// The source is in the destination; the artifacts are being written.
    SourceCopied { dest: String, name: String },
    /// The artifacts are written; the image is being built.
    ArtifactsWritten { dest: String, name: String },
    /// The image is built.
    Built { name: String },
    /// The destination holds all that a later image build needs.
    Saved { dest: String },
    /// The build failed.
    Failed { error: Error },
}

/// The mathematical content of a [`BuildState`].
pub enum StateView {
    Start { name: Seq<char> },
    PlanAcquired { plan: PlanView, name: Seq<char> },
    DestReady { plan: PlanView, dest: Seq<char>, name: Seq<char> },
    SourceCopied { dest: Seq<char>, name: Seq<char> },
    ArtifactsWritten { dest: Seq<char>, name: Seq<char> },
    Built { name: Seq<char> },
    Saved { dest: Seq<char> },
    Failed { error: Seq<Seq<char>> },
}

impl View for BuildState {
    type V = StateView;

    open spec fn view(&self) -> StateView {
        match self {
            BuildState::Start { name } => StateView::Start { name: name@ },
            BuildState::PlanAcquired { plan, name } => StateView::PlanAcquired {
                plan: plan@,
                name: name@,
            },
            BuildState::DestReady { plan, dest, name } => StateView::DestReady {
                plan: plan@,
                dest: dest@,
                name: name@,
            },
            BuildState::SourceCopied { dest, name } => StateView::SourceCopied {
                dest: dest@,
                name: name@,
            },
            BuildState::ArtifactsWritten { dest, name } => StateView::ArtifactsWritten {
                dest: dest@,
                name: name@,
            },
            BuildState::Built { name } => StateView::Built { name: name@ },
            BuildState::Saved { dest } => StateView::Saved { dest: dest@ },
            BuildState::Failed { error } => StateView::Failed { error: error@ },
        }
    }
}

/// Whether `c` is a digit or one of the letters `a` to `f`.
pub open spec fn is_lower_hex(c: char) -> bool {
    let u = c as u32;
    (0x30 <= u <= 0x39) || (0x61 <= u <= 0x66)
}

/// Whether `s` has the shape of a hyphenated lower-case UUID: 36
/// characters, hyphens after the groups of 8, 4, 4 and 4 digits.
pub open spec fn is_uuid_text(s: Seq<char>) -> bool {
    &&& s.len() == 36
    &&& forall|i: int|
        0 <= i < 36 ==> if i == 8 || i == 13 || i == 18 || i == 23 {
            s[i] == '-'
        } else {
            is_lower_hex(#[trigger] s[i])
        }
}

/// A fresh random identifier, from `uuid::Uuid::new_v4` and the `Display`
/// of `uuid::Uuid`. Which identifier comes back is left open; its shape is
/// the hyphenated lower-case one that the crate's formatter writes. The
/// crate panics where the operating system hands out no random bytes.
#[verifier::external_body]
fn fresh_id() -> (r: String)
    ensures
        is_uuid_text(r@),
{
    uuid::Uuid::new_v4().to_string()
}

/// The tag of the image: the name that the caller gave, else `id`.
pub open spec fn image_name(name: Option<Seq<char>>, id: Seq<char>) -> Seq<char> {
    match name {
        Some(name) => name,
        None => id,
    }
}

/// The arguments of the file copy: `cp -a <source>/. <dest>`.
pub open spec fn copy_args(source: Seq<char>, dest: Seq<char>) -> Seq<Seq<char>> {
    seq!["-a"@, source + "/."@, dest]
}

/// The arguments of the container builder: `docker build <dest> -t <name>`.
pub open spec fn image_args(dest: Seq<char>, name: Seq<char>) -> Seq<Seq<char>> {
    seq!["build"@, dest, "-t"@, name]
}

/// What the user is told after the image is built.
pub open spec fn run_hint(name: Seq<char>) -> Seq<char> {
    "\nRun:\n  docker run -it "@ + name
}

/// What the user is told after the artifacts are saved.
pub open spec fn saved_hint(dest: Seq<char>) -> Seq<char> {
    "\nSaved output to:\n  "@ + dest
}

/// The files that realize `plan`, in the order in which they are written.
pub open spec fn artifacts_of(plan: PlanView) -> Seq<(Seq<char>, Seq<char>)> {
    seq![("environment.nix"@, nix_expression(plan)), ("Dockerfile"@, dockerfile(plan))]
}

/// The end of a build that failed with `error`.
pub open spec fn failed(error: Seq<Seq<char>>) -> (StateView, ActionView) {
    (StateView::Failed { error }, ActionView::Abort { error })
}

/// The copy of the source into `dest`, and the state that waits for it.
pub open spec fn copying(source: Seq<char>, plan: PlanView, dest: Seq<char>, name: Seq<char>) -> (
    StateView,
    ActionView,
) {
    (
        StateView::DestReady { plan, dest, name },
        ActionView::Run { program: "cp"@, args: copy_args(source, dest) },
    )
}

/// The first step once the plan is there: with an output directory the
/// copy into it, without one the creation of a temporary directory.
pub open spec fn begun(
    out_dir: Option<Seq<char>>,
    source: Seq<char>,
    plan: PlanView,
    name: Seq<char>,
) -> (StateView, ActionView) {
    match out_dir {
        Some(dest) => copying(source, plan, dest, name),
        None => (
            StateView::PlanAcquired { plan, name },
            ActionView::CreateTempDir { prefix: "nixpacks"@ },
        ),
    }
}

/// The state and the action that follow `state` on `event`.
///
/// Each state waits for the result of one action. A failure ends the build
/// with the name of the stage added to its cause, an event that answers no
/// action of the state ends it as unexpected, and an ended build stays as it
/// is.
pub open spec fn transition(
    out_dir: Option<Seq<char>>,
    source: Seq<char>,
    state: StateView,
    event: EventView,
) -> (StateView, ActionView) {
    match state {
        StateView::Start { name } => match event {
            EventView::PlanLoaded(plan) => begun(out_dir, source, plan, name),
            EventView::PlanUnreadable(e) => failed(e.push("Reading build plan"@)),
            EventView::PlanMalformed(e) => failed(e.push("Deserializing build plan"@)),
            _ => failed(seq!["Unexpected event"@]),
        },
        StateView::PlanAcquired { plan, name } => match event {
            EventView::TempDirCreated(dest) => copying(source, plan, dest, name),
            EventView::Failed(e) => failed(e.push("Creating a temp directory"@)),
            _ => failed(seq!["Unexpected event"@]),
        },
        StateView::DestReady { plan, dest, name } => match event {
            EventView::Succeeded => (
                StateView::SourceCopied { dest, name },
                ActionView::WriteArtifacts { dest, artifacts: artifacts_of(plan) },
            ),
            EventView::ExitedWithFailure => failed(seq!["Copy failed"@]),
            EventView::Failed(e) => failed(e.push("Copying app source to tmp dir"@)),
            _ => failed(seq!["Unexpected event"@]),
        },
        StateView::SourceCopied { dest, name } => match event {
            EventView::Succeeded => if out_dir is None {
                (
                    StateView::ArtifactsWritten { dest, name },
                    ActionView::Run { program: "docker"@, args: image_args(dest, name) },
                )
            } else {
                (StateView::Saved { dest }, ActionView::Report { message: saved_hint(dest) })
            },
            EventView::Failed(e) => failed(e.push("Writing build plan"@)),
            _ => failed(seq!["Unexpected event"@]),
        },
        StateView::ArtifactsWritten { dest, name } => match event {
            EventView::Succeeded => (
                StateView::Built { name },
                ActionView::Report { message: run_hint(name) },
            ),
            EventView::ExitedWithFailure => failed(seq!["Docker build failed"@]),
            EventView::Failed(e) => failed(e.push("Building image"@)),
            _ => failed(seq!["Unexpected event"@]),
        },
        StateView::Built { name } => (state, ActionView::Stop),
        StateView::Saved { dest } => (state, ActionView::Stop),
        StateView::Failed { error } => (state, ActionView::Stop),
    }
}

/// Ends a build with `error`.
fn fail(error: Error) -> (r: (BuildState, BuildAction))
    ensures
        (r.0@, r.1@) == failed(error@),
{
    let reported = error.clone();
    (BuildState::Failed { error }, BuildAction::Abort { error: reported })
}

/// Ends a build on an event that answers no action of its state.
fn unexpected() -> (r: (BuildState, BuildAction))
    ensures
        (r.0@, r.1@) == failed(seq!["Unexpected event"@]),
{
    fail(Error::new("Unexpected event"))
}

/// Starts the copy of the source into `dest`.
fn copy_into(source: &str, plan: BuildPlan, dest: String, name: String) -> (r: (
    BuildState,
    BuildAction,
))
    ensures
        (r.0@, r.1@) == copying(source@, plan@, dest@, name@),
{
    let mut from = String::from_str(source);
    from.append("/.");
    let mut args: Vec<String> = Vec::new();
    args.push(String::from_str("-a"));
    args.push(from);
    args.push(dest.clone());
    assert(args.deep_view() =~= copy_args(source@, dest@));
    (
        BuildState::DestReady { plan, dest, name },
        BuildAction::Run { program: String::from_str("cp"), args },
    )
}

impl<'a, P: Provider + ?Sized> AppBuilder<'a, P> {
    /// Whether `result` is how a build that tags its image `name` starts,
    /// and `after` the builder it leaves. With a persisted plan the build
    /// waits for it and the builder stays as it is; without one the plan is
    /// derived among `providers`.
    pub open spec fn starts(
        &self,
        after: &AppBuilder<'a, P>,
        providers: Seq<&P>,
        name: Seq<char>,
        result: (StateView, ActionView),
    ) -> bool {
        match self.options.plan_path {
            Some(path) => {
                &&& self.same_inputs(after)
                &&& after.provider == self.provider
                &&& result == (StateView::Start { name }, ActionView::LoadPlan { path: path@ })
            },
            None => {
                &&& self.rebound(after, providers)
                &&& result == match after.plan_result(providers) {
                    Ok(plan) => begun(
                        self.options.out_dir.deep_view(),
                        self.app@.source,
                        plan,
                        name,
                    ),
                    Err(e) => failed(e.push("Creating build plan"@)),
                }
            },
        }
    }

    /// The tag of the image when `id` is the identifier at hand.
    pub fn image_name(&self, id: String) -> (r: String)
        ensures
            r@ == image_name(self.name.deep_view(), id@),
    {
        match &self.name {
            Some(name) => name.clone(),
            None => id,
        }
    }

    /// Starts a build whose image is tagged `name`.
    pub fn build_named(&mut self, providers: Vec<&'a P>, name: String) -> (r: (
        BuildState,
        BuildAction,
    ))
        ensures
            old(self).starts(final(self), providers@, name@, (r.0@, r.1@)),
    {
        match &self.options.plan_path {
            Some(path) => (BuildState::Start { name }, BuildAction::LoadPlan { path: path.clone() }),
            None => match self.plan(providers) {
                Ok(plan) => self.do_build_named(plan, name),
                Err(e) => fail(e.context("Creating build plan")),
            },
        }
    }

    /// Starts a build. The image is tagged with the builder's name or,
    /// without one, with a fresh identifier.
    pub fn build(&mut self, providers: Vec<&'a P>) -> (r: (BuildState, BuildAction))
        ensures
            exists|id: Seq<char>|
                is_uuid_text(id) && old(self).starts(
                    final(self),
                    providers@,
                    image_name(old(self).name.deep_view(), id),
                    (r.0@, r.1@),
                ),
    {
        let id = fresh_id();
        let ghost witness = id@;
        let name = self.image_name(id);
        let r = self.build_named(providers, name);
        assert(is_uuid_text(witness) && old(self).starts(
            self,
            providers@,
            image_name(old(self).name.deep_view(), witness),
            (r.0@, r.1@),
        ));
        r
    }

    /// Starts building from `plan`, with the image tagged `name`.
    pub fn do_build_named(&self, plan: BuildPlan, name: String) -> (r: (BuildState, BuildAction))
        ensures
            (r.0@, r.1@) == begun(
                self.options.out_dir.deep_view(),
                self.app@.source,
                plan@,
                name@,
            ),
    {
        match &self.options.out_dir {
            Some(dir) => copy_into(self.app.source.as_str(), plan, dir.clone(), name),
            None => (
                BuildState::PlanAcquired { plan, name },
                BuildAction::CreateTempDir { prefix: String::from_str("nixpacks") },
            ),
        }
    }

    /// Starts building from `plan`. The image is tagged with the builder's
    /// name or, without one, with a fresh identifier.
    pub fn do_build(&self, plan: BuildPlan) -> (r: (BuildState, BuildAction))
        ensures
            exists|id: Seq<char>|
                is_uuid_text(id) && (r.0@, r.1@) == begun(
                    self.options.out_dir.deep_view(),
                    self.app@.source,
                    plan@,
                    image_name(self.name.deep_view(), id),
                ),
    {
        let id = fresh_id();
        let ghost witness = id@;
        let name = self.image_name(id);
        let r = self.do_build_named(plan, name);
        assert(is_uuid_text(witness) && (r.0@, r.1@) == begun(
            self.options.out_dir.deep_view(),
            self.app@.source,
            plan@,
            image_name(self.name.deep_view(), witness),
        ));
        r
    }

    /// Takes the build from `state` on `event` to its next state, and says
    /// what to do next.
    pub fn advance(&self, state: BuildState, event: BuildEvent) -> (r: (BuildState, BuildAction))
        ensures
            (r.0@, r.1@) == transition(
                self.options.out_dir.deep_view(),
                self.app@.source,
                state@,
                event@,
            ),
    {
        match state {
            BuildState::Start { name } => match event {
                BuildEvent::PlanLoaded(plan) => self.do_build_named(plan, name),
                BuildEvent::PlanUnreadable(e) => fail(e.context("Reading build plan")),
                BuildEvent::PlanMalformed(e) => fail(e.context("Deserializing build plan")),
                _ => unexpected(),
            },
            BuildState::PlanAcquired { plan, name } => match event {
                BuildEvent::TempDirCreated(dest) => copy_into(
                    self.app.source.as_str(),
                    plan,
                    dest,
                    name,
                ),
                BuildEvent::Failed(e) => fail(e.context("Creating a temp directory")),
                _ => unexpected(),
            },
            BuildState::DestReady { plan, dest, name } => match event {
                BuildEvent::Succeeded => match AppBuilder::write_build_plan(&plan) {
                    Ok(artifacts) => {
                        assert(artifact_views(artifacts@) =~= artifacts_of(plan@));
                        let target = dest.clone();
                        (
                            BuildState::SourceCopied { dest, name },
                            BuildAction::WriteArtifacts { dest: target, artifacts },
                        )
                    },
                    Err(e) => fail(e.context("Writing build plan")),
                },
                BuildEvent::ExitedWithFailure => fail(Error::new("Copy failed")),
                BuildEvent::Failed(e) => fail(e.context("Copying app source to tmp dir")),
                _ => unexpected(),
            },
            BuildState::SourceCopied { dest, name } => match event {
                BuildEvent::Succeeded => {
                    if self.options.out_dir.is_none() {
                        let mut args: Vec<String> = Vec::new();
                        args.push(String::from_str("build"));
                        args.push(dest.clone());
                        args.push(String::from_str("-t"));
                        args.push(name.clone());
                        assert(args.deep_view() =~= image_args(dest@, name@));
                        (
                            BuildState::ArtifactsWritten { dest, name },
                            BuildAction::Run { program: String::from_str("docker"), args },
                        )
                    } else {
                        let mut message = String::from_str("\nSaved output to:\n  ");
                        message.append(dest.as_str());
                        (BuildState::Saved { dest }, BuildAction::Report { message })
                    }
                },
                BuildEvent::Failed(e) => fail(e.context("Writing build plan")),
                _ => unexpected(),
            },
            BuildState::ArtifactsWritten { dest, name } => match event {
                BuildEvent::Succeeded => {
                    let mut message = String::from_str("\nRun:\n  docker run -it ");
                    message.append(name.as_str());
                    (BuildState::Built { name }, BuildAction::Report { message })
                },
                BuildEvent::ExitedWithFailure => fail(Error::new("Docker build failed")),
                BuildEvent::Failed(e) => fail(e.context("Building image")),
                _ => unexpected(),
            },
            BuildState::Built { name } => (BuildState::Built { name }, BuildAction::Stop),
            BuildState::Saved { dest } => (BuildState::Saved { dest }, BuildAction::Stop),
            BuildState::Failed { error } => (BuildState::Failed { error }, BuildAction::Stop),
        }
    }
}

} // verus!
