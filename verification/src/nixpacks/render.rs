//! The two renderers: from a plan to the environment descriptor and to the
//! container recipe.

use vstd::prelude::*;
use vstd::string::*;
use super::environment::{sorted_bindings, Binding};
use super::error::Error;
use super::pkg::{nix_string, PkgView};
use super::plan::{BuildPlan, PlanView};
use super::text::joined;
use super::AppBuilder;
use crate::providers::Provider;

verus! {

/// The expression that imports the package catalog: a pinned archive where
/// the plan names one, the ambient catalog where it does not.
pub open spec fn pkg_import(archive: Option<Seq<char>>) -> Seq<char> {
    match archive {
        Some(commit) => "import (fetchTarball \"https://github.com/NixOS/nixpkgs/archive/"@
            + commit + ".tar.gz\")"@,
        None => "import <nixpkgs>"@,
    }
}

/// The packages as the descriptor spells them, in plan order.
pub open spec fn nix_strings(pkgs: Seq<PkgView>) -> Seq<Seq<char>> {
    Seq::new(pkgs.len(), |i: int| nix_string(pkgs[i]))
}

/// The environment descriptor of a plan.
pub open spec fn nix_expression(plan: PlanView) -> Seq<char> {
    "{ }:\nlet\n    pkgs = "@ + pkg_import(plan.nixpkgs_archive)
        + " { };\nin with pkgs;\nbuildEnv {\n    name = \"env\";\n    paths = [\n        "@
        + joined(nix_strings(plan.pkgs), " "@) + "\n    ];\n}\n"@
}

/// The recipe line that sets one variable. The value stands between single
/// quotes as it is; a quote inside it is not escaped.
pub open spec fn env_line(binding: Binding) -> Seq<char> {
    "ENV "@ + binding.0 + "='"@ + binding.1 + "'"@
}

/// One recipe line for each binding, in the order given.
pub open spec fn env_lines(bindings: Seq<Binding>) -> Seq<Seq<char>> {
    Seq::new(bindings.len(), |i: int| env_line(bindings[i]))
}

/// A recipe step: the instruction and the command, or an empty line where
/// the plan has no command for it.
pub open spec fn step(instruction: Seq<char>, cmd: Option<Seq<char>>) -> Seq<char> {
    match cmd {
        Some(cmd) => instruction + cmd,
        None => Seq::empty(),
    }
}

/// The container recipe of a plan. The variables come by ascending name.
pub open spec fn dockerfile(plan: PlanView) -> Seq<char> {
    "FROM nixos/nix\n\nRUN nix-channel --update\n\nRUN mkdir /app\nCOPY environment.nix /app\nWORKDIR /app\n\n# Load Nix environment\nRUN nix-env -if environment.nix\n\n# Load environment variables\n"@
        + joined(env_lines(sorted_bindings(plan.variables)), "\n"@)
        + "\n\nCOPY . /app\n\n# Install\n"@ + step("RUN "@, plan.install_cmd)
        + "\n\n# Build\n"@ + step("RUN "@, plan.build_cmd) + "\n\n# Start\n"@ + step(
        "CMD "@,
        plan.start_cmd,
    ) + "\n"@
}

/// Joining one part more: the first part stands alone, each later one
/// follows a separator.
pub proof fn lemma_joined_next(parts: Seq<Seq<char>>, sep: Seq<char>, i: int)
    requires
        0 <= i < parts.len(),
    ensures
        joined(parts.take(i + 1), sep) == if i == 0 {
            parts[0]
        } else {
            joined(parts.take(i), sep) + sep + parts[i]
        },
{
    let now = parts.take(i + 1);
    assert(now.drop_last() =~= parts.take(i));
    assert(now.last() == parts[i]);
}

/// A recipe step for `cmd`.
fn render_step(instruction: &str, cmd: &Option<String>) -> (r: String)
    ensures
        r@ == step(instruction@, cmd.deep_view()),
{
    match cmd {
        Some(cmd) => {
            let mut out = String::from_str(instruction);
            out.append(cmd.as_str());
            out
        },
        None => String::new(),
    }
}

/// One file that a build writes into its destination.
#[derive(Debug, PartialEq, Eq)]
pub struct Artifact {
    pub file_name: String,
    pub contents: String,
}

impl<'a> AppBuilder<'a, dyn Provider> {
    /// Renders the environment descriptor of `plan`.
    pub fn gen_nix(plan: &BuildPlan) -> (r: Result<String, Error>)
        ensures
            r matches Ok(text) && text@ == nix_expression(plan@),
    {
        let ghost parts = nix_strings(plan@.pkgs);
        let mut nixpkgs = String::new();
        let mut i: usize = 0;
        while i < plan.pkgs.len()
            invariant
                i <= plan.pkgs.len(),
                parts == nix_strings(plan@.pkgs),
                parts.len() == plan.pkgs.len(),
                nixpkgs@ == joined(parts.take(i as int), " "@),
            decreases plan.pkgs.len() - i,
        {
            if i > 0 {
                nixpkgs.append(" ");
            }
            let one = plan.pkgs[i].to_nix_string();
            nixpkgs.append(one.as_str());
            proof {
                lemma_joined_next(parts, " "@, i as int);
                assert(Seq::<char>::empty() + one@ =~= one@);
            }
            i = i + 1;
        }
        assert(parts.take(plan.pkgs.len() as int) =~= parts);
        let pkg_import = match &plan.nixpkgs_archive {
            Some(archive) => {
                let mut out = String::from_str(
                    "import (fetchTarball \"https://github.com/NixOS/nixpkgs/archive/",
                );
                out.append(archive.as_str());
                out.append(".tar.gz\")");
                out
            },
            None => String::from_str("import <nixpkgs>"),
        };
        let mut nix_expression = String::from_str("{ }:\nlet\n    pkgs = ");
        nix_expression.append(pkg_import.as_str());
        nix_expression.append(
            " { };\nin with pkgs;\nbuildEnv {\n    name = \"env\";\n    paths = [\n        ",
        );
        nix_expression.append(nixpkgs.as_str());
        nix_expression.append("\n    ];\n}\n");
        Ok(nix_expression)
    }

    /// Renders the container recipe of `plan`.
    pub fn gen_dockerfile(plan: &BuildPlan) -> (r: Result<String, Error>)
        ensures
            r matches Ok(text) && text@ == dockerfile(plan@),
    {
        let ghost bindings = sorted_bindings(plan@.variables);
        let ghost lines = env_lines(bindings);
        let count = plan.variables.len();
        let mut args_string = String::new();
        let mut i: usize = 0;
        while i < count
            invariant
                i <= count,
                count == bindings.len(),
                bindings == sorted_bindings(plan@.variables),
                lines == env_lines(bindings),
                args_string@ == joined(lines.take(i as int), "\n"@),
            decreases count - i,
        {
            if i > 0 {
                args_string.append("\n");
            }
            let ghost before = args_string@;
            match plan.variables.binding(i) {
                Some((name, value)) => {
                    let mut line = String::from_str("ENV ");
                    line.append(name.as_str());
                    line.append("='");
                    line.append(value.as_str());
                    line.append("'");
                    args_string.append(line.as_str());
                    proof {
                        assert(line@ == lines[i as int]);
                    }
                },
                None => {},
            }
            proof {
                lemma_joined_next(lines, "\n"@, i as int);
                assert(Seq::<char>::empty() + lines[i as int] =~= lines[i as int]);
            }
            i = i + 1;
        }
        assert(lines.take(count as int) =~= lines);
        let install_cmd = render_step("RUN ", &plan.install_cmd);
        let build_cmd = render_step("RUN ", &plan.build_cmd);
        let start_cmd = render_step("CMD ", &plan.start_cmd);
        let mut dockerfile = String::from_str(
            "FROM nixos/nix\n\nRUN nix-channel --update\n\nRUN mkdir /app\nCOPY environment.nix /app\nWORKDIR /app\n\n# Load Nix environment\nRUN nix-env -if environment.nix\n\n# Load environment variables\n",
        );
        dockerfile.append(args_string.as_str());
        dockerfile.append("\n\nCOPY . /app\n\n# Install\n");
        dockerfile.append(install_cmd.as_str());
        dockerfile.append("\n\n# Build\n");
        dockerfile.append(build_cmd.as_str());
        dockerfile.append("\n\n# Start\n");
        dockerfile.append(start_cmd.as_str());
        dockerfile.append("\n");
        Ok(dockerfile)
    }

    /// The files that realize `plan` in a destination, in the order in
    /// which they are written: the environment descriptor, then the
    /// container recipe.
    pub fn write_build_plan(plan: &BuildPlan) -> (r: Result<Vec<Artifact>, Error>)
        ensures
            r matches Ok(artifacts) && artifacts.len() == 2
                && artifacts[0].file_name@ == "environment.nix"@
                && artifacts[0].contents@ == nix_expression(plan@)
                && artifacts[1].file_name@ == "Dockerfile"@
                && artifacts[1].contents@ == dockerfile(plan@),
    {
        let nix_expression = match Self::gen_nix(plan) {
            Ok(text) => text,
            Err(e) => {
                return Err(e.context("Generating Nix expression"));
            },
        };
        let dockerfile = match Self::gen_dockerfile(plan) {
            Ok(text) => text,
            Err(e) => {
                return Err(e.context("Generating Dockerfile"));
            },
        };
        let mut artifacts: Vec<Artifact> = Vec::new();
        artifacts.push(
            Artifact { file_name: String::from_str("environment.nix"), contents: nix_expression },
        );
        artifacts.push(Artifact { file_name: String::from_str("Dockerfile"), contents: dockerfile });
        Ok(artifacts)
    }
}

} // verus!
