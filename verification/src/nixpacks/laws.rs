//! What holds of every plan and every rendering, stated over the planner's
//! specification and proved from it.

use vstd::prelude::*;
use crate::providers::Provider;
use super::plan::{BuildPlan, PlanView};
use super::procfile::web_command;
use super::render::{dockerfile, nix_expression};
use super::AppBuilder;

verus! {

/// Planning is a function of the tree, the environment, the options and the
/// providers in their order: two runs that agree on these yield the same
/// plan, or the same failure, whatever provider each builder had bound
/// before.
pub proof fn lemma_plan_deterministic<'a, P: Provider + ?Sized>(
    first: AppBuilder<'a, P>,
    first_after: AppBuilder<'a, P>,
    second: AppBuilder<'a, P>,
    second_after: AppBuilder<'a, P>,
    providers: Seq<&P>,
)
    requires
        first.same_inputs(&second),
        first.rebound(&first_after, providers),
        second.rebound(&second_after, providers),
    ensures
        first_after.plan_result(providers) == second_after.plan_result(providers),
{
}

/// A custom start command is the start command of the plan, whatever the
/// Procfile and the provider say.
pub proof fn lemma_custom_start_cmd_wins<'a, P: Provider + ?Sized>(builder: AppBuilder<'a, P>, plan: PlanView)
    requires
        builder.options.custom_start_cmd is Some,
        builder.plan_outcome() == Ok::<PlanView, Seq<Seq<char>>>(plan),
    ensures
        plan.start_cmd == builder.options.custom_start_cmd.deep_view(),
{
}

/// Without a custom start command, the web command of the Procfile is the
/// start command of the plan, whatever the provider suggests.
pub proof fn lemma_procfile_wins<'a, P: Provider + ?Sized>(
    builder: AppBuilder<'a, P>,
    plan: PlanView,
    contents: Seq<char>,
    command: Seq<char>,
)
    requires
        builder.options.custom_start_cmd is None,
        builder.app@.files.contains_key("Procfile"@),
        builder.app@.files["Procfile"@] == Some(contents),
        web_command(contents) == Some(command),
        builder.plan_outcome() == Ok::<PlanView, Seq<Seq<char>>>(plan),
    ensures
        plan.start_cmd == Some(command),
{
}

/// The packages of a plan are the custom packages followed by those of the
/// bound provider, each run in its own order.
pub proof fn lemma_pkgs_concatenated<'a, P: Provider + ?Sized>(builder: AppBuilder<'a, P>, plan: PlanView)
    requires
        builder.plan_outcome() == Ok::<PlanView, Seq<Seq<char>>>(plan),
    ensures
        match builder.provider {
            Some(provider) => provider.answers(builder.app, builder.environment).pkgs matches Ok(
                pkgs,
            ) && plan.pkgs == builder.options.custom_pkgs.deep_view() + pkgs,
            None => plan.pkgs == builder.options.custom_pkgs.deep_view(),
        },
{
}

/// A variable that the bound provider sets has the provider's value in the
/// plan, also where the environment sets it too; every other variable of
/// the environment keeps its value.
pub proof fn lemma_provider_variables_win<'a, P: Provider + ?Sized>(
    builder: AppBuilder<'a, P>,
    provider: &P,
    plan: PlanView,
    name: Seq<char>,
)
    requires
        builder.provider == Some(provider),
        builder.plan_outcome() == Ok::<PlanView, Seq<Seq<char>>>(plan),
    ensures
        provider.answers(builder.app, builder.environment).variables matches Ok(variables)
            && (variables.contains_key(name) ==> plan.variables.contains_key(name)
            && plan.variables[name] == variables[name]) && (!variables.contains_key(name)
            && builder.environment@.contains_key(name) ==> plan.variables.contains_key(name)
            && plan.variables[name] == builder.environment@[name]),
{
}

/// Plans with the same content render to the same descriptor and to the
/// same recipe, character for character.
pub proof fn lemma_render_deterministic(
    first: BuildPlan,
    second: BuildPlan,
    first_nix: String,
    second_nix: String,
    first_recipe: String,
    second_recipe: String,
)
    requires
        first@ == second@,
        first_nix@ == nix_expression(first@),
        second_nix@ == nix_expression(second@),
        first_recipe@ == dockerfile(first@),
        second_recipe@ == dockerfile(second@),
    ensures
        first_nix@ == second_nix@,
        first_recipe@ == second_recipe@,
{
}

} // verus!
