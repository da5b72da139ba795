//! How the server tool is invoked on this host: through the package runner
//! or by its own name.

use vstd::prelude::*;
use crate::platform::InvocationPreference;
use crate::text::texts;

verus! {

/// The package runner that can invoke the tool without a global install.
pub const WRAPPER_PROGRAM: &'static str = "bunx";

/// The server tool's own name.
pub const TOOL_PROGRAM: &'static str = "elizaos";

/// The argument that asks a program for its version.
pub const VERSION_QUERY: &'static str = "--version";

/// The two ways of invoking the tool.
#[derive(Clone, Copy, Debug, PartialEq, Eq, Structural)]
pub enum InvocationForm {
    /// Through the package runner.
    Wrapper,
    /// By the tool's own name.
    Direct,
}

/// An executable's name and the arguments that every call of it starts with.
#[derive(Clone, Debug, PartialEq, Eq)]
pub struct CommandInvocation {
    pub program: &'static str,
    pub prefix: Vec<&'static str>,
}

/// An invocation as plain values.
pub struct InvocationView {
    pub program: Seq<char>,
    pub prefix: Seq<Seq<char>>,
}

impl View for CommandInvocation {
    type V = InvocationView;

    open spec fn view(&self) -> InvocationView {
        InvocationView { program: self.program@, prefix: texts(self.prefix@) }
    }
}

/// The invocation that a form stands for.
pub open spec fn invocation_of(form: InvocationForm) -> InvocationView {
    match form {
        InvocationForm::Wrapper => InvocationView {
            program: WRAPPER_PROGRAM@,
            prefix: seq!["--bun"@, TOOL_PROGRAM@],
        },
        InvocationForm::Direct => InvocationView { program: TOOL_PROGRAM@, prefix: Seq::empty() },
    }
}

/// The arguments of the trial call of a form: its prefix, then the version
/// query.
pub open spec fn trial_arguments_of(form: InvocationForm) -> Seq<Seq<char>> {
    invocation_of(form).prefix.push(VERSION_QUERY@)
}

/// Builds the invocation of a form.
pub fn invocation(form: InvocationForm) -> (built: CommandInvocation)
    ensures
        built@ == invocation_of(form),
{
    match form {
        InvocationForm::Wrapper => {
            let prefix = vec!["--bun", TOOL_PROGRAM];
            assert(texts(prefix@) =~= seq!["--bun"@, TOOL_PROGRAM@]);
            CommandInvocation { program: WRAPPER_PROGRAM, prefix }
        },
        InvocationForm::Direct => {
            let prefix: Vec<&'static str> = Vec::new();
            assert(texts(prefix@) =~= Seq::empty());
            CommandInvocation { program: TOOL_PROGRAM, prefix }
        },
    }
}

/// Builds the arguments of the trial call of a form.
pub fn trial_arguments(form: InvocationForm) -> (arguments: Vec<&'static str>)
    ensures
        texts(arguments@) == trial_arguments_of(form),
{
    let built = invocation(form);
    let mut arguments = built.prefix;
    let ghost before = texts(arguments@);
    arguments.push(VERSION_QUERY);
    assert(texts(arguments@) =~= before.push(VERSION_QUERY@));
    arguments
}

/// What the resolver does next.
#[derive(Clone, Copy, Debug, PartialEq, Eq, Structural)]
pub enum ResolverStep {
    /// Make the trial call of this form and report whether it started.
    Try(InvocationForm),
    /// The form to use from now on; `found` tells whether its trial call
    /// started.
    Resolved { form: InvocationForm, found: bool },
}

/// The step that resolution begins with.
pub open spec fn first_step(preference: InvocationPreference) -> ResolverStep {
    match preference {
        InvocationPreference::WrapperFirst => ResolverStep::Try(InvocationForm::Wrapper),
        InvocationPreference::DirectOnly => ResolverStep::Try(InvocationForm::Direct),
    }
}

/// The step that follows a trial call. Only a wrapper that did not start
/// leads to another trial; the direct form is settled on whether or not its
/// trial started.
pub open spec fn step_after(tried: InvocationForm, started: bool) -> ResolverStep {
    match tried {
        InvocationForm::Wrapper => if started {
            ResolverStep::Resolved { form: InvocationForm::Wrapper, found: true }
        } else {
            ResolverStep::Try(InvocationForm::Direct)
        },
        InvocationForm::Direct => ResolverStep::Resolved {
            form: InvocationForm::Direct,
            found: started,
        },
    }
}

/// The form that resolution ends with: the wrapper where it is preferred and
/// its trial call starts, the direct form in every other case.
pub open spec fn resolved_form(
    preference: InvocationPreference,
    wrapper_starts: bool,
) -> InvocationForm {
    if preference == InvocationPreference::WrapperFirst && wrapper_starts {
        InvocationForm::Wrapper
    } else {
        InvocationForm::Direct
    }
}

/// Whether the form that resolution ends with was seen to start.
pub open spec fn resolved_found(
    preference: InvocationPreference,
    wrapper_starts: bool,
    direct_starts: bool,
) -> bool {
    if preference == InvocationPreference::WrapperFirst && wrapper_starts {
        true
    } else {
        direct_starts
    }
}

/// Begins resolution.
pub fn begin_resolution(preference: InvocationPreference) -> (step: ResolverStep)
    ensures
        step == first_step(preference),
{
    match preference {
        InvocationPreference::WrapperFirst => ResolverStep::Try(InvocationForm::Wrapper),
        InvocationPreference::DirectOnly => ResolverStep::Try(InvocationForm::Direct),
    }
}

/// Continues resolution after the trial call of `tried`, which started or
/// did not.
pub fn after_trial(tried: InvocationForm, started: bool) -> (step: ResolverStep)
    ensures
        step == step_after(tried, started),
{
    match tried {
        InvocationForm::Wrapper => {
            if started {
                ResolverStep::Resolved { form: InvocationForm::Wrapper, found: true }
            } else {
                ResolverStep::Try(InvocationForm::Direct)
            }
        },
        InvocationForm::Direct => ResolverStep::Resolved {
            form: InvocationForm::Direct,
            found: started,
        },
    }
}

/// How many trial calls a step may still lead to.
pub open spec fn trials_left(step: ResolverStep) -> nat {
    match step {
        ResolverStep::Try(InvocationForm::Wrapper) => 2,
        ResolverStep::Try(InvocationForm::Direct) => 1,
        ResolverStep::Resolved { .. } => 0,
    }
}

/// Resolves the invocation from what the trial calls would do: whether the
/// wrapper's starts and whether the tool's own starts.
pub fn find_elizaos_command(
    preference: InvocationPreference,
    wrapper_starts: bool,
    direct_starts: bool,
) -> (resolved: CommandInvocation)
    ensures
        resolved@ == invocation_of(resolved_form(preference, wrapper_starts)),
{
    let mut step = begin_resolution(preference);
    loop
        invariant
            match step {
                ResolverStep::Try(InvocationForm::Wrapper) => preference
                    == InvocationPreference::WrapperFirst,
                ResolverStep::Try(InvocationForm::Direct) => resolved_form(
                    preference,
                    wrapper_starts,
                ) == InvocationForm::Direct,
                ResolverStep::Resolved { form, found } => {
                    &&& form == resolved_form(preference, wrapper_starts)
                    &&& found == resolved_found(preference, wrapper_starts, direct_starts)
                },
            },
        decreases trials_left(step),
    {
        match step {
            ResolverStep::Try(form) => {
                let started = match form {
                    InvocationForm::Wrapper => wrapper_starts,
                    InvocationForm::Direct => direct_starts,
                };
                step = after_trial(form, started);
            },
            ResolverStep::Resolved { form, .. } => {
                return invocation(form);
            },
        }
    }
}

/// Where resolution ends when it goes on from `step`, given what the trial
/// calls do.
pub open spec fn settled(step: ResolverStep, wrapper_starts: bool, direct_starts: bool) -> ResolverStep
    decreases trials_left(step),
{
    match step {
        ResolverStep::Try(InvocationForm::Wrapper) => settled(
            step_after(InvocationForm::Wrapper, wrapper_starts),
            wrapper_starts,
            direct_starts,
        ),
        ResolverStep::Try(InvocationForm::Direct) => settled(
            step_after(InvocationForm::Direct, direct_starts),
            wrapper_starts,
            direct_starts,
        ),
        ResolverStep::Resolved { .. } => step,
    }
}

/// Every trial call brings resolution nearer its end: after at most two of
/// them a form is settled on.
pub proof fn lemma_resolution_ends(tried: InvocationForm, started: bool)
    ensures
        trials_left(step_after(tried, started)) < trials_left(ResolverStep::Try(tried)),
        trials_left(ResolverStep::Try(tried)) <= 2,
{
}

/// Taken step by step, resolution ends where `resolved_form` says, and tells
/// truly whether the form it ends with was seen to start.
pub proof fn lemma_steps_settle_on_resolved_form(
    preference: InvocationPreference,
    wrapper_starts: bool,
    direct_starts: bool,
)
    ensures
        settled(first_step(preference), wrapper_starts, direct_starts) == (ResolverStep::Resolved {
            form: resolved_form(preference, wrapper_starts),
            found: resolved_found(preference, wrapper_starts, direct_starts),
        }),
{
    reveal_with_fuel(settled, 3);
}

/// Resolution never ends empty-handed and never prefers the wrapper where
/// the platform does not: failing everything else the direct form is used.
pub proof fn lemma_direct_is_the_fallback(
    preference: InvocationPreference,
    wrapper_starts: bool,
)
    ensures
        !wrapper_starts ==> resolved_form(preference, wrapper_starts) == InvocationForm::Direct,
        preference == InvocationPreference::DirectOnly ==> resolved_form(preference, wrapper_starts)
            == InvocationForm::Direct,
{
}

} // verus!
