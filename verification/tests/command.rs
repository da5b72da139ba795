use eliza_supervisor::command::{
    after_trial, begin_resolution, find_elizaos_command, invocation, trial_arguments,
    CommandInvocation, InvocationForm, ResolverStep, TOOL_PROGRAM, VERSION_QUERY, WRAPPER_PROGRAM,
};
use eliza_supervisor::platform::InvocationPreference;

fn wrapper() -> CommandInvocation {
    CommandInvocation { program: "bunx", prefix: vec!["--bun", "elizaos"] }
}

fn direct() -> CommandInvocation {
    CommandInvocation { program: "elizaos", prefix: vec![] }
}

#[test]
fn program_names_are_the_expected_ones() {
    assert_eq!(WRAPPER_PROGRAM, "bunx");
    assert_eq!(TOOL_PROGRAM, "elizaos");
    assert_eq!(VERSION_QUERY, "--version");
}

#[test]
fn invocation_of_each_form() {
    assert_eq!(invocation(InvocationForm::Wrapper), wrapper());
    assert_eq!(invocation(InvocationForm::Direct), direct());
}

#[test]
fn trial_call_asks_for_the_version() {
    assert_eq!(trial_arguments(InvocationForm::Wrapper), vec!["--bun", "elizaos", "--version"]);
    assert_eq!(trial_arguments(InvocationForm::Direct), vec!["--version"]);
}

#[test]
fn resolution_begins_with_the_preferred_form() {
    assert_eq!(
        begin_resolution(InvocationPreference::WrapperFirst),
        ResolverStep::Try(InvocationForm::Wrapper)
    );
    assert_eq!(
        begin_resolution(InvocationPreference::DirectOnly),
        ResolverStep::Try(InvocationForm::Direct)
    );
}

#[test]
fn wrapper_that_starts_is_settled_on() {
    assert_eq!(
        after_trial(InvocationForm::Wrapper, true),
        ResolverStep::Resolved { form: InvocationForm::Wrapper, found: true }
    );
}

#[test]
fn wrapper_that_does_not_start_leads_to_the_direct_trial() {
    assert_eq!(after_trial(InvocationForm::Wrapper, false), ResolverStep::Try(InvocationForm::Direct));
}

#[test]
fn direct_form_is_settled_on_whether_or_not_it_starts() {
    assert_eq!(
        after_trial(InvocationForm::Direct, true),
        ResolverStep::Resolved { form: InvocationForm::Direct, found: true }
    );
    assert_eq!(
        after_trial(InvocationForm::Direct, false),
        ResolverStep::Resolved { form: InvocationForm::Direct, found: false }
    );
}

#[test]
fn resolved_command_for_every_outcome_of_the_trials() {
    let w = InvocationPreference::WrapperFirst;
    let d = InvocationPreference::DirectOnly;
    assert_eq!(find_elizaos_command(w, true, true), wrapper());
    assert_eq!(find_elizaos_command(w, true, false), wrapper());
    assert_eq!(find_elizaos_command(w, false, true), direct());
    assert_eq!(find_elizaos_command(w, false, false), direct());
    assert_eq!(find_elizaos_command(d, true, true), direct());
    assert_eq!(find_elizaos_command(d, true, false), direct());
    assert_eq!(find_elizaos_command(d, false, true), direct());
    assert_eq!(find_elizaos_command(d, false, false), direct());
}

#[test]
fn stepwise_resolution_makes_at_most_two_trials() {
    for preference in [InvocationPreference::WrapperFirst, InvocationPreference::DirectOnly] {
        for wrapper_starts in [false, true] {
            for direct_starts in [false, true] {
                let mut trials = Vec::new();
                let mut step = begin_resolution(preference);
                let form = loop {
                    match step {
                        ResolverStep::Try(form) => {
                            trials.push(form);
                            let started = match form {
                                InvocationForm::Wrapper => wrapper_starts,
                                InvocationForm::Direct => direct_starts,
                            };
                            step = after_trial(form, started);
                        }
                        ResolverStep::Resolved { form, .. } => break form,
                    }
                };
                assert!(trials.len() <= 2);
                assert_eq!(
                    invocation(form),
                    find_elizaos_command(preference, wrapper_starts, direct_starts)
                );
                if preference == InvocationPreference::DirectOnly {
                    assert_eq!(trials, vec![InvocationForm::Direct]);
                } else if wrapper_starts {
                    assert_eq!(trials, vec![InvocationForm::Wrapper]);
                } else {
                    assert_eq!(trials, vec![InvocationForm::Wrapper, InvocationForm::Direct]);
                }
            }
        }
    }
}
