use anda_brain::cognitive::CAPABILITIES;
use anda_brain::prompts::{
    active_prompt, language_reference, mode_reference, syntax, system_prompt, AgentPrompts,
    Policies, PromptError, PromptTarget,
};

const INSTRUCTIONS: &str = "Read normative details through kip_reference.";

fn policies() -> Policies {
    let policy = |name: &str| format!("# {name}\n\nThe policy.\n\n# A. Deployment\n\nThe contract.\n");
    Policies {
        formation: policy("Formation"),
        recall: policy("Recall"),
        maintenance: policy("Maintenance"),
    }
}

#[test]
fn all_modes_include_complete_versioned_syntax_and_only_their_role_cards() {
    for target in [
        PromptTarget::Recall,
        PromptTarget::Formation,
        PromptTarget::Maintenance,
    ] {
        let reference = mode_reference(target, INSTRUCTIONS);
        assert_eq!(reference.matches(anda_kip::KIP_SYNTAX).count(), 1);
        assert_eq!(reference.matches(anda_kip::COGNITIVE_MEMORY_PROFILE).count(), 1);
        assert!(reference.contains(INSTRUCTIONS));
        assert!(reference.contains(CAPABILITIES));
        for (card, expected) in [
            (anda_kip::KIP_RECALL_CARD, target != PromptTarget::Formation),
            (anda_kip::KIP_FORMATION_CARD, target != PromptTarget::Recall),
            (anda_kip::KIP_MAINTENANCE_CARD, target == PromptTarget::Maintenance),
        ] {
            assert_eq!(reference.matches(card).count(), usize::from(expected));
        }
    }
}

#[test]
fn every_system_prompt_preserves_language_and_policy_across_deployment_overrides() {
    for target in [
        PromptTarget::Formation,
        PromptTarget::Recall,
        PromptTarget::Maintenance,
    ] {
        let defaults = AgentPrompts::new(&policies());
        let changed = defaults
            .copy()
            .with_deployment_section(target, "# A. Test deployment\nCUSTOM_CONTRACT")
            .unwrap();
        for prompts in [&defaults, &changed] {
            let policy = prompts.prompt(target);
            let system = system_prompt(target, INSTRUCTIONS, policy);
            assert!(system.starts_with(&language_reference()));
            assert_eq!(system.matches(anda_kip::KIP_SYNTAX).count(), 1);
            assert_eq!(system.matches(anda_kip::COGNITIVE_MEMORY_PROFILE).count(), 1);
            assert!(system.ends_with(policy));
            let own = policies();
            let compiled_policy = target.default_prompt(&own).split_once("\n# A.").unwrap().0;
            assert!(system.contains(compiled_policy));
            assert!(
                system.find(CAPABILITIES).unwrap()
                    > system.find(anda_kip::KIP_SYNTAX).unwrap()
            );
        }
    }
}

#[test]
fn executable_syntax_and_role_card_examples_parse_with_the_pinned_engine() {
    for document in [
        anda_kip::KIP_SYNTAX,
        anda_kip::KIP_RECALL_CARD,
        anda_kip::KIP_FORMATION_CARD,
        anda_kip::KIP_MAINTENANCE_CARD,
    ] {
        let mut examples = 0;
        for block in document.split("```kip\n").skip(1) {
            let (command, _) = block.split_once("```").unwrap();
            anda_kip::parse_kip(command)
                .unwrap_or_else(|error| panic!("invalid KIP example: {error}\n{command}"));
            examples += 1;
        }
        assert!(examples > 0);
    }
    assert_eq!(syntax(), anda_kip::KIP_SYNTAX);
}

#[test]
fn instance_prompt_edits_preserve_compiled_reference_and_other_instances() {
    let baseline = AgentPrompts::new(&policies());
    let changed = baseline
        .copy()
        .with_deployment_section(PromptTarget::Recall, "# A. local\nINSTANCE_ONLY")
        .unwrap();
    let recall_default = policies().recall;
    let reference = recall_default.split_once("\n# A.").unwrap().0;
    assert_eq!(
        changed
            .prompt(PromptTarget::Recall)
            .split_once("\n# A.")
            .unwrap()
            .0,
        reference
    );
    assert!(changed.prompt(PromptTarget::Recall).ends_with("INSTANCE_ONLY"));
    assert_eq!(baseline.prompt(PromptTarget::Recall), recall_default);
    assert_eq!(active_prompt(PromptTarget::Recall, &policies()), recall_default);
    assert_eq!(
        changed.prompt(PromptTarget::Formation),
        baseline.prompt(PromptTarget::Formation)
    );
    assert!(baseline
        .copy()
        .with_deployment_section(PromptTarget::Recall, "replace reference policy")
        .is_err());
    assert_eq!(
        baseline
            .with_deployment_section(
                PromptTarget::Recall,
                &format!("# A.{}", "x".repeat(128 * 1024))
            )
            .unwrap_err(),
        PromptError::InvalidSection
    );
}

#[test]
fn targets_have_names_and_a_default() {
    assert_eq!(PromptTarget::Formation.as_str(), "formation");
    assert_eq!(PromptTarget::default().as_str(), "recall");
    assert_eq!(PromptTarget::Maintenance.as_str(), "maintenance");
}

#[test]
fn a_policy_without_its_boundary_takes_no_section() {
    let mut bare = policies();
    bare.recall = "# Recall".to_string();
    let prompts = AgentPrompts::new(&bare);
    assert_eq!(
        prompts.with_deployment_section(PromptTarget::Recall, "# A. x").unwrap_err(),
        PromptError::MissingBoundary
    );
}
