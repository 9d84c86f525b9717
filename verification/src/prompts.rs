//! Immutable agent prompt configuration that a host instance owns.
//!
//! The policies come with the host. A trusted launcher may replace a deployment's
//! section A; the policy before it always stays the host's own. There is no mutable
//! layer that a whole process shares.

use vstd::prelude::*;
use vstd::string::*;

use crate::cognitive::CAPABILITIES;
use crate::text;

verus! {

/// Where a deployment's own section starts.
pub const BOUNDARY: &'static str = "\n# A.";

/// The longest deployment section, in bytes.
pub const MAX_SECTION: usize = 131_072;

/// Which agent receives a deployment's configuration.
#[derive(Clone, Copy, Debug, PartialEq, Eq, Structural)]
pub enum PromptTarget {
    Formation,
    Recall,
    Maintenance,
}

impl Default for PromptTarget {
    fn default() -> (r: Self)
        ensures
            r == PromptTarget::Recall,
    {
        PromptTarget::Recall
    }
}

impl PromptTarget {
    pub open spec fn name(self) -> Seq<char> {
        match self {
            PromptTarget::Formation => "formation"@,
            PromptTarget::Recall => "recall"@,
            PromptTarget::Maintenance => "maintenance"@,
        }
    }

    pub fn as_str(self) -> (r: &'static str)
        ensures
            r@ == self.name(),
    {
        match self {
            PromptTarget::Formation => "formation",
            PromptTarget::Recall => "recall",
            PromptTarget::Maintenance => "maintenance",
        }
    }

    /// The policy of an agent, as the host compiled it in.
    pub fn default_prompt(self, policies: &Policies) -> (r: &str)
        ensures
            r@ == policies.of(self),
    {
        match self {
            PromptTarget::Formation => policies.formation.as_str(),
            PromptTarget::Recall => policies.recall.as_str(),
            PromptTarget::Maintenance => policies.maintenance.as_str(),
        }
    }
}

/// The policies that a host compiles in, each with the contract of its deployment
/// behind it.
#[derive(Debug)]
pub struct Policies {
    pub formation: String,
    pub recall: String,
    pub maintenance: String,
}

impl Policies {
    pub open spec fn of(self, target: PromptTarget) -> Seq<char> {
        match target {
            PromptTarget::Formation => self.formation@,
            PromptTarget::Recall => self.recall@,
            PromptTarget::Maintenance => self.maintenance@,
        }
    }

    pub fn copy(&self) -> (r: Policies)
        ensures
            r == *self,
    {
        Policies {
            formation: self.formation.clone(),
            recall: self.recall.clone(),
            maintenance: self.maintenance.clone(),
        }
    }
}

/// The policy of an agent, which no instance can change.
pub fn active_prompt(target: PromptTarget, policies: &Policies) -> (r: String)
    ensures
        r@ == policies.of(target),
{
    target.default_prompt(policies).to_owned()
}

/// Why a deployment's section was refused.
#[derive(Clone, Copy, Debug, PartialEq, Eq, Structural)]
pub enum PromptError {
    InvalidSection,
    MissingBoundary,
}

impl PromptError {
    /// The words of the error.
    pub open spec fn words(self) -> Seq<char> {
        match self {
            PromptError::InvalidSection =>
                "deployment prompt must start with # A. and fit within 128 KiB"@,
            PromptError::MissingBoundary =>
                "compiled prompt is missing its deployment boundary"@,
        }
    }

    pub fn message(&self) -> (r: &'static str)
        ensures
            r@ == self.words(),
    {
        match self {
            PromptError::InvalidSection =>
                "deployment prompt must start with # A. and fit within 128 KiB",
            PromptError::MissingBoundary =>
                "compiled prompt is missing its deployment boundary",
        }
    }
}

pub open spec fn section_valid(section: Seq<char>) -> bool {
    text::is_prefix("# A."@, section) && text::utf8_len(section) <= MAX_SECTION
}

/// The reference before the deployment's section, and the new section behind it.
pub open spec fn is_redeployed(compiled: Seq<char>, section: Seq<char>, prompt: Seq<char>) -> bool {
    exists|at: int| #[trigger]
        text::is_first(compiled, BOUNDARY@, at) && prompt == compiled.take(at) + "\n"@ + section
}

/// The prompts of one instance. Only the deployment's section comes from the
/// launcher; the policy before it is always the compiled one.
#[derive(Debug)]
pub struct AgentPrompts {
    compiled: Policies,
    deployed: Policies,
}

impl AgentPrompts {
    /// The prompt of an agent.
    pub closed spec fn of(self, target: PromptTarget) -> Seq<char> {
        self.deployed.of(target)
    }

    /// What the host compiled in.
    pub closed spec fn policies(self) -> Policies {
        self.compiled
    }

    /// The prompts of an instance that replaces nothing.
    pub fn new(policies: &Policies) -> (r: AgentPrompts)
        ensures
            r.policies() == *policies,
            forall|target: PromptTarget| #[trigger] r.of(target) == policies.of(target),
    {
        AgentPrompts { compiled: policies.copy(), deployed: policies.copy() }
    }

    /// The same prompts once more.
    pub fn copy(&self) -> (r: AgentPrompts)
        ensures
            r.policies() == self.policies(),
            forall|target: PromptTarget| #[trigger] r.of(target) == self.of(target),
    {
        AgentPrompts { compiled: self.compiled.copy(), deployed: self.deployed.copy() }
    }

    /// Replaces the selected deployment's section in this value alone. Other
    /// instances, and what is compiled in, stay as they are.
    pub fn with_deployment_section(self, target: PromptTarget, section: &str) -> (r: Result<
        AgentPrompts,
        PromptError,
    >)
        ensures
            match r {
                Ok(changed) => {
                    &&& section_valid(section@)
                    &&& changed.policies() == self.policies()
                    &&& is_redeployed(
                        self.policies().of(target),
                        section@,
                        changed.of(target),
                    )
                    &&& forall|other: PromptTarget|
                        other != target ==> #[trigger] changed.of(other) == self.of(other)
                },
                Err(PromptError::InvalidSection) => !section_valid(section@),
                Err(PromptError::MissingBoundary) => section_valid(section@) && !text::holds(
                    self.policies().of(target),
                    BOUNDARY@,
                ),
            },
    {
        if !text::starts_with(section, "# A.") || text::byte_len(section) > MAX_SECTION {
            return Err(PromptError::InvalidSection);
        }
        let prompt = {
            let compiled = target.default_prompt(&self.compiled);
            let (reference, _) = match text::split_once(compiled, BOUNDARY) {
                Some(parts) => parts,
                None => return Err(PromptError::MissingBoundary),
            };
            assert(compiled@.take(reference@.len() as int) =~= reference@);
            let mut prompt = reference.to_owned();
            prompt.append("\n");
            prompt.append(section);
            assert(prompt@ == compiled@.take(reference@.len() as int) + "\n"@ + section@);
            prompt
        };
        assert(is_redeployed(self.compiled.of(target), section@, prompt@));
        let mut changed = self;
        match target {
            PromptTarget::Formation => {
                changed.deployed.formation = prompt;
            },
            PromptTarget::Recall => {
                changed.deployed.recall = prompt;
            },
            PromptTarget::Maintenance => {
                changed.deployed.maintenance = prompt;
            },
        }
        Ok(changed)
    }

    pub fn prompt(&self, target: PromptTarget) -> (r: &str)
        ensures
            r@ == self.of(target),
    {
        target.default_prompt(&self.deployed)
    }
}

/// A replaced section leaves the compiled reference before it whole: the new
/// prompt starts with it, and ends with the section.
pub proof fn the_compiled_reference_is_kept(
    compiled: Seq<char>,
    section: Seq<char>,
    prompt: Seq<char>,
)
    requires
        section_valid(section),
        is_redeployed(compiled, section, prompt),
    ensures
        text::is_suffix(section, prompt),
        exists|at: int| #[trigger]
            text::is_first(compiled, BOUNDARY@, at) && text::is_prefix(compiled.take(at), prompt)
                && text::occurs_at(prompt, BOUNDARY@, at),
{
    let at = choose|at: int| #[trigger]
        text::is_first(compiled, BOUNDARY@, at) && prompt == compiled.take(at) + "\n"@ + section;
    reveal_strlit("\n# A.");
    reveal_strlit("\n");
    reveal_strlit("# A.");
    assert(section.subrange(0, 4) =~= "# A."@);
    assert(prompt.subrange(prompt.len() - section.len(), prompt.len() as int) =~= section);
    assert(prompt.subrange(0, at) =~= compiled.take(at));
    assert(compiled.take(at).len() == at);
    assert forall|k: int| 0 <= k < 5 implies prompt.subrange(at, at + 5)[k] == BOUNDARY@[k] by {
        if k > 0 {
            assert(section.subrange(0, 4)[k - 1] == section[k - 1]);
        }
    }
    assert(prompt.subrange(at, at + 5) =~= BOUNDARY@);
}

// ---------------------------------------------------------------------------
// System prompts
// ---------------------------------------------------------------------------

/// A reference document of the memory language.
#[derive(Clone, Copy, Debug, PartialEq, Eq, Structural)]
pub enum Reference {
    Syntax,
    Profile,
    RecallCard,
    FormationCard,
    MaintenanceCard,
}

/// The text of a reference document.
pub uninterp spec fn reference_text(document: Reference) -> Seq<char>;

/// `anda_kip::KIP_SYNTAX`, `anda_kip::COGNITIVE_MEMORY_PROFILE` and the cards
/// `anda_kip::KIP_RECALL_CARD`, `KIP_FORMATION_CARD` and `KIP_MAINTENANCE_CARD`:
/// texts that are compiled into the engine's language crate.
#[verifier::external_body]
fn reference(document: Reference) -> (r: &'static str)
    ensures
        r@ == reference_text(document),
{
    match document {
        Reference::Syntax => anda_kip::KIP_SYNTAX,
        Reference::Profile => anda_kip::COGNITIVE_MEMORY_PROFILE,
        Reference::RecallCard => anda_kip::KIP_RECALL_CARD,
        Reference::FormationCard => anda_kip::KIP_FORMATION_CARD,
        Reference::MaintenanceCard => anda_kip::KIP_MAINTENANCE_CARD,
    }
}

/// The syntax of the memory language.
pub fn syntax() -> (r: &'static str)
    ensures
        r@ == reference_text(Reference::Syntax),
{
    reference(Reference::Syntax)
}

pub const RULE: &'static str = "\n\n---\n\n";

/// The shared language and ontology, which every agent's system context holds.
pub open spec fn language() -> Seq<char> {
    reference_text(Reference::Syntax) + RULE@ + reference_text(Reference::Profile)
}

pub fn language_reference() -> (r: String)
    ensures
        r@ == language(),
{
    let mut out = reference(Reference::Syntax).to_owned();
    out.append(RULE);
    out.append(reference(Reference::Profile));
    out
}

/// The role cards of a mode: its own, and for maintenance all of them.
pub open spec fn cards_of(target: PromptTarget) -> Seq<char> {
    match target {
        PromptTarget::Formation => reference_text(Reference::FormationCard),
        PromptTarget::Recall => reference_text(Reference::RecallCard),
        PromptTarget::Maintenance => reference_text(Reference::RecallCard) + "\n\n"@
            + reference_text(Reference::FormationCard) + "\n\n"@ + reference_text(
            Reference::MaintenanceCard,
        ),
    }
}

/// The language, the role cards and the host's constraints.
pub open spec fn mode(target: PromptTarget, instructions: Seq<char>) -> Seq<char> {
    language() + RULE@ + cards_of(target) + RULE@ + CAPABILITIES@ + "\n\n"@ + instructions
}

/// Complete syntax, ontology, role cards and constraints of a mode. The
/// instructions say how further reference material is read.
pub fn mode_reference(target: PromptTarget, instructions: &str) -> (r: String)
    ensures
        r@ == mode(target, instructions@),
{
    let mut out = language_reference();
    out.append(RULE);
    match target {
        PromptTarget::Formation => {
            out.append(reference(Reference::FormationCard));
        },
        PromptTarget::Recall => {
            out.append(reference(Reference::RecallCard));
        },
        PromptTarget::Maintenance => {
            out.append(reference(Reference::RecallCard));
            out.append("\n\n");
            out.append(reference(Reference::FormationCard));
            out.append("\n\n");
            out.append(reference(Reference::MaintenanceCard));
        },
    }
    out.append(RULE);
    out.append(CAPABILITIES);
    out.append("\n\n");
    out.append(instructions);
    assert(out@ =~= mode(target, instructions@));
    out
}

/// The static part of every system prompt: the full language is unconditional, a
/// deployment only replaces its own section of the policy.
pub fn system_prompt(target: PromptTarget, instructions: &str, deployment_policy: &str) -> (r:
    String)
    ensures
        r@ == mode(target, instructions@) + RULE@ + deployment_policy@,
{
    let mut out = mode_reference(target, instructions);
    out.append(RULE);
    out.append(deployment_policy);
    out
}

/// Every system prompt starts with the whole language reference and ends with
/// the policy that it was made for.
pub proof fn system_prompts_keep_language_and_policy(
    target: PromptTarget,
    instructions: Seq<char>,
    policy: Seq<char>,
)
    ensures
        text::is_prefix(language(), mode(target, instructions) + RULE@ + policy),
        text::is_suffix(policy, mode(target, instructions) + RULE@ + policy),
{
    let whole = mode(target, instructions) + RULE@ + policy;
    assert(whole.subrange(0, language().len() as int) =~= language());
    assert(whole.subrange(whole.len() - policy.len(), whole.len() as int) =~= policy);
}

/// Every mode's reference holds the engine's own card of its role and the
/// capabilities, behind the language.
pub proof fn modes_hold_their_cards(target: PromptTarget, instructions: Seq<char>)
    ensures
        text::occurs_at(
            mode(target, instructions),
            cards_of(target),
            (language() + RULE@).len() as int,
        ),
        text::occurs_at(
            mode(target, instructions),
            CAPABILITIES@,
            (language() + RULE@ + cards_of(target) + RULE@).len() as int,
        ),
{
    let whole = mode(target, instructions);
    let before = (language() + RULE@).len() as int;
    assert(whole.subrange(before, before + cards_of(target).len()) =~= cards_of(target));
    let behind = (language() + RULE@ + cards_of(target) + RULE@).len() as int;
    assert(whole.subrange(behind, behind + CAPABILITIES@.len()) =~= CAPABILITIES@);
}

/// A section starts with its heading and fits a hundred and twenty-eight kibibytes.
pub proof fn sections_start_with_their_heading(section: Seq<char>)
    ensures
        section_valid(section) <==> text::is_prefix("# A."@, section) && text::utf8_len(section)
            < 131_073,
{
}

/// A deployed prompt is what was compiled up to the first boundary, a line break, and the
/// section that was given.
pub proof fn deployments_replace_what_follows(
    compiled: Seq<char>,
    section: Seq<char>,
    prompt: Seq<char>,
)
    requires
        is_redeployed(compiled, section, prompt),
    ensures
        exists|at: int| #[trigger]
            text::is_first(compiled, "\n# A."@, at) && prompt == compiled.take(at) + "\n"@ + section,
        prompt.len() > section.len(),
        prompt.skip(prompt.len() - section.len()) == section,
{
    reveal_strlit("\n");
    let at = choose|at: int| #[trigger]
        text::is_first(compiled, BOUNDARY@, at) && prompt == compiled.take(at) + "\n"@ + section;
    assert(text::is_first(compiled, "\n# A."@, at));
    assert("\n"@.len() == 1);
    assert(prompt.skip(prompt.len() - section.len()) =~= section);
}

/// Each target has its own name and its own policy.
pub proof fn targets_have_their_own_policy(policies: Policies)
    ensures
        policies.of(PromptTarget::Formation) == policies.formation@,
        policies.of(PromptTarget::Recall) == policies.recall@,
        policies.of(PromptTarget::Maintenance) == policies.maintenance@,
        PromptTarget::Formation.name() == "formation"@,
        PromptTarget::Recall.name() == "recall"@,
        PromptTarget::Maintenance.name() == "maintenance"@,
{
}

} // verus!
