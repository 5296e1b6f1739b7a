//! The prompts a tooling server offers, by subject.

use vstd::prelude::*;
use vstd::string::*;

verus! {

/// One argument of a prompt.
#[derive(Debug, PartialEq, Eq)]
pub struct PromptArgument {
    pub name: String,
    pub description: Option<String>,
    pub required: bool,
}

/// The model of [`PromptArgument`].
pub struct PromptArgumentView {
    pub name: Seq<char>,
    pub description: Option<Seq<char>>,
    pub required: bool,
}

impl View for PromptArgument {
    type V = PromptArgumentView;

    open spec fn view(&self) -> PromptArgumentView {
        PromptArgumentView {
            name: self.name@,
            description: match self.description {
                Some(d) => Some(d@),
                None => None,
            },
            required: self.required,
        }
    }
}

impl DeepView for PromptArgument {
    type V = PromptArgumentView;

    open spec fn deep_view(&self) -> PromptArgumentView {
        self@
    }
}

/// A prompt: its name, what it is for, and its arguments in order.
#[derive(Debug, PartialEq, Eq)]
pub struct Prompt {
    pub name: String,
    pub description: Option<String>,
    pub arguments: Vec<PromptArgument>,
}

/// The model of [`Prompt`].
pub struct PromptView {
    pub name: Seq<char>,
    pub description: Option<Seq<char>>,
    pub arguments: Seq<PromptArgumentView>,
}

impl View for Prompt {
    type V = PromptView;

    open spec fn view(&self) -> PromptView {
        PromptView {
            name: self.name@,
            description: match self.description {
                Some(d) => Some(d@),
                None => None,
            },
            arguments: self.arguments.deep_view(),
        }
    }
}

impl DeepView for Prompt {
    type V = PromptView;

    open spec fn deep_view(&self) -> PromptView {
        self@
    }
}

/// The argument `name`, described by `description`.
pub open spec fn argument_of(name: Seq<char>, description: Seq<char>, required: bool) -> PromptArgumentView {
    PromptArgumentView { name, description: Some(description), required }
}

/// The prompt `name`, described by `description`, with `arguments`.
pub open spec fn prompt_of(
    name: Seq<char>,
    description: Seq<char>,
    arguments: Seq<PromptArgumentView>,
) -> PromptView {
    PromptView { name, description: Some(description), arguments }
}

/// The argument `name`, described by `description`.
fn argument(name: &str, description: &str, required: bool) -> (a: PromptArgument)
    ensures
        a@ == argument_of(name@, description@, required),
{
    PromptArgument { name: name.to_owned(), description: Some(description.to_owned()), required }
}

/// The prompt `name` with one argument.
fn prompt1(name: &str, description: &str, first: PromptArgument) -> (p: Prompt)
    ensures
        p@ == prompt_of(name@, description@, seq![first@]),
{
    let mut arguments: Vec<PromptArgument> = Vec::new();
    arguments.push(first);
    assert(arguments.deep_view() =~= seq![first@]);
    Prompt { name: name.to_owned(), description: Some(description.to_owned()), arguments }
}

/// The prompt `name` with two arguments.
fn prompt2(name: &str, description: &str, first: PromptArgument, second: PromptArgument) -> (p:
    Prompt)
    ensures
        p@ == prompt_of(name@, description@, seq![first@, second@]),
{
    let mut arguments: Vec<PromptArgument> = Vec::new();
    arguments.push(first);
    arguments.push(second);
    assert(arguments.deep_view() =~= seq![first@, second@]);
    Prompt { name: name.to_owned(), description: Some(description.to_owned()), arguments }
}

/// The prompts on architecture: one overview, at a level of detail.
pub open spec fn architecture_prompts() -> Seq<PromptView> {
    seq![
        prompt_of(
            "zks_architecture_overview"@,
            "Explain ZKS architecture"@,
            seq![
                argument_of(
                    "detail_level"@,
                    "Level of detail: 'high' | 'medium' | 'low'"@,
                    false,
                ),
            ],
        ),
    ]
}

/// The prompts on implementation: one guide, for a feature in a crate.
pub open spec fn implementation_prompts() -> Seq<PromptView> {
    seq![
        prompt_of(
            "zks_implement_feature"@,
            "Feature implementation guide"@,
            seq![
                argument_of("feature_name"@, "Name of the feature to implement"@, true),
                argument_of("crate"@, "Target crate for implementation"@, false),
            ],
        ),
    ]
}

/// The prompts on review: one checklist, for a diff.
pub open spec fn review_prompts() -> Seq<PromptView> {
    seq![
        prompt_of(
            "zks_code_review"@,
            "Code review checklist"@,
            seq![argument_of("pr_diff"@, "Pull request diff"@, true)],
        ),
    ]
}

/// The prompts on security: a review of a file and an audit of an algorithm.
pub open spec fn security_prompts() -> Seq<PromptView> {
    seq![
        prompt_of(
            "zks_security_review"@,
            "Comprehensive security review for ZKS code"@,
            seq![
                argument_of("file_path"@, "Path to file to review"@, true),
                argument_of(
                    "scope"@,
                    "Review scope: 'full' | 'crypto' | 'network' | 'api'"@,
                    false,
                ),
            ],
        ),
        prompt_of(
            "zks_crypto_audit"@,
            "Audit cryptographic implementation against best practices"@,
            seq![argument_of("algorithm"@, "Algorithm being audited"@, true)],
        ),
    ]
}

/// The prompts on architecture.
#[derive(Debug, Clone, Copy, PartialEq, Eq, Structural)]
pub struct ArchitecturePrompts;

impl ArchitecturePrompts {
    /// The catalogue.
    pub fn new() -> (p: ArchitecturePrompts)
        ensures
            p == ArchitecturePrompts,
    {
        ArchitecturePrompts
    }

    /// Its prompts.
    pub fn prompts(&self) -> (r: Vec<Prompt>)
        ensures
            r.deep_view() == architecture_prompts(),
    {
        let overview = prompt1(
            "zks_architecture_overview",
            "Explain ZKS architecture",
            argument("detail_level", "Level of detail: 'high' | 'medium' | 'low'", false),
        );
        let mut r: Vec<Prompt> = Vec::new();
        r.push(overview);
        assert(r.deep_view() =~= architecture_prompts());
        r
    }
}

/// The prompts on implementation.
#[derive(Debug, Clone, Copy, PartialEq, Eq, Structural)]
pub struct ImplementationPrompts;

impl ImplementationPrompts {
    /// The catalogue.
    pub fn new() -> (p: ImplementationPrompts)
        ensures
            p == ImplementationPrompts,
    {
        ImplementationPrompts
    }

    /// Its prompts.
    pub fn prompts(&self) -> (r: Vec<Prompt>)
        ensures
            r.deep_view() == implementation_prompts(),
    {
        let guide = prompt2(
            "zks_implement_feature",
            "Feature implementation guide",
            argument("feature_name", "Name of the feature to implement", true),
            argument("crate", "Target crate for implementation", false),
        );
        let mut r: Vec<Prompt> = Vec::new();
        r.push(guide);
        assert(r.deep_view() =~= implementation_prompts());
        r
    }
}

/// The prompts on review.
#[derive(Debug, Clone, Copy, PartialEq, Eq, Structural)]
pub struct ReviewPrompts;

impl ReviewPrompts {
    /// The catalogue.
    pub fn new() -> (p: ReviewPrompts)
        ensures
            p == ReviewPrompts,
    {
        ReviewPrompts
    }

    /// Its prompts.
    pub fn prompts(&self) -> (r: Vec<Prompt>)
        ensures
            r.deep_view() == review_prompts(),
    {
        let checklist = prompt1(
            "zks_code_review",
            "Code review checklist",
            argument("pr_diff", "Pull request diff", true),
        );
        let mut r: Vec<Prompt> = Vec::new();
        r.push(checklist);
        assert(r.deep_view() =~= review_prompts());
        r
    }
}

/// The prompts on security.
#[derive(Debug, Clone, Copy, PartialEq, Eq, Structural)]
pub struct SecurityPrompts;

impl SecurityPrompts {
    /// The catalogue.
    pub fn new() -> (p: SecurityPrompts)
        ensures
            p == SecurityPrompts,
    {
        SecurityPrompts
    }

    /// Its prompts.
    pub fn prompts(&self) -> (r: Vec<Prompt>)
        ensures
            r.deep_view() == security_prompts(),
    {
        let review = prompt2(
            "zks_security_review",
            "Comprehensive security review for ZKS code",
            argument("file_path", "Path to file to review", true),
            argument("scope", "Review scope: 'full' | 'crypto' | 'network' | 'api'", false),
        );
        let audit = prompt1(
            "zks_crypto_audit",
            "Audit cryptographic implementation against best practices",
            argument("algorithm", "Algorithm being audited", true),
        );
        let mut r: Vec<Prompt> = Vec::new();
        r.push(review);
        r.push(audit);
        assert(r.deep_view() =~= security_prompts());
        r
    }
}

} // verus!
