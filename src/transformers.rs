//! The transformer that asks a language model for questions and answers about a code chunk.
use vstd::prelude::*;
use crate::ingestion::IngestionNode;

verus! {

/// The prompt template: `{questions}` stands for the number of questions and
/// `{code}` for the chunk.
pub const DEFAULT_PROMPT: &'static str = "\n\
# Task\n\
Your task is to generate questions and answers for the given code. \n\
\n\
Given that somebody else might ask questions about the code, consider things like:\n\
* What does this code do?\n\
* What other internal parts does the code use?\n\
* Does this code have any dependencies?\n\
* What are some potential use cases for this code?\n\
* ... and so on\n\
\n\
# Constraints \n\
* Generate only {questions} questions and answers.\n\
* Only respond in the example format\n\
* Only respond with questions and answers that can be derived from the code.\n\
\n\
# Example\n\
Respond in the following example format and do not include anything else:\n\
\n\
```\n\
Q1: What does this code do?\n\
A1: It transforms strings into integers.\n\
Q2: What other internal parts does the code use?\n\
A2: A hasher to hash the strings.\n\
```\n\
\n\
# Code\n\
```\n\
{code}\n\
```\n\
\n\
";

/// The attribute under which the generated questions and answers are kept.
pub const QA_KEY: &'static str = "Questions and Answers";

/// `s` with every non-overlapping occurrence of `pat`, scanned from the left,
/// replaced by `with`.
pub open spec fn replaced(s: Seq<char>, pat: Seq<char>, with: Seq<char>) -> Seq<char>
    decreases s.len(),
{
    if s.len() == 0 || pat.len() == 0 {
        s
    } else if pat.len() <= s.len() && s.take(pat.len() as int) == pat {
        with + replaced(s.skip(pat.len() as int), pat, with)
    } else {
        seq![s[0]] + replaced(s.skip(1), pat, with)
    }
}

/// The decimal digit for `d < 10`.
pub open spec fn digit_char(d: nat) -> char {
    seq!['0', '1', '2', '3', '4', '5', '6', '7', '8', '9'][d as int]
}

/// The decimal notation of `n`, without sign or leading zeros.
pub open spec fn decimal(n: nat) -> Seq<char>
    decreases n,
{
    if n < 10 {
        seq![digit_char(n)]
    } else {
        decimal(n / 10).push(digit_char(n % 10))
    }
}

/// The prompt for a template, a number of questions and a chunk.
pub open spec fn rendered_prompt(template: Seq<char>, questions: nat, code: Seq<char>) -> Seq<char> {
    replaced(replaced(template, "{questions}"@, decimal(questions)), "{code}"@, code)
}

/// Relies on std's `str::replace`: each non-overlapping match of a non-empty
/// pattern, found from the left, is replaced.
#[verifier::external_body]
fn replace_all(s: &str, pat: &str, with: &str) -> (r: String)
    requires
        pat@.len() > 0,
    ensures
        r@ == replaced(s@, pat@, with@),
{
    s.replace(pat, with)
}

/// Relies on std's `Display` for `usize` (through `ToString`): plain decimal digits.
#[verifier::external_body]
fn decimal_string(n: usize) -> (r: String)
    ensures
        r@ == decimal(n as nat),
{
    n.to_string()
}

/// Enriches code chunks with questions and answers that a language model
/// generates about them.
///
/// The model client is carried as `C`; the request itself is made by whoever
/// drives the run, with the prompt from `prompt_for`.
pub struct MetadataQACode<C> {
    client: C,
    prompt: String,
    num_questions: usize,
    concurrency: Option<usize>,
}

/// The default prompt template, as an owned string.
fn default_prompt() -> (r: String)
    ensures
        r@ == DEFAULT_PROMPT@,
{
    String::from_str(DEFAULT_PROMPT)
}

impl<C> MetadataQACode<C> {
    pub closed spec fn client_spec(&self) -> C {
        self.client
    }

    pub closed spec fn prompt_spec(&self) -> Seq<char> {
        self.prompt@
    }

    pub closed spec fn num_questions_spec(&self) -> nat {
        self.num_questions as nat
    }

    pub closed spec fn concurrency_spec(&self) -> Option<usize> {
        self.concurrency
    }

    /// A transformer with the default prompt, five questions and no preferred
    /// concurrency.
    pub fn new(client: C) -> (r: Self)
        ensures
            r.client_spec() == client,
            r.prompt_spec() == DEFAULT_PROMPT@,
            r.num_questions_spec() == 5,
            r.concurrency_spec() is None,
    {
        MetadataQACode { client, prompt: default_prompt(), num_questions: 5, concurrency: None }
    }

    /// The same transformer, preferring `concurrency` parallel invocations.
    pub fn with_concurrency(self, concurrency: usize) -> (r: Self)
        ensures
            r.client_spec() == self.client_spec(),
            r.prompt_spec() == self.prompt_spec(),
            r.num_questions_spec() == self.num_questions_spec(),
            r.concurrency_spec() == Some(concurrency),
    {
        MetadataQACode { concurrency: Some(concurrency), ..self }
    }

    /// The preferred concurrency, if any.
    pub fn concurrency(&self) -> (r: Option<usize>)
        ensures
            r == self.concurrency_spec(),
    {
        self.concurrency
    }

    /// The model client.
    pub fn client(&self) -> (r: &C)
        ensures
            *r == self.client_spec(),
    {
        &self.client
    }

    /// The prompt for a node: the template with the number of questions and the
    /// node's content filled in.
    pub fn prompt_for(&self, node: &IngestionNode) -> (r: String)
        ensures
            r@ == rendered_prompt(self.prompt_spec(), self.num_questions_spec(), node.chunk@),
    {
        proof {
            reveal_strlit("{questions}");
            reveal_strlit("{code}");
        }
        let questions = decimal_string(self.num_questions);
        let filled = replace_all(self.prompt.as_str(), "{questions}", questions.as_str());
        replace_all(filled.as_str(), "{code}", node.chunk.as_str())
    }

    /// The node with the model's `response` kept under the questions-and-answers
    /// attribute.
    pub fn transform_node(&self, node: IngestionNode, response: String) -> (r: IngestionNode)
        requires
            node.wf(),
        ensures
            r.wf(),
            r.attr_model() == node.attr_model().insert(QA_KEY@, response@),
            r.id == node.id,
            r.path == node.path,
            r.chunk == node.chunk,
            r.vector == node.vector,
    {
        let mut node = node;
        node.insert_attribute(String::from_str(QA_KEY), response);
        node
    }
}

} // verus!
