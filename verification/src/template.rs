//! Prompt templates.
//!
//! A template is a text in which the template engine replaces each reference
//! to the variable `prompt` by the line that a client sent. The engine is the
//! `string_template` crate; what it makes of a template is taken from it and
//! not restated here.

use std::collections::HashMap;
use string_template::Template;
use vstd::prelude::*;
use vstd::string::*;

verus! {

/// What `string_template` renders from the template text `template` when the
/// single variable `name` is bound to `value`.
pub uninterp spec fn rendered(template: Seq<char>, name: Seq<char>, value: Seq<char>) -> Seq<char>;

/// Calls `string_template::Template::new` on `template` and then
/// `Template::render` with a map that binds `name` to `value` and nothing
/// else. The contract only names the result: the text that comes back is
/// determined by the three arguments. Neither call panics: the engine's
/// pattern is fixed and the positions it slices at are its own matches.
#[verifier::external_body]
fn expand(template: &str, name: &str, value: &str) -> (out: String)
    ensures
        out@ == rendered(template@, name@, value@),
{
    let mut vars: HashMap<&str, &str> = HashMap::new();
    vars.insert(name, value);
    Template::new(template).render(&vars)
}

/// The prompt that `template` gives for the line `line`.
pub open spec fn prompt_text(template: Seq<char>, line: Seq<char>) -> Seq<char> {
    rendered(template, "prompt"@, line)
}

/// Whether a rendering of `template` for `line` carries the line: the output
/// has `fixed` characters besides `copies` copies of the line, and one copy
/// starts at offset `at`.
pub open spec fn carries(
    template: Seq<char>,
    line: Seq<char>,
    at: nat,
    fixed: nat,
    copies: nat,
) -> bool {
    let out = prompt_text(template, line);
    &&& out.len() == fixed + copies * line.len()
    &&& at + line.len() <= out.len()
    &&& out.subrange(at as int, at + line.len() as int) == line
}

/// Whether every rendering of `template` carries its line at offset `at`,
/// `copies` times in all and at least once.
pub open spec fn carries_every_line(template: Seq<char>, at: nat, fixed: nat, copies: nat) -> bool {
    copies >= 1 && forall|line: Seq<char>| #[trigger] carries(template, line, at, fixed, copies)
}

/// Whether `template` references the prompt: every rendering carries its
/// line at one fixed offset, and at least once.
pub open spec fn references_prompt(template: Seq<char>) -> bool {
    exists|at: nat, fixed: nat, copies: nat| #[trigger] carries_every_line(template, at, fixed, copies)
}

/// A template that references the prompt renders different lines to
/// different prompts.
pub proof fn distinct_lines_render_apart(template: Seq<char>, a: Seq<char>, b: Seq<char>)
    requires
        references_prompt(template),
        a != b,
    ensures
        prompt_text(template, a) != prompt_text(template, b),
{
    let (at, fixed, copies): (nat, nat, nat) = choose|at: nat, fixed: nat, copies: nat| #[trigger]
        carries_every_line(template, at, fixed, copies);
    assert(carries(template, a, at, fixed, copies));
    assert(carries(template, b, at, fixed, copies));
    if prompt_text(template, a) == prompt_text(template, b) {
        let la = a.len() as int;
        let lb = b.len() as int;
        let k = copies as int;
        assert(k * la == k * lb);
        assert(la == lb) by (nonlinear_arith)
            requires
                k >= 1,
                k * la == k * lb,
        ;
        assert(a == b);
    }
}

/// Rendering depends on the template's text and the line alone: equal inputs
/// give equal prompts, however often and wherever they are rendered.
pub proof fn rendering_is_repeatable(first: PromptTemplate, second: PromptTemplate, a: Seq<char>, b: Seq<char>)
    requires
        first@ == second@,
        a == b,
    ensures
        prompt_text(first@, a) == prompt_text(second@, b),
{
}

/// A prompt template, kept as its text. The engine reads the text anew at
/// each rendering, so a template is never changed by being used.
pub struct PromptTemplate {
    source: String,
}

impl View for PromptTemplate {
    type V = Seq<char>;

    closed spec fn view(&self) -> Seq<char> {
        self.source@
    }
}

impl PromptTemplate {
    /// The template with the text `source`.
    pub fn new(source: String) -> (template: PromptTemplate)
        ensures
            template@ == source@,
    {
        PromptTemplate { source }
    }

    /// The template's text.
    pub fn source(&self) -> (text: &str)
        ensures
            text@ == self@,
    {
        self.source.as_str()
    }

    /// Renders the template with `line` bound to the variable `prompt`. The
    /// line goes in as it is, neither escaped nor shortened by this library.
    pub fn render(&self, line: &str) -> (prompt: String)
        ensures
            prompt@ == prompt_text(self@, line@),
    {
        expand(self.source.as_str(), "prompt", line)
    }
}

} // verus!
