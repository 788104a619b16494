//! The configuration wizard: three questions, each with a default, then
//! either the text of the configuration file or a refusal.
//!
//! The caller does the asking. It shows the prompt of the question that
//! [`Wizard::step`] returns, reads a line and hands it to
//! [`Wizard::answer`], which gives the next state, until the step is no
//! longer a question.

use crate::config::{config_text, render_config, AppConfig, AppConfigView, DEFAULT_REDIRECT_URI};
use vstd::prelude::*;
use vstd::string::{StrSliceExecFns, StringExecFns};

verus! {

/// Whether a character is white space in the sense of `char::is_whitespace`,
/// that is, whether it has the Unicode property `White_Space`.
pub uninterp spec fn is_white_space(c: char) -> bool;

/// The number of white-space characters at the start of a text.
pub open spec fn leading_space(s: Seq<char>) -> nat
    decreases s.len(),
{
    if s.len() > 0 && is_white_space(s.first()) {
        1 + leading_space(s.drop_first())
    } else {
        0
    }
}

/// The number of white-space characters at the end of a text.
pub open spec fn trailing_space(s: Seq<char>) -> nat
    decreases s.len(),
{
    if s.len() > 0 && is_white_space(s.last()) {
        1 + trailing_space(s.drop_last())
    } else {
        0
    }
}

/// A line without the white space at its start and at its end.
pub open spec fn trim_of(line: Seq<char>) -> Seq<char> {
    let rest = line.skip(leading_space(line) as int);
    rest.take(rest.len() - trailing_space(rest))
}

/// Trusted: `char::is_whitespace` depends on the character alone.
#[verifier::external_body]
pub(crate) fn is_space(c: char) -> (r: bool)
    ensures
        r == is_white_space(c),
{
    c.is_whitespace()
}

/// A copy of the line without the white space at its start and at its end.
pub fn trimmed(line: &str) -> (r: String)
    ensures
        r@ == trim_of(line@),
{
    let n = line.unicode_len();
    let mut start: usize = 0;
    assert(line@.skip(0) =~= line@);
    while start < n && is_space(line.get_char(start))
        invariant
            start <= n,
            n == line@.len(),
            leading_space(line@) == start + leading_space(line@.skip(start as int)),
        decreases n - start,
    {
        assert(line@.skip(start as int).drop_first() =~= line@.skip(start + 1));
        start += 1;
    }
    let ghost rest = line@.skip(start as int);
    let mut end: usize = n;
    assert(rest.take(n - start) =~= rest);
    while end > start && is_space(line.get_char(end - 1))
        invariant
            start <= end <= n,
            n == line@.len(),
            rest == line@.skip(start as int),
            trailing_space(rest) == (n - end) + trailing_space(rest.take(end - start)),
        decreases end,
    {
        assert(rest.take(end - start).drop_last() =~= rest.take(end - 1 - start));
        end -= 1;
    }
    assert(rest.take(end - start) =~= line@.subrange(start as int, end as int));
    line.substring_char(start, end).to_owned()
}

/// The view of an optional string slice.
pub open spec fn opt_view(t: Option<&str>) -> Option<Seq<char>> {
    match t {
        Some(s) => Some(s@),
        None => None,
    }
}

/// The prompt for a question: the label, the default in brackets if there
/// is one, then a colon and a space.
pub open spec fn prompt_of(label: Seq<char>, default: Option<Seq<char>>) -> Seq<char> {
    match default {
        Some(d) => label + " ["@ + d + "]: "@,
        None => label + ": "@,
    }
}

/// The answer that a trimmed line stands for: the line itself, or, where it
/// is empty, the default, or, where there is none, the empty text.
pub open spec fn resolved(trimmed: Seq<char>, default: Option<Seq<char>>) -> Seq<char> {
    if trimmed.len() > 0 {
        trimmed
    } else {
        match default {
            Some(d) => d,
            None => Seq::empty(),
        }
    }
}

/// The prompt to show for a question.
pub fn prompt_text(label: &str, default: Option<&str>) -> (r: String)
    ensures
        r@ == prompt_of(label@, opt_view(default)),
{
    let mut out = label.to_owned();
    match default {
        Some(d) => {
            out.append(" [");
            out.append(d);
            out.append("]: ");
        },
        None => {
            out.append(": ");
        },
    }
    out
}

/// The answer that an already trimmed line stands for.
pub fn resolve_answer(trimmed: String, default: Option<&str>) -> (r: String)
    ensures
        r@ == resolved(trimmed@, opt_view(default)),
{
    if !trimmed.as_str().is_empty() {
        trimmed
    } else {
        match default {
            Some(d) => d.to_owned(),
            None => String::new(),
        }
    }
}

/// The answer that a line, as it was read, stands for.
pub fn answer_line(line: &str, default: Option<&str>) -> (r: String)
    ensures
        r@ == resolved(trim_of(line@), opt_view(default)),
{
    resolve_answer(trimmed(line), default)
}

/// One question of the wizard.
#[derive(Clone, Debug, PartialEq, Eq)]
pub struct Question {
    pub label: String,
    pub default: Option<String>,
}

/// [`Question`] as a mathematical value.
pub struct QuestionView {
    pub label: Seq<char>,
    pub default: Option<Seq<char>>,
}

impl View for Question {
    type V = QuestionView;

    open spec fn view(&self) -> QuestionView {
        QuestionView { label: self.label@, default: self.default.deep_view() }
    }
}

/// What the wizard does next.
#[derive(Clone, Debug, PartialEq, Eq)]
pub enum WizardStep {
    /// Ask this question and hand the line read to [`Wizard::answer`].
    Ask(Question),
    /// Write this text to the configuration file.
    Save(String),
    /// Give up: the client id and the client secret are required.
    Refuse,
}

/// [`WizardStep`] as a mathematical value.
pub enum WizardStepView {
    Ask(QuestionView),
    Save(Seq<char>),
    Refuse,
}

impl View for WizardStep {
    type V = WizardStepView;

    open spec fn view(&self) -> WizardStepView {
        match self {
            WizardStep::Ask(q) => WizardStepView::Ask(q@),
            WizardStep::Save(text) => WizardStepView::Save(text@),
            WizardStep::Refuse => WizardStepView::Refuse,
        }
    }
}

/// The wizard's state: the defaults it started with and the answers given
/// so far, at most three.
pub struct Wizard {
    defaults: Vec<Option<String>>,
    answers: Vec<String>,
}

/// [`Wizard`] as a mathematical value.
pub struct WizardView {
    pub defaults: Seq<Option<Seq<char>>>,
    pub answers: Seq<Seq<char>>,
}

/// The number of questions.
pub open spec fn question_count() -> nat {
    3
}

/// The label of each question, in the order of asking.
pub open spec fn labels() -> Seq<Seq<char>> {
    seq!["Client ID"@, "Client secret"@, "Redirect URI"@]
}

/// A value of the existing configuration is offered as the default unless
/// it is empty.
pub open spec fn default_of(value: Seq<char>) -> Option<Seq<char>> {
    if value.len() > 0 {
        Some(value)
    } else {
        None
    }
}

/// The defaults of the three questions. The credentials default to those of
/// the existing configuration, where they are set. The redirect URI always
/// has a default: the existing one, or else the built-in one.
pub open spec fn defaults_for(existing: Option<AppConfigView>) -> Seq<Option<Seq<char>>> {
    match existing {
        Some(c) => seq![
            default_of(c.client_id),
            default_of(c.client_secret),
            Some(c.effective_redirect_uri()),
        ],
        None => seq![None, None, Some(DEFAULT_REDIRECT_URI@)],
    }
}

/// The view of an optional configuration.
pub open spec fn opt_config_view(existing: Option<AppConfig>) -> Option<AppConfigView> {
    match existing {
        Some(c) => Some(c@),
        None => None,
    }
}

impl WizardView {
    /// The step in this state. While answers are missing, the next question
    /// is asked. With all three given, the file is written if both
    /// credentials are set, and otherwise the wizard gives up.
    pub open spec fn step(self) -> WizardStepView {
        let n = self.answers.len() as int;
        if n < question_count() {
            WizardStepView::Ask(QuestionView { label: labels()[n], default: self.defaults[n] })
        } else if self.answers[0].len() == 0 || self.answers[1].len() == 0 {
            WizardStepView::Refuse
        } else {
            WizardStepView::Save(config_text(self.answers[0], self.answers[1], self.answers[2]))
        }
    }

    /// The state after `line` was read in answer to the current question.
    /// Once all questions are answered, further lines change nothing.
    pub open spec fn answered(self, line: Seq<char>) -> WizardView {
        let n = self.answers.len() as int;
        if n < question_count() {
            WizardView {
                defaults: self.defaults,
                answers: self.answers.push(resolved(trim_of(line), self.defaults[n])),
            }
        } else {
            self
        }
    }
}

impl View for Wizard {
    type V = WizardView;

    closed spec fn view(&self) -> WizardView {
        WizardView { defaults: self.defaults.deep_view(), answers: self.answers.deep_view() }
    }
}

fn default_from(value: &String) -> (r: Option<String>)
    ensures
        r.deep_view() == default_of(value@),
{
    if value.as_str().is_empty() {
        None
    } else {
        Some(value.clone())
    }
}

fn label_at(n: usize) -> (r: &'static str)
    requires
        n < question_count(),
    ensures
        r@ == labels()[n as int],
{
    if n == 0 {
        "Client ID"
    } else if n == 1 {
        "Client secret"
    } else {
        "Redirect URI"
    }
}

impl Wizard {
    #[verifier::type_invariant]
    spec fn well_formed(&self) -> bool {
        self.defaults@.len() == question_count() && self.answers@.len() <= question_count()
    }

    /// Starts the wizard. `existing` is the configuration that is already on
    /// file, if it could be read.
    pub fn start(existing: Option<AppConfig>) -> (r: Wizard)
        ensures
            r@.defaults == defaults_for(opt_config_view(existing)),
            r@.answers == Seq::<Seq<char>>::empty(),
    {
        let mut defaults: Vec<Option<String>> = Vec::new();
        match &existing {
            Some(c) => {
                defaults.push(default_from(&c.client_id));
                defaults.push(default_from(&c.client_secret));
                defaults.push(Some(c.effective_redirect_uri()));
            },
            None => {
                defaults.push(None);
                defaults.push(None);
                defaults.push(Some(DEFAULT_REDIRECT_URI.to_owned()));
            },
        }
        let r = Wizard { defaults, answers: Vec::new() };
        assert(r.defaults.deep_view() =~= defaults_for(opt_config_view(existing)));
        assert(r.answers.deep_view() =~= Seq::<Seq<char>>::empty());
        r
    }

    /// What to do next.
    pub fn step(&self) -> (r: WizardStep)
        ensures
            r@ == self@.step(),
    {
        proof {
            use_type_invariant(self);
        }
        let n = self.answers.len();
        if n < 3 {
            let default = match &self.defaults[n] {
                Some(d) => Some(d.clone()),
                None => None,
            };
            WizardStep::Ask(Question { label: label_at(n).to_owned(), default })
        } else if self.answers[0].as_str().is_empty() || self.answers[1].as_str().is_empty() {
            WizardStep::Refuse
        } else {
            WizardStep::Save(
                render_config(
                    self.answers[0].as_str(),
                    self.answers[1].as_str(),
                    self.answers[2].as_str(),
                ),
            )
        }
    }

    /// Takes the line that was read in answer to the current question and
    /// gives the wizard's next state.
    pub fn answer(self, line: &str) -> (r: Wizard)
        ensures
            r@ == self@.answered(line@),
    {
        proof {
            use_type_invariant(&self);
        }
        let n = self.answers.len();
        if n < 3 {
            let ghost before = self.answers.deep_view();
            let given = match &self.defaults[n] {
                Some(d) => answer_line(line, Some(d.as_str())),
                None => answer_line(line, None),
            };
            let Wizard { defaults, answers } = self;
            let mut answers = answers;
            answers.push(given);
            assert(answers.deep_view() =~= before.push(
                resolved(trim_of(line@), defaults.deep_view()[n as int]),
            ));
            Wizard { defaults, answers }
        } else {
            self
        }
    }
}

/// The wizard asks exactly three questions. Whatever configuration it
/// starts from and whatever lines are read, it asks after none, one and two
/// answers, and after the third it asks no more: it refuses if the answer
/// for the client id or the client secret is empty, and otherwise it saves
/// the file that holds the three answers.
pub proof fn wizard_finishes_after_three_answers(
    existing: Option<AppConfigView>,
    first: Seq<char>,
    second: Seq<char>,
    third: Seq<char>,
)
    ensures
        ({
            let defaults = defaults_for(existing);
            let start = WizardView { defaults, answers: Seq::empty() };
            let id = resolved(trim_of(first), defaults[0]);
            let secret = resolved(trim_of(second), defaults[1]);
            let redirect = resolved(trim_of(third), defaults[2]);
            let end = start.answered(first).answered(second).answered(third);
            &&& start.step() is Ask
            &&& start.answered(first).step() is Ask
            &&& start.answered(first).answered(second).step() is Ask
            &&& end.answers == seq![id, secret, redirect]
            &&& end.step() == if id.len() == 0 || secret.len() == 0 {
                WizardStepView::Refuse
            } else {
                WizardStepView::Save(config_text(id, secret, redirect))
            }
        }),
{
    let defaults = defaults_for(existing);
    let start = WizardView { defaults, answers: Seq::empty() };
    let end = start.answered(first).answered(second).answered(third);
    assert(end.answers =~= seq![
        resolved(trim_of(first), defaults[0]),
        resolved(trim_of(second), defaults[1]),
        resolved(trim_of(third), defaults[2]),
    ]);
}

} // verus!
