//! Reading a prompt line by line: the lines that end it, the model that an
//! ending line selects, and the prompts that ask to leave.

use vstd::prelude::*;
use vstd::string::StringExecFns;
use crate::text::{stripped, trim};

verus! {

/// A line that ends the prompt and selects a model for the turn.
#[derive(Debug)]
pub struct ModelSwitch {
    pub sentinel: String,
    pub model: String,
}

/// The mathematical value of a [`ModelSwitch`].
pub struct ModelSwitchView {
    pub sentinel: Seq<char>,
    pub model: Seq<char>,
}

impl View for ModelSwitch {
    type V = ModelSwitchView;

    open spec fn view(&self) -> ModelSwitchView {
        ModelSwitchView { sentinel: self.sentinel@, model: self.model@ }
    }
}

/// How prompts are read: which lines end a prompt, which model each of them
/// selects, and which prompt asks to leave.
#[derive(Debug)]
pub struct PromptRules {
    /// The model of a turn whose prompt selects no other.
    pub default_model: String,
    /// The line that ends a prompt and selects no model.
    pub terminator: String,
    /// The lines that end a prompt and select a model. Where two have the same
    /// sentinel, the earlier one counts.
    pub switches: Vec<ModelSwitch>,
    /// The prompt that asks to leave.
    pub exit_keyword: String,
}

/// The mathematical value of [`PromptRules`].
pub struct PromptRulesView {
    pub default_model: Seq<char>,
    pub terminator: Seq<char>,
    pub switches: Seq<ModelSwitchView>,
    pub exit_keyword: Seq<char>,
}

impl View for PromptRules {
    type V = PromptRulesView;

    open spec fn view(&self) -> PromptRulesView {
        PromptRulesView {
            default_model: self.default_model@,
            terminator: self.terminator@,
            switches: self.switches@.map_values(|s: ModelSwitch| s@),
            exit_keyword: self.exit_keyword@,
        }
    }
}

/// The rules that apply where nothing else is configured.
pub open spec fn standard_rules() -> PromptRulesView {
    PromptRulesView {
        default_model: "gpt-4o-mini"@,
        terminator: "///"@,
        switches: seq![
            ModelSwitchView { sentinel: "//3"@, model: "gpt-3.5-turbo"@ },
            ModelSwitchView { sentinel: "//4"@, model: "gpt-4o"@ },
        ],
        exit_keyword: "exit"@,
    }
}

/// The model of the first switch whose sentinel is `line`, if there is one.
pub open spec fn switched_model(switches: Seq<ModelSwitchView>, line: Seq<char>) -> Option<
    Seq<char>,
>
    decreases switches.len(),
{
    if switches.len() == 0 {
        None
    } else if switches[0].sentinel == line {
        Some(switches[0].model)
    } else {
        switched_model(switches.drop_first(), line)
    }
}

/// Whether `line` ends the prompt, and with which model: the model of a switch
/// with that sentinel, else the default model where the line is the
/// terminator. Any other line is part of the prompt.
pub open spec fn ending_of(rules: PromptRulesView, line: Seq<char>) -> Option<Seq<char>> {
    match switched_model(rules.switches, line) {
        Some(model) => Some(model),
        None => if line == rules.terminator {
            Some(rules.default_model)
        } else {
            None
        },
    }
}

/// Whether a prompt asks to leave: it is empty but for white space, or it is
/// the exit keyword with nothing but white space around it.
pub open spec fn asks_to_leave(rules: PromptRulesView, prompt: Seq<char>) -> bool {
    stripped(prompt).len() == 0 || stripped(prompt) == rules.exit_keyword
}

/// The characters of an optional text.
pub open spec fn text_view(text: Option<String>) -> Option<Seq<char>> {
    match text {
        Some(s) => Some(s@),
        None => None,
    }
}

impl PromptRules {
    /// Returns the rules that apply where nothing else is configured.
    pub fn standard() -> (rules: PromptRules)
        ensures
            rules@ == standard_rules(),
    {
        let mut switches: Vec<ModelSwitch> = Vec::new();
        switches.push(
            ModelSwitch {
                sentinel: String::from_str("//3"),
                model: String::from_str("gpt-3.5-turbo"),
            },
        );
        switches.push(
            ModelSwitch { sentinel: String::from_str("//4"), model: String::from_str("gpt-4o") },
        );
        let rules = PromptRules {
            default_model: String::from_str("gpt-4o-mini"),
            terminator: String::from_str("///"),
            switches,
            exit_keyword: String::from_str("exit"),
        };
        assert(rules@.switches =~= standard_rules().switches);
        rules
    }

    /// Says whether `line` ends the prompt, and if so with which model.
    pub fn ending(&self, line: &str) -> (model: Option<String>)
        ensures
            text_view(model) == ending_of(self@, line@),
    {
        let wanted = String::from_str(line);
        let ghost switches = self@.switches;
        let mut i: usize = 0;
        assert(switches.skip(0) =~= switches);
        while i < self.switches.len()
            invariant
                i <= self.switches.len(),
                switches == self@.switches,
                wanted@ == line@,
                switched_model(switches, line@) == switched_model(switches.skip(i as int), line@),
            decreases self.switches.len() - i,
        {
            proof {
                assert(switches.skip(i as int)[0] == self.switches[i as int]@);
                assert(switches.skip(i as int).drop_first() =~= switches.skip(i + 1));
            }
            if self.switches[i].sentinel == wanted {
                return Some(self.switches[i].model.clone());
            }
            i = i + 1;
        }
        if self.terminator == wanted {
            Some(self.default_model.clone())
        } else {
            None
        }
    }

    /// Says whether a prompt asks to leave.
    pub fn wants_exit(&self, prompt: &str) -> (leave: bool)
        ensures
            leave == asks_to_leave(self@, prompt@),
    {
        let inner = trim(prompt);
        inner.unicode_len() == 0 || String::from_str(inner) == self.exit_keyword
    }
}

/// A prompt as it was read: its text and the model that answers it.
#[derive(Debug)]
pub struct Prompt {
    pub text: String,
    pub model: String,
}

/// The mathematical value of a [`Prompt`].
pub struct PromptView {
    pub text: Seq<char>,
    pub model: Seq<char>,
}

impl View for Prompt {
    type V = PromptView;

    open spec fn view(&self) -> PromptView {
        PromptView { text: self.text@, model: self.model@ }
    }
}

/// The mathematical value of a [`PromptReader`]: the text read so far, and
/// the model that the ending line selected, once there was one.
pub struct PromptReaderView {
    pub text: Seq<char>,
    pub chosen: Option<Seq<char>>,
}

/// A reader that has read nothing.
pub open spec fn unread() -> PromptReaderView {
    PromptReaderView { text: Seq::empty(), chosen: None }
}

/// A reader after one more line. A line that ends the prompt fixes the model
/// and adds nothing to the text; any other line is added to the text, followed
/// by a line feed. Once the prompt has ended, further lines change nothing.
pub open spec fn fed(r: PromptReaderView, rules: PromptRulesView, line: Seq<char>) -> PromptReaderView {
    if r.chosen is Some {
        r
    } else {
        match ending_of(rules, line) {
            Some(model) => PromptReaderView { text: r.text, chosen: Some(model) },
            None => PromptReaderView { text: r.text + line + seq!['\n'], chosen: None },
        }
    }
}

/// A reader after all of `lines`, in order.
pub open spec fn gathered(rules: PromptRulesView, lines: Seq<Seq<char>>) -> PromptReaderView
    decreases lines.len(),
{
    if lines.len() == 0 {
        unread()
    } else {
        fed(gathered(rules, lines.drop_last()), rules, lines.last())
    }
}

/// The prompt that a reader holds: its text, and the chosen model or, where
/// the input ended before any ending line, the default model.
pub open spec fn prompt_of(r: PromptReaderView, rules: PromptRulesView) -> PromptView {
    PromptView {
        text: r.text,
        model: match r.chosen {
            Some(model) => model,
            None => rules.default_model,
        },
    }
}

/// The lines one after the other, each followed by a line feed.
pub open spec fn joined(lines: Seq<Seq<char>>) -> Seq<char>
    decreases lines.len(),
{
    if lines.len() == 0 {
        Seq::empty()
    } else {
        joined(lines.drop_last()) + lines.last() + seq!['\n']
    }
}

/// The characters of each of a sequence of lines.
pub open spec fn lines_view(lines: Seq<String>) -> Seq<Seq<char>> {
    lines.map_values(|s: String| s@)
}

/// Where no line ends the prompt, the reader holds all lines and has chosen
/// no model.
pub proof fn gathered_without_ending(rules: PromptRulesView, lines: Seq<Seq<char>>)
    requires
        forall|i: int| 0 <= i < lines.len() ==> ending_of(rules, #[trigger] lines[i]) is None,
    ensures
        gathered(rules, lines) == (PromptReaderView { text: joined(lines), chosen: None }),
    decreases lines.len(),
{
    if lines.len() > 0 {
        let before = lines.drop_last();
        assert forall|i: int| 0 <= i < before.len() implies ending_of(
            rules,
            #[trigger] before[i],
        ) is None by {
            assert(before[i] == lines[i]);
        }
        gathered_without_ending(rules, before);
    }
}

/// Reading stops at the first line that ends the prompt: the text is made of
/// the lines before it, the model is the one that it selects, and the lines
/// after it count for nothing.
pub proof fn gathered_stops_at_first_ending(
    rules: PromptRulesView,
    lines: Seq<Seq<char>>,
    k: int,
)
    requires
        0 <= k < lines.len(),
        forall|i: int| 0 <= i < k ==> ending_of(rules, #[trigger] lines[i]) is None,
        ending_of(rules, lines[k]) is Some,
    ensures
        gathered(rules, lines) == (PromptReaderView {
            text: joined(lines.take(k)),
            chosen: ending_of(rules, lines[k]),
        }),
    decreases lines.len(),
{
    let before = lines.drop_last();
    if k == lines.len() - 1 {
        assert(before =~= lines.take(k));
        assert forall|i: int| 0 <= i < before.len() implies ending_of(
            rules,
            #[trigger] before[i],
        ) is None by {
            assert(before[i] == lines[i]);
        }
        gathered_without_ending(rules, before);
    } else {
        assert(before[k] == lines[k]);
        assert forall|i: int| 0 <= i < k implies ending_of(rules, #[trigger] before[i]) is None by {
            assert(before[i] == lines[i]);
        }
        gathered_stops_at_first_ending(rules, before, k);
        assert(before.take(k) =~= lines.take(k));
    }
}

/// Reads a prompt one line at a time.
#[derive(Debug)]
pub struct PromptReader {
    text: String,
    chosen: Option<String>,
}

impl View for PromptReader {
    type V = PromptReaderView;

    closed spec fn view(&self) -> PromptReaderView {
        PromptReaderView { text: self.text@, chosen: text_view(self.chosen) }
    }
}

impl PromptReader {
    /// Creates a reader that has read nothing.
    pub fn new() -> (reader: PromptReader)
        ensures
            reader@ == unread(),
    {
        PromptReader { text: String::new(), chosen: None }
    }

    /// Whether a line has ended the prompt.
    pub fn is_done(&self) -> (done: bool)
        ensures
            done == self@.chosen is Some,
    {
        self.chosen.is_some()
    }

    /// Takes one more line in, without its line ending, and says whether the
    /// prompt has ended.
    pub fn feed(&mut self, rules: &PromptRules, line: &str) -> (done: bool)
        ensures
            final(self)@ == fed(old(self)@, rules@, line@),
            done == final(self)@.chosen is Some,
    {
        if self.chosen.is_some() {
            return true;
        }
        match rules.ending(line) {
            Some(model) => {
                self.chosen = Some(model);
                true
            },
            None => {
                proof {
                    reveal_strlit("\n");
                    assert("\n"@ =~= seq!['\n']);
                }
                self.text.append(line);
                self.text.append("\n");
                false
            },
        }
    }

    /// Gives the prompt that was read.
    pub fn finish(self, rules: &PromptRules) -> (prompt: Prompt)
        ensures
            prompt@ == prompt_of(self@, rules@),
    {
        let model = match self.chosen {
            Some(model) => model,
            None => rules.default_model.clone(),
        };
        Prompt { text: self.text, model }
    }
}

/// Reads a prompt from lines that are all at hand, each without its line
/// ending.
pub fn gather(rules: &PromptRules, lines: &Vec<String>) -> (prompt: Prompt)
    ensures
        prompt@ == prompt_of(gathered(rules@, lines_view(lines@)), rules@),
{
    let mut reader = PromptReader::new();
    let mut i: usize = 0;
    while i < lines.len()
        invariant
            i <= lines.len(),
            reader@ == gathered(rules@, lines_view(lines@).take(i as int)),
        decreases lines.len() - i,
    {
        proof {
            let upto = lines_view(lines@).take(i + 1);
            assert(upto.drop_last() =~= lines_view(lines@).take(i as int));
            assert(upto.last() == lines[i as int]@);
        }
        reader.feed(rules, lines[i].as_str());
        i = i + 1;
    }
    assert(lines_view(lines@).take(i as int) =~= lines_view(lines@));
    reader.finish(rules)
}

} // verus!
