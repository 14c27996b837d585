//! The wizard itself: a state machine that consumes one answer line per
//! step and accumulates field definitions.
//!
//! Each state stands for the question the wizard is currently asking; an
//! accepted answer moves to the next question (appending a finished field
//! definition where the per-field questions end), a rejected answer leaves
//! the wizard unchanged and reports the error message to show before asking
//! the same question again.

use vstd::prelude::*;
use crate::fields::{FieldDescriptor, FieldKind, FieldModel, wf_field};
use crate::validate::{is_valid_field_name, option_norm, valid_field_name, validate_option};

verus! {

/// The question the wizard is currently asking. States carry the answers
/// already given for the field under construction.
pub enum PromptStep {
    FieldName,
    FieldType { name: String },
    TextStored { name: String },
    TextIndexed { name: String, stored: bool },
    TextTokenized { name: String, stored: bool },
    TextFrequencies { name: String, stored: bool },
    TextPositions { name: String, stored: bool },
    IntStored { name: String },
    IntFast { name: String, stored: bool },
    IntIndexed { name: String, stored: bool, fast: bool },
    AddAnother,
    Finished,
}

/// The mathematical model of a [`PromptStep`], with names as character
/// sequences.
#[verifier::ext_equal]
pub enum StepModel {
    FieldName,
    FieldType { name: Seq<char> },
    TextStored { name: Seq<char> },
    TextIndexed { name: Seq<char>, stored: bool },
    TextTokenized { name: Seq<char>, stored: bool },
    TextFrequencies { name: Seq<char>, stored: bool },
    TextPositions { name: Seq<char>, stored: bool },
    IntStored { name: Seq<char> },
    IntFast { name: Seq<char>, stored: bool },
    IntIndexed { name: Seq<char>, stored: bool, fast: bool },
    AddAnother,
    Finished,
}

impl View for PromptStep {
    type V = StepModel;

    open spec fn view(&self) -> StepModel {
        match self {
            PromptStep::FieldName => StepModel::FieldName,
            PromptStep::FieldType { name } => StepModel::FieldType { name: name@ },
            PromptStep::TextStored { name } => StepModel::TextStored { name: name@ },
            PromptStep::TextIndexed { name, stored } => StepModel::TextIndexed {
                name: name@,
                stored: *stored,
            },
            PromptStep::TextTokenized { name, stored } => StepModel::TextTokenized {
                name: name@,
                stored: *stored,
            },
            PromptStep::TextFrequencies { name, stored } => StepModel::TextFrequencies {
                name: name@,
                stored: *stored,
            },
            PromptStep::TextPositions { name, stored } => StepModel::TextPositions {
                name: name@,
                stored: *stored,
            },
            PromptStep::IntStored { name } => StepModel::IntStored { name: name@ },
            PromptStep::IntFast { name, stored } => StepModel::IntFast {
                name: name@,
                stored: *stored,
            },
            PromptStep::IntIndexed { name, stored, fast } => StepModel::IntIndexed {
                name: name@,
                stored: *stored,
                fast: *fast,
            },
            PromptStep::AddAnother => StepModel::AddAnother,
            PromptStep::Finished => StepModel::Finished,
        }
    }
}

/// The wizard: the question it is asking and the fields collected so far.
pub struct Wizard {
    pub state: PromptStep,
    pub fields: Vec<FieldDescriptor>,
}

/// The mathematical model of a [`Wizard`].
#[verifier::ext_equal]
pub struct WizardModel {
    pub step: StepModel,
    pub fields: Seq<FieldModel>,
}

impl View for Wizard {
    type V = WizardModel;

    open spec fn view(&self) -> WizardModel {
        WizardModel {
            step: self.state@,
            fields: self.fields@.map_values(|d: FieldDescriptor| d@),
        }
    }
}

/// Whether the validator of the question `s` accepts the answer `line`:
/// the field-name pattern for the name question, a single-character option
/// code (case-insensitive) everywhere else. The finished wizard asks
/// nothing and accepts nothing.
pub open spec fn step_accepts(s: StepModel, line: Seq<char>) -> bool {
    match s {
        StepModel::FieldName => valid_field_name(line),
        StepModel::FieldType { .. } => option_norm(line, seq!['T', 'I']) is Some,
        StepModel::Finished => false,
        _ => option_norm(line, seq!['Y', 'N']) is Some,
    }
}

/// Whether an accepted yes/no answer means yes: the normalized code is `Y`.
pub open spec fn yes(line: Seq<char>) -> bool {
    option_norm(line, seq!['Y', 'N']) == Some('Y')
}

/// The text-field definition completed by the indexing question chain.
pub open spec fn text_field(
    name: Seq<char>,
    stored: bool,
    indexed: bool,
    tokenized: bool,
    frequencies: bool,
    positions: bool,
) -> FieldModel {
    FieldModel {
        name,
        stored,
        indexed,
        kind: FieldKind::Text { tokenized, frequencies, positions },
    }
}

/// The unsigned-integer field definition completed by its three questions.
pub open spec fn int_field(name: Seq<char>, stored: bool, fast: bool, indexed: bool) -> FieldModel {
    FieldModel { name, stored, indexed, kind: FieldKind::UnsignedInteger { fast } }
}

/// The wizard's transition on one answer line: the decision table of the
/// whole dialogue. A rejected answer leaves the wizard unchanged; an
/// accepted one moves to the next question, appending the completed field
/// where a per-field question chain ends. The nesting of the text questions
/// makes each deeper option depend on a "yes" to the previous one; the
/// integer questions are independent.
pub open spec fn wizard_next(w: WizardModel, line: Seq<char>) -> WizardModel {
    if !step_accepts(w.step, line) {
        w
    } else {
        match w.step {
            StepModel::FieldName => WizardModel { step: StepModel::FieldType { name: line }, ..w },
            StepModel::FieldType { name } => {
                if option_norm(line, seq!['T', 'I']) == Some('T') {
                    WizardModel { step: StepModel::TextStored { name }, ..w }
                } else {
                    WizardModel { step: StepModel::IntStored { name }, ..w }
                }
            },
            StepModel::TextStored { name } => WizardModel {
                step: StepModel::TextIndexed { name, stored: yes(line) },
                ..w
            },
            StepModel::TextIndexed { name, stored } => {
                if yes(line) {
                    WizardModel { step: StepModel::TextTokenized { name, stored }, ..w }
                } else {
                    WizardModel {
                        step: StepModel::AddAnother,
                        fields: w.fields.push(text_field(name, stored, false, false, false, false)),
                    }
                }
            },
            StepModel::TextTokenized { name, stored } => {
                if yes(line) {
                    WizardModel { step: StepModel::TextFrequencies { name, stored }, ..w }
                } else {
                    WizardModel {
                        step: StepModel::AddAnother,
                        fields: w.fields.push(text_field(name, stored, true, false, false, false)),
                    }
                }
            },
            StepModel::TextFrequencies { name, stored } => {
                if yes(line) {
                    WizardModel { step: StepModel::TextPositions { name, stored }, ..w }
                } else {
                    WizardModel {
                        step: StepModel::AddAnother,
                        fields: w.fields.push(text_field(name, stored, true, true, false, false)),
                    }
                }
            },
            StepModel::TextPositions { name, stored } => WizardModel {
                step: StepModel::AddAnother,
                fields: w.fields.push(text_field(name, stored, true, true, true, yes(line))),
            },
            StepModel::IntStored { name } => WizardModel {
                step: StepModel::IntFast { name, stored: yes(line) },
                ..w
            },
            StepModel::IntFast { name, stored } => WizardModel {
                step: StepModel::IntIndexed { name, stored, fast: yes(line) },
                ..w
            },
            StepModel::IntIndexed { name, stored, fast } => WizardModel {
                step: StepModel::AddAnother,
                fields: w.fields.push(int_field(name, stored, fast, yes(line))),
            },
            StepModel::AddAnother => {
                if yes(line) {
                    WizardModel { step: StepModel::FieldName, ..w }
                } else {
                    WizardModel { step: StepModel::Finished, ..w }
                }
            },
            StepModel::Finished => w,
        }
    }
}

/// The error message the wizard reports when the answer to question `s`
/// is rejected.
pub open spec fn reject_message(s: StepModel) -> Seq<char> {
    match s {
        StepModel::FieldName => "Field name must match the pattern [_a-zA-Z0-9]+"@,
        StepModel::FieldType { .. } => "Invalid input. Options are (T/I)"@,
        _ => "Invalid input. Options are (Y/N)"@,
    }
}

/// The prompt text of question `s`, options included.
pub open spec fn prompt_text_of(s: StepModel) -> Seq<char> {
    match s {
        StepModel::FieldName => "New field name "@,
        StepModel::FieldType { .. } => "Text or unsigned 32-bit integer (T/I)"@,
        StepModel::TextStored { .. } => "Should the field be stored (Y/N)"@,
        StepModel::TextIndexed { .. } => "Should the field be indexed (Y/N)"@,
        StepModel::TextTokenized { .. } => "Should the term be tokenized? (Y/N)"@,
        StepModel::TextFrequencies { .. } => "Should the term frequencies (per doc) be in the index (Y/N)"@,
        StepModel::TextPositions { .. } => "Should the term positions (per doc) be in the index (Y/N)"@,
        StepModel::IntStored { .. } => "Should the field be stored (Y/N)"@,
        StepModel::IntFast { .. } => "Should the field be fast (Y/N)"@,
        StepModel::IntIndexed { .. } => "Should the field be indexed (Y/N)"@,
        StepModel::AddAnother => "Add another field (Y/N)"@,
        StepModel::Finished => ""@,
    }
}

impl Wizard {
    /// A fresh wizard: no fields yet, asking for the first field's name.
    pub fn new() -> (r: Wizard)
        ensures
            r@ == (WizardModel { step: StepModel::FieldName, fields: Seq::<FieldModel>::empty() }),
    {
        let w = Wizard { state: PromptStep::FieldName, fields: Vec::new() };
        proof {
            assert(w@ =~= WizardModel {
                step: StepModel::FieldName,
                fields: Seq::<FieldModel>::empty(),
            });
        }
        w
    }

    /// Whether the dialogue is over: the user declined to add another field.
    pub fn is_finished(&self) -> (r: bool)
        ensures
            r == (self@.step is Finished),
    {
        matches!(self.state, PromptStep::Finished)
    }

    /// The text of the question the wizard is asking.
    pub fn prompt_text(&self) -> (r: &'static str)
        ensures
            r@ == prompt_text_of(self@.step),
    {
        match &self.state {
            PromptStep::FieldName => "New field name ",
            PromptStep::FieldType { .. } => "Text or unsigned 32-bit integer (T/I)",
            PromptStep::TextStored { .. } => "Should the field be stored (Y/N)",
            PromptStep::TextIndexed { .. } => "Should the field be indexed (Y/N)",
            PromptStep::TextTokenized { .. } => "Should the term be tokenized? (Y/N)",
            PromptStep::TextFrequencies { .. } => "Should the term frequencies (per doc) be in the index (Y/N)",
            PromptStep::TextPositions { .. } => "Should the term positions (per doc) be in the index (Y/N)",
            PromptStep::IntStored { .. } => "Should the field be stored (Y/N)",
            PromptStep::IntFast { .. } => "Should the field be fast (Y/N)",
            PromptStep::IntIndexed { .. } => "Should the field be indexed (Y/N)",
            PromptStep::AddAnother => "Add another field (Y/N)",
            PromptStep::Finished => "",
        }
    }

    /// Feeds one answer line to the wizard. `Ok` when the answer was
    /// accepted and the wizard moved on as [`wizard_next`] says; `Err` with
    /// the message to display when it was rejected, the wizard unchanged.
    pub fn step(&mut self, line: &str) -> (r: Result<(), String>)
        requires
            !(old(self)@.step is Finished),
        ensures
            final(self)@ == wizard_next(old(self)@, line@),
            r is Ok <==> step_accepts(old(self)@.step, line@),
            r matches Err(m) ==> m@ == reject_message(old(self)@.step),
    {
        match &self.state {
            PromptStep::FieldName => {
                if is_valid_field_name(line) {
                    self.state = PromptStep::FieldType { name: line.to_owned() };
                    proof {
                        assert(self@ =~= wizard_next(old(self)@, line@));
                    }
                    Ok(())
                } else {
                    Err("Field name must match the pattern [_a-zA-Z0-9]+".to_owned())
                }
            },
            PromptStep::FieldType { name } => {
                let codes = vec!['T', 'I'];
                proof {
                    assert(codes@ =~= seq!['T', 'I']);
                }
                match validate_option(line, &codes) {
                    Some(c) => {
                        let name = name.clone();
                        if c == 'T' {
                            self.state = PromptStep::TextStored { name };
                        } else {
                            self.state = PromptStep::IntStored { name };
                        }
                        proof {
                            assert(self@ =~= wizard_next(old(self)@, line@));
                        }
                        Ok(())
                    },
                    None => Err("Invalid input. Options are (T/I)".to_owned()),
                }
            },
            PromptStep::TextStored { name } => {
                match self.yes_no(line) {
                    Some(stored) => {
                        let name = name.clone();
                        self.state = PromptStep::TextIndexed { name, stored };
                        proof {
                            assert(self@ =~= wizard_next(old(self)@, line@));
                        }
                        Ok(())
                    },
                    None => Err("Invalid input. Options are (Y/N)".to_owned()),
                }
            },
            _ => self.step_rest(line),
        }
    }

    /// Parses a yes/no answer: `Some(true)` for `Y`, `Some(false)` for `N`,
    /// `None` for anything else.
    fn yes_no(&self, line: &str) -> (r: Option<bool>)
        ensures
            r is Some <==> option_norm(line@, seq!['Y', 'N']) is Some,
            r matches Some(b) ==> b == yes(line@),
    {
        let codes = vec!['Y', 'N'];
        proof {
            assert(codes@ =~= seq!['Y', 'N']);
        }
        match validate_option(line, &codes) {
            Some(c) => Some(c == 'Y'),
            None => None,
        }
    }

    /// The remaining transitions of [`Wizard::step`]: the states whose
    /// question is a yes/no one and that may complete a field.
    fn step_rest(&mut self, line: &str) -> (r: Result<(), String>)
        requires
            !(old(self)@.step is FieldName),
            !(old(self)@.step is FieldType),
            !(old(self)@.step is TextStored),
            !(old(self)@.step is Finished),
        ensures
            final(self)@ == wizard_next(old(self)@, line@),
            r is Ok <==> step_accepts(old(self)@.step, line@),
            r matches Err(m) ==> m@ == reject_message(old(self)@.step),
    {
        let answer = match self.yes_no(line) {
            Some(b) => b,
            None => {
                return Err("Invalid input. Options are (Y/N)".to_owned());
            },
        };
        match &self.state {
            PromptStep::TextIndexed { name, stored } => {
                let name = name.clone();
                let stored = *stored;
                if answer {
                    self.state = PromptStep::TextTokenized { name, stored };
                } else {
                    self.fields.push(FieldDescriptor {
                        name,
                        stored,
                        indexed: false,
                        kind: FieldKind::Text {
                            tokenized: false,
                            frequencies: false,
                            positions: false,
                        },
                    });
                    self.state = PromptStep::AddAnother;
                }
            },
            PromptStep::TextTokenized { name, stored } => {
                let name = name.clone();
                let stored = *stored;
                if answer {
                    self.state = PromptStep::TextFrequencies { name, stored };
                } else {
                    self.fields.push(FieldDescriptor {
                        name,
                        stored,
                        indexed: true,
                        kind: FieldKind::Text {
                            tokenized: false,
                            frequencies: false,
                            positions: false,
                        },
                    });
                    self.state = PromptStep::AddAnother;
                }
            },
            PromptStep::TextFrequencies { name, stored } => {
                let name = name.clone();
                let stored = *stored;
                if answer {
                    self.state = PromptStep::TextPositions { name, stored };
                } else {
                    self.fields.push(FieldDescriptor {
                        name,
                        stored,
                        indexed: true,
                        kind: FieldKind::Text {
                            tokenized: true,
                            frequencies: false,
                            positions: false,
                        },
                    });
                    self.state = PromptStep::AddAnother;
                }
            },
            PromptStep::TextPositions { name, stored } => {
                let name = name.clone();
                let stored = *stored;
                self.fields.push(FieldDescriptor {
                    name,
                    stored,
                    indexed: true,
                    kind: FieldKind::Text { tokenized: true, frequencies: true, positions: answer },
                });
                self.state = PromptStep::AddAnother;
            },
            PromptStep::IntStored { name } => {
                let name = name.clone();
                self.state = PromptStep::IntFast { name, stored: answer };
            },
            PromptStep::IntFast { name, stored } => {
                let name = name.clone();
                let stored = *stored;
                self.state = PromptStep::IntIndexed { name, stored, fast: answer };
            },
            PromptStep::IntIndexed { name, stored, fast } => {
                let name = name.clone();
                let stored = *stored;
                let fast = *fast;
                self.fields.push(FieldDescriptor {
                    name,
                    stored,
                    indexed: answer,
                    kind: FieldKind::UnsignedInteger { fast },
                });
                self.state = PromptStep::AddAnother;
            },
            PromptStep::AddAnother => {
                if answer {
                    self.state = PromptStep::FieldName;
                } else {
                    self.state = PromptStep::Finished;
                }
            },
            _ => {
                proof {
                    assert(false);
                }
            },
        }
        proof {
            assert(self@ =~= wizard_next(old(self)@, line@));
        }
        Ok(())
    }
}

/// Law: a string that does not match `[_a-zA-Z0-9]+` (the empty string
/// included) is never accepted as a field name: the name question rejects
/// it and the wizard does not move past it.
pub proof fn lemma_invalid_name_never_accepted(w: WizardModel, line: Seq<char>)
    requires
        w.step is FieldName,
        !valid_field_name(line),
    ensures
        !step_accepts(w.step, line),
        wizard_next(w, line) == w,
{
}

/// Law: declining "Add another field" ends the dialogue at once, with
/// exactly the fields collected so far.
pub proof fn lemma_decline_add_another(w: WizardModel, line: Seq<char>)
    requires
        w.step is AddAnother,
        step_accepts(w.step, line),
        !yes(line),
    ensures
        wizard_next(w, line).step is Finished,
        wizard_next(w, line).fields == w.fields,
{
}

/// The model of a fresh wizard.
pub open spec fn initial_wizard() -> WizardModel {
    WizardModel { step: StepModel::FieldName, fields: Seq::<FieldModel>::empty() }
}

/// Where the wizard ends when fed the answer lines of `lines` in order,
/// starting from `w`: each line is one answer (a rejected one leaves the
/// wizard where it was, as [`wizard_next`] says), and the run stops when
/// the wizard is finished or the lines run out.
pub open spec fn wizard_run(w: WizardModel, lines: Seq<Seq<char>>) -> WizardModel
    decreases lines.len(),
{
    if w.step is Finished || lines.len() == 0 {
        w
    } else {
        wizard_run(wizard_next(w, lines[0]), lines.skip(1))
    }
}

/// Structural validity of a wizard: every collected field is well-formed,
/// and the name carried by the current question, if any, is a valid field
/// name.
pub open spec fn wf_wizard(w: WizardModel) -> bool {
    &&& forall|i: int| 0 <= i < w.fields.len() ==> wf_field(#[trigger] w.fields[i])
    &&& match w.step {
        StepModel::FieldName => true,
        StepModel::FieldType { name } => valid_field_name(name),
        StepModel::TextStored { name } => valid_field_name(name),
        StepModel::TextIndexed { name, .. } => valid_field_name(name),
        StepModel::TextTokenized { name, .. } => valid_field_name(name),
        StepModel::TextFrequencies { name, .. } => valid_field_name(name),
        StepModel::TextPositions { name, .. } => valid_field_name(name),
        StepModel::IntStored { name } => valid_field_name(name),
        StepModel::IntFast { name, .. } => valid_field_name(name),
        StepModel::IntIndexed { name, .. } => valid_field_name(name),
        StepModel::AddAnother => true,
        StepModel::Finished => true,
    }
}

/// One answer preserves the wizard's invariant, and builds the schema
/// append-only: the fields collected before the answer stand unchanged,
/// in their order, and at most one well-formed field is appended.
pub proof fn lemma_next_preserves(w: WizardModel, line: Seq<char>)
    requires
        wf_wizard(w),
    ensures
        wf_wizard(wizard_next(w, line)),
        wizard_next(w, line).fields.len() >= w.fields.len(),
        wizard_next(w, line).fields.len() <= w.fields.len() + 1,
        forall|i: int|
            0 <= i < w.fields.len() ==> #[trigger] wizard_next(w, line).fields[i] == w.fields[i],
{
}

/// A whole run preserves the wizard's invariant and is append-only: every
/// field collected at the start is still there, unchanged and in place, at
/// the end.
pub proof fn lemma_run_preserves(w: WizardModel, lines: Seq<Seq<char>>)
    requires
        wf_wizard(w),
    ensures
        wf_wizard(wizard_run(w, lines)),
        wizard_run(w, lines).fields.len() >= w.fields.len(),
        forall|i: int|
            0 <= i < w.fields.len() ==> #[trigger] wizard_run(w, lines).fields[i] == w.fields[i],
    decreases lines.len(),
{
    if !(w.step is Finished) && lines.len() > 0 {
        lemma_next_preserves(w, lines[0]);
        lemma_run_preserves(wizard_next(w, lines[0]), lines.skip(1));
    }
}

/// Runs the wizard over a scripted sequence of answer lines, as a test
/// harness or a non-interactive caller would. Returns the collected fields
/// when the script brings the dialogue to its end (a declined "add another
/// field"), `None` when the script runs out first. Every line is one
/// answer; a rejected line leaves the wizard where it was, so the next
/// line answers the same question.
pub fn run_wizard(lines: &Vec<String>) -> (r: Option<Vec<FieldDescriptor>>)
    ensures
        ({
            let end = wizard_run(initial_wizard(), lines@.map_values(|l: String| l@));
            &&& (r matches Some(fields) ==> end.step is Finished && fields@.map_values(
                |d: FieldDescriptor| d@,
            ) == end.fields)
            &&& (r is None ==> !(end.step is Finished))
            &&& (r matches Some(fields) ==> forall|i: int|
                0 <= i < fields@.len() ==> wf_field(#[trigger] fields@[i]@))
        }),
{
    let ghost script = lines@.map_values(|l: String| l@);
    let ghost end = wizard_run(initial_wizard(), script);
    let mut w = Wizard::new();
    let mut i: usize = 0;
    proof {
        assert(script.skip(0) =~= script);
    }
    while i < lines.len() && !w.is_finished()
        invariant
            0 <= i <= lines@.len(),
            script == lines@.map_values(|l: String| l@),
            end == wizard_run(initial_wizard(), script),
            wizard_run(w@, script.skip(i as int)) == end,
            wf_wizard(w@),
        decreases lines@.len() - i,
    {
        proof {
            assert(script[i as int] == lines@[i as int]@);
            lemma_next_preserves(w@, script[i as int]);
            assert(script.skip(i as int).skip(1) =~= script.skip(i as int + 1));
            assert(script.skip(i as int)[0] == script[i as int]);
        }
        let _ = w.step(lines[i].as_str());
        i += 1;
    }
    proof {
        if w@.step is Finished {
            assert(wizard_run(w@, script.skip(i as int)) == w@);
        } else {
            assert(i == lines@.len());
            assert(script.skip(i as int) =~= Seq::<Seq<char>>::empty());
            assert(wizard_run(w@, script.skip(i as int)) == w@);
        }
        assert(w@ == end);
    }
    if w.is_finished() {
        proof {
            assert(forall|j: int|
                0 <= j < w.fields@.len() ==> w.fields@.map_values(|d: FieldDescriptor| d@)[j]
                    == #[trigger] w.fields@[j]@);
        }
        Some(w.fields)
    } else {
        None
    }
}

} // verus!
