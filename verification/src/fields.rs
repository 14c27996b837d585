//! Field descriptors: one field's name, kind, and storage/indexing options,
//! together with their well-formedness conditions.

use vstd::prelude::*;
use crate::validate::valid_field_name;

verus! {

/// The kind of a field, with the options that apply to that kind only.
///
/// For a text field, `tokenized`, `frequencies` and `positions` refine what
/// an indexed field records; they are meaningful only on an indexed field,
/// and each implies the one before it (see [`wf_field`]).
/// For an unsigned-integer field, `fast` asks for a random-access column.
#[derive(Clone, Copy, PartialEq, Eq, Structural, Debug)]
pub enum FieldKind {
    Text { tokenized: bool, frequencies: bool, positions: bool },
    UnsignedInteger { fast: bool },
}

/// One collected field definition.
pub struct FieldDescriptor {
    pub name: String,
    pub stored: bool,
    pub indexed: bool,
    pub kind: FieldKind,
}

/// The mathematical model of a [`FieldDescriptor`]: the name as a character
/// sequence, the flags as they are.
#[verifier::ext_equal]
pub struct FieldModel {
    pub name: Seq<char>,
    pub stored: bool,
    pub indexed: bool,
    pub kind: FieldKind,
}

impl View for FieldDescriptor {
    type V = FieldModel;

    open spec fn view(&self) -> FieldModel {
        FieldModel { name: self.name@, stored: self.stored, indexed: self.indexed, kind: self.kind }
    }
}

/// Structural validity of a collected field: the name matches
/// `[_a-zA-Z0-9]+`, and the text options respect the dependency chain
/// positions ==> frequencies ==> tokenized ==> indexed that the nesting of
/// the prompts encodes.
pub open spec fn wf_field(f: FieldModel) -> bool {
    &&& valid_field_name(f.name)
    &&& match f.kind {
        FieldKind::Text { tokenized, frequencies, positions } => {
            &&& tokenized ==> f.indexed
            &&& frequencies ==> tokenized
            &&& positions ==> frequencies
        },
        FieldKind::UnsignedInteger { fast: _ } => true,
    }
}

/// How much an indexed text field records about each term.
#[derive(Clone, Copy, PartialEq, Eq, Structural, Debug)]
pub enum RecordChoice {
    Basic,
    WithFreqs,
    WithFreqsAndPositions,
}

/// The record choice a field's flags select: the deepest "yes" in the
/// frequencies/positions chain picks the richest option. `None` for a field
/// that is not an indexed text field.
pub open spec fn record_choice_of(f: FieldModel) -> Option<RecordChoice> {
    match f.kind {
        FieldKind::Text { tokenized: _, frequencies, positions } => {
            if !f.indexed {
                None
            } else if positions {
                Some(RecordChoice::WithFreqsAndPositions)
            } else if frequencies {
                Some(RecordChoice::WithFreqs)
            } else {
                Some(RecordChoice::Basic)
            }
        },
        FieldKind::UnsignedInteger { fast: _ } => None,
    }
}

/// The fixed name under which the word-segmentation tokenizer for text
/// fields is registered; no alternative is selectable through the wizard.
pub fn tokenizer_name() -> (r: &'static str)
    ensures
        r@ == "CANG_JIE"@,
{
    "CANG_JIE"
}

impl FieldDescriptor {
    /// The record choice for this field: `Some` exactly for indexed text
    /// fields, richest option first in the positions/frequencies chain.
    pub fn record_choice(&self) -> (r: Option<RecordChoice>)
        ensures
            r == record_choice_of(self@),
    {
        match self.kind {
            FieldKind::Text { tokenized: _, frequencies, positions } => {
                if !self.indexed {
                    None
                } else if positions {
                    Some(RecordChoice::WithFreqsAndPositions)
                } else if frequencies {
                    Some(RecordChoice::WithFreqs)
                } else {
                    Some(RecordChoice::Basic)
                }
            },
            FieldKind::UnsignedInteger { fast: _ } => None,
        }
    }

    /// The tokenizer an indexed text field uses: always the fixed
    /// word-segmentation tokenizer; `None` for every other field.
    pub fn tokenizer(&self) -> (r: Option<&'static str>)
        ensures
            match r {
                Some(t) => record_choice_of(self@) is Some && t@ == "CANG_JIE"@,
                None => record_choice_of(self@) is None,
            },
    {
        match self.record_choice() {
            Some(_) => Some(tokenizer_name()),
            None => None,
        }
    }
}

} // verus!
