//! Why a beam configuration could not be loaded.
use vstd::prelude::*;
use vstd::string::*;

verus! {

/// A key that the document must hold.
#[derive(Clone, Copy, Debug, PartialEq, Eq, Structural)]
pub enum RequiredField {
    BeamHeight,
    BeamWidth,
    RebarDiameter,
    NumRebar,
}

/// The key of a required field, as written in the document.
pub open spec fn key_of(f: RequiredField) -> Seq<char> {
    match f {
        RequiredField::BeamHeight => "beam_height"@,
        RequiredField::BeamWidth => "beam_width"@,
        RequiredField::RebarDiameter => "rebar_diameter"@,
        RequiredField::NumRebar => "num_rebar"@,
    }
}

impl RequiredField {
    /// The key of this field, as written in the document.
    pub fn key(&self) -> (r: &'static str)
        ensures
            r@ == key_of(*self),
    {
        match self {
            RequiredField::BeamHeight => "beam_height",
            RequiredField::BeamWidth => "beam_width",
            RequiredField::RebarDiameter => "rebar_diameter",
            RequiredField::NumRebar => "num_rebar",
        }
    }
}

/// A failure to load a configuration.
#[derive(Clone, Debug, PartialEq, Eq)]
pub enum InputError {
    /// The file could not be opened or read; holds the system's description.
    Io(String),
    /// The text is not a well-formed document of the expected shape (bad
    /// syntax, a value of the wrong type); holds the parser's description.
    Parse(String),
    /// The document is well formed but leaves out a required key.
    MissingField(RequiredField),
}

pub open spec fn missing_field_message(f: RequiredField) -> Seq<char> {
    "missing field "@ + key_of(f)
}

impl InputError {
    /// Whether the document itself is at fault, rather than reading it.
    pub fn is_parse_error(&self) -> (r: bool)
        ensures
            r == !(self is Io),
    {
        match self {
            InputError::Io(_) => false,
            _ => true,
        }
    }

    /// A description for a person to read.
    pub fn message(&self) -> (r: String)
        ensures
            self is Io ==> r@ == self->Io_0@,
            self is Parse ==> r@ == self->Parse_0@,
            self is MissingField ==> r@ == missing_field_message(self->MissingField_0),
    {
        match self {
            InputError::Io(m) => m.clone(),
            InputError::Parse(m) => m.clone(),
            InputError::MissingField(f) => String::from_str("missing field ").concat(f.key()),
        }
    }
}

} // verus!
