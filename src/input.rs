//! The beam configuration: required geometry, optional spacing and cover, the
//! rebar counts and the layer names.
//!
//! Lengths are in millimetres and are held as the bit pattern of an IEEE 754
//! binary64 number (`f64::to_bits`); the library only checks their presence and
//! substitutes defaults, it never does arithmetic on them.
use vstd::prelude::*;
use crate::error::{InputError, RequiredField};
use crate::layer::{LayerName, DEFAULT_CONCRETE_LAYER, DEFAULT_REBAR_LAYER};
use crate::rebar::NumRebar;

verus! {

/// The gap between adjacent bars when none is given: 80.0 as binary64 bits.
pub const DEFAULT_GAP_BETWEEN_REBAR: u64 = 0x4054_0000_0000_0000;

/// The cover depth when none is given: 70.0 as binary64 bits.
pub const DEFAULT_COVER_DEPTH: u64 = 0x4051_8000_0000_0000;

/// A length as written in the document, resolved: the given value, or the
/// fallback.
pub open spec fn length_or(v: Option<u64>, fallback: u64) -> u64 {
    match v {
        Some(x) => x,
        None => fallback,
    }
}

/// A document's values before the required keys are checked: every key that
/// the document leaves out is `None`.
#[derive(Clone, Debug, PartialEq, Eq, Default)]
pub struct RawInput {
    pub beam_height: Option<u64>,
    pub beam_width: Option<u64>,
    pub rebar_diameter: Option<u64>,
    pub gap_between_rebar: Option<u64>,
    pub cover_depth: Option<u64>,
    pub num_rebar: Option<NumRebar>,
    pub layer_name: Option<LayerName>,
}

/// A loaded configuration: the required keys are present, the optional ones
/// are kept as given and resolved when read.
#[derive(Clone, Debug, PartialEq, Eq)]
pub struct TomlInput {
    pub beam_height: u64,
    pub beam_width: u64,
    pub rebar_diameter: u64,
    pub gap_between_rebar: Option<u64>,
    pub cover_depth: Option<u64>,
    pub num_rebar: NumRebar,
    pub layer_name: Option<LayerName>,
}

/// The first required key, in document order, that `raw` leaves out.
pub open spec fn first_missing(raw: RawInput) -> Option<RequiredField> {
    if raw.beam_height is None {
        Some(RequiredField::BeamHeight)
    } else if raw.beam_width is None {
        Some(RequiredField::BeamWidth)
    } else if raw.rebar_diameter is None {
        Some(RequiredField::RebarDiameter)
    } else if raw.num_rebar is None {
        Some(RequiredField::NumRebar)
    } else {
        None
    }
}

/// What loading `raw` gives: the first missing required key as an error, or a
/// configuration that holds every value of `raw` unchanged.
pub open spec fn spec_from_raw(raw: RawInput) -> Result<TomlInput, InputError> {
    match first_missing(raw) {
        Some(f) => Err(InputError::MissingField(f)),
        None => Ok(
            TomlInput {
                beam_height: raw.beam_height->0,
                beam_width: raw.beam_width->0,
                rebar_diameter: raw.rebar_diameter->0,
                gap_between_rebar: raw.gap_between_rebar,
                cover_depth: raw.cover_depth,
                num_rebar: raw.num_rebar->0,
                layer_name: raw.layer_name,
            },
        ),
    }
}

impl TomlInput {
    pub open spec fn spec_gap_between_rebar(&self) -> u64 {
        length_or(self.gap_between_rebar, DEFAULT_GAP_BETWEEN_REBAR)
    }

    pub open spec fn spec_cover_depth(&self) -> u64 {
        length_or(self.cover_depth, DEFAULT_COVER_DEPTH)
    }

    pub open spec fn spec_layer_name(&self) -> LayerName {
        match self.layer_name {
            Some(l) => l,
            None => LayerName::spec_unset(),
        }
    }

    /// Checks that `raw` holds every required key and keeps its values.
    pub fn from_raw(raw: RawInput) -> (r: Result<TomlInput, InputError>)
        ensures
            r == spec_from_raw(raw),
    {
        let beam_height = match raw.beam_height {
            Some(v) => v,
            None => return Err(InputError::MissingField(RequiredField::BeamHeight)),
        };
        let beam_width = match raw.beam_width {
            Some(v) => v,
            None => return Err(InputError::MissingField(RequiredField::BeamWidth)),
        };
        let rebar_diameter = match raw.rebar_diameter {
            Some(v) => v,
            None => return Err(InputError::MissingField(RequiredField::RebarDiameter)),
        };
        let num_rebar = match raw.num_rebar {
            Some(n) => n,
            None => return Err(InputError::MissingField(RequiredField::NumRebar)),
        };
        Ok(
            TomlInput {
                beam_height,
                beam_width,
                rebar_diameter,
                gap_between_rebar: raw.gap_between_rebar,
                cover_depth: raw.cover_depth,
                num_rebar,
                layer_name: raw.layer_name,
            },
        )
    }

    /// Overall height of the section.
    pub fn beam_height(&self) -> (r: u64)
        ensures
            r == self.beam_height,
    {
        self.beam_height
    }

    /// Overall width of the section.
    pub fn beam_width(&self) -> (r: u64)
        ensures
            r == self.beam_width,
    {
        self.beam_width
    }

    /// Diameter of the bars.
    pub fn rebar_diameter(&self) -> (r: u64)
        ensures
            r == self.rebar_diameter,
    {
        self.rebar_diameter
    }

    /// Clear gap between adjacent bars: as given, or 80.0.
    pub fn gap_between_rebar(&self) -> (r: u64)
        ensures
            r == self.spec_gap_between_rebar(),
    {
        self.gap_between_rebar.unwrap_or(DEFAULT_GAP_BETWEEN_REBAR)
    }

    /// Distance from the concrete surface to the nearest bar: as given, or 70.0.
    pub fn cover_depth(&self) -> (r: u64)
        ensures
            r == self.spec_cover_depth(),
    {
        self.cover_depth.unwrap_or(DEFAULT_COVER_DEPTH)
    }

    /// The rebar counts, each resolved when read.
    pub fn num_rebar(&self) -> (r: NumRebar)
        ensures
            r == self.num_rebar,
    {
        self.num_rebar
    }

    /// The layer names as given, or a table with neither name set when the
    /// document has no `layer_name` table.
    pub fn layer_name(&self) -> (r: LayerName)
        ensures
            r == self.spec_layer_name(),
    {
        match &self.layer_name {
            Some(l) => l.duplicate(),
            None => LayerName::unset(),
        }
    }
}

/// A required key is missing exactly when loading fails, and the error names a
/// key that is missing; nothing else makes loading fail.
pub proof fn lemma_required_keys(raw: RawInput)
    ensures
        spec_from_raw(raw) is Err <==> (raw.beam_height is None || raw.beam_width is None
            || raw.rebar_diameter is None || raw.num_rebar is None),
        raw.beam_height is None ==> spec_from_raw(raw) == Err::<TomlInput, InputError>(
            InputError::MissingField(RequiredField::BeamHeight),
        ),
        spec_from_raw(raw) matches Err(e) ==> e matches InputError::MissingField(f) && match f {
            RequiredField::BeamHeight => raw.beam_height is None,
            RequiredField::BeamWidth => raw.beam_width is None,
            RequiredField::RebarDiameter => raw.rebar_diameter is None,
            RequiredField::NumRebar => raw.num_rebar is None,
        },
{
}

/// Every optional number resolves to its default when its key is left out, and
/// to the given value, unchanged, when it is present, even where that value
/// equals the default.
pub proof fn lemma_optional_numbers_resolve(raw: RawInput)
    ensures
        spec_from_raw(raw) matches Ok(t) ==> {
            &&& raw.gap_between_rebar is None ==> t.spec_gap_between_rebar()
                == DEFAULT_GAP_BETWEEN_REBAR
            &&& raw.gap_between_rebar matches Some(v) ==> t.spec_gap_between_rebar() == v
            &&& raw.cover_depth is None ==> t.spec_cover_depth() == DEFAULT_COVER_DEPTH
            &&& raw.cover_depth matches Some(v) ==> t.spec_cover_depth() == v
            &&& raw.num_rebar->0.top_1 is None ==> t.num_rebar.spec_top_1() == 0
            &&& raw.num_rebar->0.top_1 matches Some(v) ==> t.num_rebar.spec_top_1() == v
            &&& raw.num_rebar->0.top_2 is None ==> t.num_rebar.spec_top_2() == 0
            &&& raw.num_rebar->0.top_2 matches Some(v) ==> t.num_rebar.spec_top_2() == v
            &&& raw.num_rebar->0.top_3 is None ==> t.num_rebar.spec_top_3() == 0
            &&& raw.num_rebar->0.top_3 matches Some(v) ==> t.num_rebar.spec_top_3() == v
            &&& raw.num_rebar->0.bottom_1 is None ==> t.num_rebar.spec_bottom_1() == 0
            &&& raw.num_rebar->0.bottom_1 matches Some(v) ==> t.num_rebar.spec_bottom_1() == v
            &&& raw.num_rebar->0.bottom_2 is None ==> t.num_rebar.spec_bottom_2() == 0
            &&& raw.num_rebar->0.bottom_2 matches Some(v) ==> t.num_rebar.spec_bottom_2() == v
            &&& raw.num_rebar->0.bottom_3 is None ==> t.num_rebar.spec_bottom_3() == 0
            &&& raw.num_rebar->0.bottom_3 matches Some(v) ==> t.num_rebar.spec_bottom_3() == v
        },
{
}

/// Leaving out the `layer_name` table resolves exactly as an empty one does:
/// both names fall back to their defaults.
pub proof fn lemma_absent_layer_table_is_empty_table(t: TomlInput, u: TomlInput)
    requires
        t.layer_name is None,
        u.layer_name == Some(LayerName::spec_unset()),
    ensures
        t.spec_layer_name() == u.spec_layer_name(),
        t.spec_layer_name().spec_concrete() == DEFAULT_CONCRETE_LAYER@,
        t.spec_layer_name().spec_rebar() == DEFAULT_REBAR_LAYER@,
{
}

/// Resolution is a function of the configuration alone: resolving equal
/// configurations, or one configuration again, gives the same values.
pub proof fn lemma_resolution_is_deterministic(t: TomlInput, u: TomlInput)
    requires
        t == u,
    ensures
        t.spec_gap_between_rebar() == u.spec_gap_between_rebar(),
        t.spec_cover_depth() == u.spec_cover_depth(),
        t.num_rebar.spec_top_1() == u.num_rebar.spec_top_1(),
        t.num_rebar.spec_top_2() == u.num_rebar.spec_top_2(),
        t.num_rebar.spec_top_3() == u.num_rebar.spec_top_3(),
        t.num_rebar.spec_bottom_1() == u.num_rebar.spec_bottom_1(),
        t.num_rebar.spec_bottom_2() == u.num_rebar.spec_bottom_2(),
        t.num_rebar.spec_bottom_3() == u.num_rebar.spec_bottom_3(),
        t.spec_layer_name().spec_concrete() == u.spec_layer_name().spec_concrete(),
        t.spec_layer_name().spec_rebar() == u.spec_layer_name().spec_rebar(),
{
}

} // verus!
