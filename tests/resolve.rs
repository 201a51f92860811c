use beam_config::input::{DEFAULT_COVER_DEPTH, DEFAULT_GAP_BETWEEN_REBAR};
use beam_config::layer::{DEFAULT_CONCRETE_LAYER, DEFAULT_REBAR_LAYER};
use beam_config::{InputError, LayerName, NumRebar, RawInput, RequiredField, TomlInput};

fn bits(x: f64) -> u64 {
    x.to_bits()
}

fn no_counts() -> NumRebar {
    NumRebar {
        top_1: None,
        top_2: None,
        top_3: None,
        bottom_1: None,
        bottom_2: None,
        bottom_3: None,
    }
}

fn minimal_raw() -> RawInput {
    RawInput {
        beam_height: Some(bits(600.0)),
        beam_width: Some(bits(300.0)),
        rebar_diameter: Some(bits(19.0)),
        gap_between_rebar: None,
        cover_depth: None,
        num_rebar: Some(no_counts()),
        layer_name: None,
    }
}

fn load(raw: RawInput) -> TomlInput {
    TomlInput::from_raw(raw).expect("all required keys are present")
}

fn counts(n: &NumRebar) -> [u32; 6] {
    [n.top_1(), n.top_2(), n.top_3(), n.bottom_1(), n.bottom_2(), n.bottom_3()]
}

#[test]
fn minimal_document_resolves_every_default() {
    let t = load(minimal_raw());
    assert_eq!(f64::from_bits(t.beam_height()), 600.0);
    assert_eq!(f64::from_bits(t.beam_width()), 300.0);
    assert_eq!(f64::from_bits(t.rebar_diameter()), 19.0);
    assert_eq!(f64::from_bits(t.gap_between_rebar()), 80.0);
    assert_eq!(f64::from_bits(t.cover_depth()), 70.0);
    assert_eq!(counts(&t.num_rebar()), [0; 6]);
    let l = t.layer_name();
    assert_eq!(l.concrete(), "RC大梁");
    assert_eq!(l.rebar(), "RC鉄筋");
}

#[test]
fn given_counts_are_kept_and_the_rest_are_zero() {
    let mut raw = minimal_raw();
    let mut n = no_counts();
    n.top_1 = Some(3);
    n.bottom_1 = Some(2);
    raw.num_rebar = Some(n);
    let t = load(raw);
    let n = t.num_rebar();
    assert_eq!(n.top_1(), 3);
    assert_eq!(n.bottom_1(), 2);
    assert_eq!(n.top_2(), 0);
    assert_eq!(n.top_3(), 0);
    assert_eq!(n.bottom_2(), 0);
    assert_eq!(n.bottom_3(), 0);
}

#[test]
fn default_constants_are_the_documented_lengths() {
    assert_eq!(f64::from_bits(DEFAULT_GAP_BETWEEN_REBAR), 80.0);
    assert_eq!(f64::from_bits(DEFAULT_COVER_DEPTH), 70.0);
    assert_eq!(DEFAULT_CONCRETE_LAYER, "RC大梁");
    assert_eq!(DEFAULT_REBAR_LAYER, "RC鉄筋");
}

#[test]
fn given_lengths_are_kept() {
    let mut raw = minimal_raw();
    raw.gap_between_rebar = Some(bits(100.0));
    raw.cover_depth = Some(bits(40.5));
    let t = load(raw);
    assert_eq!(f64::from_bits(t.gap_between_rebar()), 100.0);
    assert_eq!(f64::from_bits(t.cover_depth()), 40.5);
}

#[test]
fn given_length_equal_to_default_is_kept() {
    let mut raw = minimal_raw();
    raw.gap_between_rebar = Some(bits(80.0));
    raw.cover_depth = Some(bits(70.0));
    let t = load(raw);
    assert_eq!(t.gap_between_rebar, Some(bits(80.0)));
    assert_eq!(f64::from_bits(t.gap_between_rebar()), 80.0);
    assert_eq!(f64::from_bits(t.cover_depth()), 70.0);
}

#[test]
fn given_zero_length_is_not_replaced() {
    let mut raw = minimal_raw();
    raw.cover_depth = Some(bits(0.0));
    let t = load(raw);
    assert_eq!(f64::from_bits(t.cover_depth()), 0.0);
    assert_eq!(f64::from_bits(t.gap_between_rebar()), 80.0);
}

#[test]
fn each_single_count_leaves_the_other_five_zero() {
    for pos in 0..6 {
        let mut n = no_counts();
        let v = Some(7u32);
        match pos {
            0 => n.top_1 = v,
            1 => n.top_2 = v,
            2 => n.top_3 = v,
            3 => n.bottom_1 = v,
            4 => n.bottom_2 = v,
            _ => n.bottom_3 = v,
        }
        let got = counts(&n);
        for (i, c) in got.iter().enumerate() {
            assert_eq!(*c, if i == pos { 7 } else { 0 });
        }
    }
}

#[test]
fn largest_count_is_kept() {
    let mut n = no_counts();
    n.bottom_3 = Some(u32::MAX);
    assert_eq!(n.bottom_3(), u32::MAX);
    assert_eq!(n.top_1(), 0);
}

#[test]
fn concrete_only_layer_table() {
    let mut raw = minimal_raw();
    raw.layer_name = Some(LayerName {
        concrete: Some("Beam".to_string()),
        rebar: None,
    });
    let l = load(raw).layer_name();
    assert_eq!(l.concrete(), "Beam");
    assert_eq!(l.rebar(), "RC鉄筋");
}

#[test]
fn rebar_only_layer_table() {
    let mut raw = minimal_raw();
    raw.layer_name = Some(LayerName {
        concrete: None,
        rebar: Some("Bars".to_string()),
    });
    let l = load(raw).layer_name();
    assert_eq!(l.concrete(), "RC大梁");
    assert_eq!(l.rebar(), "Bars");
}

#[test]
fn empty_label_is_kept() {
    let l = LayerName {
        concrete: Some(String::new()),
        rebar: None,
    };
    assert_eq!(l.concrete(), "");
}

#[test]
fn absent_layer_table_resolves_as_empty_table() {
    let absent = load(minimal_raw());
    let mut raw = minimal_raw();
    raw.layer_name = Some(LayerName::unset());
    let empty = load(raw);
    let a = absent.layer_name();
    let e = empty.layer_name();
    assert_eq!(a, LayerName { concrete: None, rebar: None });
    assert_eq!(a.concrete(), e.concrete());
    assert_eq!(a.rebar(), e.rebar());
    assert_eq!(a.concrete(), "RC大梁");
    assert_eq!(a.rebar(), "RC鉄筋");
}

#[test]
fn given_layer_table_is_returned_as_is() {
    let given = LayerName {
        concrete: Some("C".to_string()),
        rebar: Some("R".to_string()),
    };
    let mut raw = minimal_raw();
    raw.layer_name = Some(given.clone());
    assert_eq!(load(raw).layer_name(), given);
}

#[test]
fn missing_beam_height_is_reported() {
    let mut raw = minimal_raw();
    raw.beam_height = None;
    assert_eq!(
        TomlInput::from_raw(raw),
        Err(InputError::MissingField(RequiredField::BeamHeight))
    );
}

#[test]
fn missing_beam_width_is_reported() {
    let mut raw = minimal_raw();
    raw.beam_width = None;
    assert_eq!(
        TomlInput::from_raw(raw),
        Err(InputError::MissingField(RequiredField::BeamWidth))
    );
}

#[test]
fn missing_rebar_diameter_is_reported() {
    let mut raw = minimal_raw();
    raw.rebar_diameter = None;
    assert_eq!(
        TomlInput::from_raw(raw),
        Err(InputError::MissingField(RequiredField::RebarDiameter))
    );
}

#[test]
fn missing_num_rebar_table_is_reported() {
    let mut raw = minimal_raw();
    raw.num_rebar = None;
    assert_eq!(
        TomlInput::from_raw(raw),
        Err(InputError::MissingField(RequiredField::NumRebar))
    );
}

#[test]
fn first_missing_key_in_document_order_is_reported() {
    let mut raw = minimal_raw();
    raw.beam_width = None;
    raw.num_rebar = None;
    assert_eq!(
        TomlInput::from_raw(raw),
        Err(InputError::MissingField(RequiredField::BeamWidth))
    );
    let empty = RawInput::default();
    assert_eq!(
        TomlInput::from_raw(empty),
        Err(InputError::MissingField(RequiredField::BeamHeight))
    );
}

#[test]
fn repeated_reads_agree() {
    let mut raw = minimal_raw();
    raw.cover_depth = Some(bits(55.0));
    raw.layer_name = Some(LayerName {
        concrete: None,
        rebar: Some("R".to_string()),
    });
    let t = load(raw);
    let before = t.clone();
    assert_eq!(t.gap_between_rebar(), t.gap_between_rebar());
    assert_eq!(t.cover_depth(), t.cover_depth());
    assert_eq!(counts(&t.num_rebar()), counts(&t.num_rebar()));
    assert_eq!(t.layer_name(), t.layer_name());
    assert_eq!(t.layer_name().concrete(), t.layer_name().concrete());
    assert_eq!(t.layer_name().rebar(), t.layer_name().rebar());
    assert_eq!(t, before);
}

#[test]
fn error_kinds_and_messages() {
    let io = InputError::Io("not found".to_string());
    let parse = InputError::Parse("bad value".to_string());
    let missing = InputError::MissingField(RequiredField::NumRebar);
    assert!(!io.is_parse_error());
    assert!(parse.is_parse_error());
    assert!(missing.is_parse_error());
    assert_eq!(io.message(), "not found");
    assert_eq!(parse.message(), "bad value");
    assert_eq!(missing.message(), "missing field num_rebar");
    assert_eq!(
        InputError::MissingField(RequiredField::BeamHeight).message(),
        "missing field beam_height"
    );
}

#[test]
fn required_field_keys() {
    assert_eq!(RequiredField::BeamHeight.key(), "beam_height");
    assert_eq!(RequiredField::BeamWidth.key(), "beam_width");
    assert_eq!(RequiredField::RebarDiameter.key(), "rebar_diameter");
    assert_eq!(RequiredField::NumRebar.key(), "num_rebar");
}
