use termstatus::CompileError;
use termstatus::RawAttr;
use termstatus::RawDecl;
use termstatus::RawValue;
use termstatus::RawVariant;
use termstatus::StatusFormat;

fn plain(id: &str) -> RawVariant {
    RawVariant { identifier: String::from(id), attrs: Vec::new() }
}

fn with_attrs(id: &str, attrs: Vec<RawAttr>) -> RawVariant {
    RawVariant { identifier: String::from(id), attrs }
}

fn style_attr(names: &[&str]) -> RawAttr {
    RawAttr {
        inner: false,
        decl: RawDecl::KeyList {
            key: String::from("style"),
            names: names.iter().map(|n| String::from(*n)).collect(),
        },
    }
}

fn display_attr(text: &str) -> RawAttr {
    RawAttr {
        inner: false,
        decl: RawDecl::KeyValue {
            key: String::from("display"),
            value: RawValue::Str(String::from(text)),
        },
    }
}

#[test]
fn cargo_like_schema_aligns_to_widest() {
    let schema = vec![
        plain("Building"),
        plain("Built"),
        plain("Compiling"),
        plain("Finished"),
        plain("Running"),
    ];
    let f = StatusFormat::compile(&schema).unwrap();
    assert_eq!(f.column(), 9);
    assert_eq!(f.len(), 5);
    assert_eq!(f.format_label("Built").unwrap(), "    Built");
    assert_eq!(f.format_label("Compiling").unwrap(), "Compiling");
    assert_eq!(f.format_label("Building").unwrap(), " Building");
    assert_eq!(f.format_label("Running").unwrap(), "  Running");
}

#[test]
fn status_enum_with_overrides_and_styles() {
    let schema = vec![
        plain("Building"),
        plain("Built"),
        with_attrs("CleaningUp", vec![display_attr("Cleaning Up")]),
        with_attrs("Finished", vec![style_attr(&["green", "bold"])]),
        with_attrs("Running", vec![style_attr(&["on_green", "bold"])]),
    ];
    let f = StatusFormat::compile(&schema).unwrap();
    assert_eq!(f.column(), 11);
    assert_eq!(f.format_label("Building").unwrap(), "   Building");
    assert_eq!(f.format_label("Built").unwrap(), "      Built");
    assert_eq!(f.format_label("CleaningUp").unwrap(), "Cleaning Up");
    assert_eq!(f.format_label("Finished").unwrap(), "   \x1b[32m\x1b[1mFinished\x1b[0m");
    assert_eq!(f.format_label("Running").unwrap(), "    \x1b[42m\x1b[1mRunning\x1b[0m");
}

#[test]
fn display_override_widens_column() {
    let schema = vec![
        plain("Building"),
        with_attrs("CleaningUp", vec![display_attr("Cleaning Up")]),
    ];
    let f = StatusFormat::compile(&schema).unwrap();
    assert_eq!(f.column(), 11);
    assert_eq!(f.format_label("Building").unwrap(), "   Building");
    assert_eq!(f.format_label("CleaningUp").unwrap(), "Cleaning Up");
}

#[test]
fn styled_variant_at_max_width_gets_no_padding() {
    let schema = vec![with_attrs("Finished", vec![style_attr(&["red", "italic", "on_yellow"])])];
    let f = StatusFormat::compile(&schema).unwrap();
    assert_eq!(f.column(), 8);
    assert_eq!(
        f.format_label("Finished").unwrap(),
        "\x1b[31m\x1b[3m\x1b[43mFinished\x1b[0m",
    );
}

#[test]
fn rendered_length_is_column_plus_styled_overhead() {
    let schema = vec![
        plain("Compiling"),
        with_attrs("Finished", vec![style_attr(&["red", "italic", "on_yellow"])]),
    ];
    let f = StatusFormat::compile(&schema).unwrap();
    assert_eq!(f.column(), 9);
    let unstyled = f.format_label("Compiling").unwrap();
    assert_eq!(unstyled.chars().count(), 9);
    // Overhead: red (5) + italic (4) + on_yellow (5) + one reset (4).
    let styled = f.format_label("Finished").unwrap();
    assert_eq!(styled.chars().count(), 9 + 5 + 4 + 5 + 4);
}

#[test]
fn directive_order_controls_escape_order() {
    let red_bold = StatusFormat::compile(&vec![with_attrs(
        "Done",
        vec![style_attr(&["red", "bold"])],
    )])
    .unwrap();
    let bold_red = StatusFormat::compile(&vec![with_attrs(
        "Done",
        vec![style_attr(&["bold", "red"])],
    )])
    .unwrap();
    assert_eq!(red_bold.format_label("Done").unwrap(), "\x1b[31m\x1b[1mDone\x1b[0m");
    assert_eq!(bold_red.format_label("Done").unwrap(), "\x1b[1m\x1b[31mDone\x1b[0m");
}

#[test]
fn compiling_twice_gives_identical_output() {
    let schema = vec![
        with_attrs("Running", vec![style_attr(&["green", "bold"])]),
        with_attrs("CleaningUp", vec![display_attr("Cleaning Up")]),
        plain("Built"),
    ];
    let f1 = StatusFormat::compile(&schema).unwrap();
    let f2 = StatusFormat::compile(&schema).unwrap();
    assert_eq!(f1.column(), f2.column());
    assert_eq!(f1.len(), f2.len());
    for id in ["Running", "CleaningUp", "Built"] {
        assert_eq!(f1.format_label(id).unwrap(), f2.format_label(id).unwrap());
    }
}

#[test]
fn empty_schema_compiles_to_empty_formatter() {
    let f = StatusFormat::compile(&Vec::new()).unwrap();
    assert_eq!(f.column(), 0);
    assert_eq!(f.len(), 0);
    assert!(f.format_label("Anything").is_none());
}

#[test]
fn unknown_style_name_fails_compilation() {
    let schema = vec![plain("Ok"), with_attrs("Bad", vec![style_attr(&["red", "sparkle"])])];
    match StatusFormat::compile(&schema) {
        Err(CompileError::UnknownStyleName { variant, name }) => {
            assert_eq!(variant, "Bad");
            assert_eq!(name, "sparkle");
        },
        _ => panic!("expected UnknownStyleName"),
    }
}

#[test]
fn last_display_override_wins() {
    let schema = vec![with_attrs("Job", vec![display_attr("First"), display_attr("Second")])];
    let f = StatusFormat::compile(&schema).unwrap();
    assert_eq!(f.column(), 6);
    assert_eq!(f.format_label("Job").unwrap(), "Second");
}

#[test]
fn display_then_style_keeps_both() {
    let schema = vec![with_attrs(
        "CleaningUp",
        vec![display_attr("Cleaning Up"), style_attr(&["cyan"])],
    )];
    let f = StatusFormat::compile(&schema).unwrap();
    assert_eq!(f.format_label("CleaningUp").unwrap(), "\x1b[36mCleaning Up\x1b[0m");
}

#[test]
fn inner_attribute_is_misplaced() {
    let attr = RawAttr {
        inner: true,
        decl: RawDecl::KeyValue {
            key: String::from("display"),
            value: RawValue::Str(String::from("X")),
        },
    };
    match StatusFormat::compile(&vec![with_attrs("Spot", vec![attr])]) {
        Err(CompileError::MisplacedAttribute { variant }) => assert_eq!(variant, "Spot"),
        _ => panic!("expected MisplacedAttribute"),
    }
}

#[test]
fn display_with_non_string_literal_is_malformed() {
    let attr = RawAttr {
        inner: false,
        decl: RawDecl::KeyValue { key: String::from("display"), value: RawValue::Other },
    };
    match StatusFormat::compile(&vec![with_attrs("Spot", vec![attr])]) {
        Err(CompileError::MalformedAttribute { variant }) => assert_eq!(variant, "Spot"),
        _ => panic!("expected MalformedAttribute"),
    }
}

#[test]
fn unrecognized_attribute_names_are_malformed() {
    let kv = RawAttr {
        inner: false,
        decl: RawDecl::KeyValue {
            key: String::from("label"),
            value: RawValue::Str(String::from("X")),
        },
    };
    let kl = RawAttr {
        inner: false,
        decl: RawDecl::KeyList { key: String::from("color"), names: vec![String::from("red")] },
    };
    let bare = RawAttr { inner: false, decl: RawDecl::Other };
    for attr in [kv, kl, bare] {
        match StatusFormat::compile(&vec![with_attrs("Spot", vec![attr])]) {
            Err(CompileError::MalformedAttribute { variant }) => assert_eq!(variant, "Spot"),
            _ => panic!("expected MalformedAttribute"),
        }
    }
}

#[test]
fn duplicate_identifier_is_rejected() {
    let schema = vec![plain("Twice"), plain("Other"), plain("Twice")];
    match StatusFormat::compile(&schema) {
        Err(CompileError::DuplicateIdentifier { identifier }) => assert_eq!(identifier, "Twice"),
        _ => panic!("expected DuplicateIdentifier"),
    }
}

#[test]
fn first_error_wins_across_variants() {
    let schema = vec![
        with_attrs("Early", vec![style_attr(&["nope"])]),
        with_attrs("Late", vec![RawAttr { inner: false, decl: RawDecl::Other }]),
    ];
    match StatusFormat::compile(&schema) {
        Err(CompileError::UnknownStyleName { variant, name }) => {
            assert_eq!(variant, "Early");
            assert_eq!(name, "nope");
        },
        _ => panic!("expected UnknownStyleName"),
    }
}

#[test]
fn empty_style_list_adds_nothing() {
    let schema = vec![with_attrs("Calm", vec![style_attr(&[])])];
    let f = StatusFormat::compile(&schema).unwrap();
    assert_eq!(f.format_label("Calm").unwrap(), "Calm");
}

#[test]
fn variants_keep_declaration_order_and_resolution() {
    let schema = vec![
        with_attrs("CleaningUp", vec![display_attr("Cleaning Up")]),
        with_attrs("Running", vec![style_attr(&["green"])]),
    ];
    let f = StatusFormat::compile(&schema).unwrap();
    assert_eq!(f.len(), 2);
    let first = f.variant(0);
    assert_eq!(first.identifier, "CleaningUp");
    assert_eq!(first.display_text, "Cleaning Up");
    assert!(first.styles.is_empty());
    let second = f.variant(1);
    assert_eq!(second.identifier, "Running");
    assert_eq!(second.display_text, "Running");
    assert_eq!(second.styles.len(), 1);
    assert_eq!(termstatus::visible_width(&first.display_text), 11);
    assert_eq!(termstatus::visible_width(&second.display_text), 7);
}

#[test]
fn format_label_of_unknown_identifier_is_none() {
    let f = StatusFormat::compile(&vec![plain("Known")]).unwrap();
    assert!(f.format_label("Unknown").is_none());
    assert!(f.format_label("Known").is_some());
}
