use spatialos_sdk::worker::schema::{Error, ErrorKind, UnknownDiscriminantError};

#[test]
fn unknown_discriminant_error_text() {
    let e = UnknownDiscriminantError { typename: "Color", value: 7 };
    assert_eq!(
        e.to_string(),
        "Found unknown discriminant value 7 for enum `Color` while deserializing schema data"
    );
    let converted = Error::from(e);
    assert_eq!(converted.to_string(), "Unknown discriminant 7 for enum Color");
}

#[test]
fn schema_error_messages() {
    assert_eq!(Error::unknown_command("Health", 3).to_string(), "Unknown command index 3 for command Health");
    assert_eq!(Error::missing_field("Position").to_string(), "Missing field of type Position");
    assert_eq!(
        Error::index_out_of_bounds("List", 5, 2).to_string(),
        "Index out of bounds for type List, index: 5, count: 2"
    );
    assert_eq!(
        Error::schema_error("Entity", String::from("oops")).to_string(),
        "Generic schema error oops"
    );
}

#[test]
fn nested_schema_errors() {
    let inner = Error::unknown_discriminant("Color", 9);
    let at_index = Error::at_index("Palette", 2, 4, inner);
    assert_eq!(
        at_index.to_string(),
        "Invalid value in field 2 at index 4 for type Palette: Unknown discriminant 9 for enum Color"
    );
    let outer = Error::at_field("Scene", 1, at_index);
    assert_eq!(
        outer.to_string(),
        "Invalid value in field 1 for type Scene: Invalid value in field 2 at index 4 for type Palette: Unknown discriminant 9 for enum Color"
    );
    let source = outer.source().expect("a nested error");
    assert_eq!(source.typename, "Palette");
    match &source.kind {
        ErrorKind::InvalidValue { field, index, .. } => {
            assert_eq!(*field, 2);
            assert_eq!(*index, Some(4));
        }
        _ => panic!("expected an invalid value"),
    }
    assert!(Error::missing_field("X").source().is_none());
}
