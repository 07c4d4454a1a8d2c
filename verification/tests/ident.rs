use vesper::{Ident, VesperError};

#[test]
fn accepts_valid_identifiers() {
    for text in ["a", "A", "_", "test", "Point", "int32", "_ok9", "snake_case", "CamelCase"] {
        let id = Ident::from_str(text).unwrap();
        assert_eq!(id.to_text(), text);
    }
}

#[test]
fn rejects_invalid_identifiers() {
    for text in ["", "9abc", "-dash", "has space", "dot.ted", "Ω", "a,b", "new\nline"] {
        assert_eq!(Ident::from_str(text).unwrap_err(), VesperError::InvalidIdentifier);
    }
}

#[test]
fn rejects_overlong_identifiers() {
    let hundred = "a".repeat(100);
    assert_eq!(Ident::from_str(&hundred).unwrap().to_text(), hundred);
    let overlong = "a".repeat(101);
    assert_eq!(Ident::from_str(&overlong).unwrap_err(), VesperError::InvalidIdentifier);
}
