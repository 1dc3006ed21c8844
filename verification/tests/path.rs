use cobalt::path::TagPath;

#[test]
fn well_formed_names_parse() {
    for name in [
        "struct_a",
        "_under",
        "struct_a.1",
        "profile[0,1,257]",
        "a.b.c",
        "Program:MainProgram.test",
        "struct_a[1]._abc.efg[2,3]",
    ] {
        let parsed = TagPath::parse(String::from(name));
        assert!(parsed.is_ok(), "expected {name:?} to parse");
        assert_eq!(parsed.unwrap().name(), name);
    }
}

#[test]
fn malformed_names_are_rejected() {
    for name in [
        "",
        ".",
        "[",
        "124",
        "_abc-",
        ".1234",
        "[12345]",
        "abc[1,]",
        "abc[1,3",
        "my.heart:on",
    ] {
        let parsed = TagPath::parse(String::from(name));
        assert!(parsed.is_err(), "expected {name:?} to be rejected");
    }
}

#[test]
fn rejection_carries_a_message() {
    let err = TagPath::parse(String::new()).unwrap_err();
    assert_eq!(err.message(), "not a well-formed tag path");
}
