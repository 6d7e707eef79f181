use depsync::backend::object_id;
use depsync::error::ErrorKind;

#[test]
fn hexadecimal_revision_is_an_object_id() {
    let full = "0123456789abcdefABCDEF0123456789abcdef01";
    assert_eq!(full.len(), 40);
    assert_eq!(object_id(full).unwrap().to_string(), full.to_lowercase());
    assert_eq!(
        object_id("0a1b2c").unwrap().to_string(),
        "0a1b2c0000000000000000000000000000000000"
    );
    assert!(object_id("f").is_ok());
}

#[test]
fn anything_else_is_a_backend_error() {
    let too_long = "0123456789abcdef0123456789abcdef012345678";
    assert_eq!(too_long.len(), 41);
    for revision in ["", too_long, "main", "0a1b2g", " 0a1b2c", "0a1b2c\n", "é", "v1.0"] {
        let error = object_id(revision).unwrap_err();
        assert_eq!(error.kind, ErrorKind::BackendError);
    }
}

#[test]
fn equal_revisions_give_equal_ids_and_case_does_not_matter() {
    assert_eq!(object_id("0A1B2C").unwrap(), object_id("0a1b2c").unwrap());
    assert_eq!(object_id("0a1b2c").unwrap(), object_id("0a1b2c00").unwrap());
    assert_ne!(object_id("0a1b2c").unwrap(), object_id("0").unwrap());
    assert_ne!(object_id("0a1b2c").unwrap(), object_id("0a1b2d").unwrap());
}
