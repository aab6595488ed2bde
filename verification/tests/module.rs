use tds::module::{check_shape, ShapeError, REQUIRED_EXPORTS};

fn import(module: &str, name: &str) -> (String, String) {
    (module.to_string(), name.to_string())
}

fn all_exports() -> Vec<String> {
    REQUIRED_EXPORTS.iter().map(|name| name.to_string()).collect()
}

#[test]
fn a_module_of_the_right_shape_is_accepted() {
    let imports = vec![
        import("tds_host", "log"),
        import("tds_host", "call"),
        import("tds_host", "response_read"),
    ];
    assert!(check_shape(&imports, &all_exports()).is_ok());
    let mut more = all_exports();
    more.push("extra".into());
    assert!(check_shape(&vec![], &more).is_ok());
}

#[test]
fn the_first_foreign_import_is_named() {
    let imports = vec![
        import("tds_host", "log"),
        import("env", "log"),
        import("tds_host", "exec"),
    ];
    match check_shape(&imports, &vec![]).unwrap_err() {
        ShapeError::ForeignImport(module, name) => assert_eq!((module.as_str(), name.as_str()), ("env", "log")),
        other => panic!("{other:?}"),
    }
}

#[test]
fn each_missing_export_is_named() {
    for name in REQUIRED_EXPORTS {
        let exports: Vec<String> = all_exports().into_iter().filter(|e| e != name).collect();
        assert_eq!(
            check_shape(&vec![], &exports).unwrap_err().message(),
            format!("agent module does not export {name:?}")
        );
    }
}
