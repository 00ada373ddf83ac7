use scaffold::errors::ScaffoldError;
use scaffold::plan::cargo_new_args;
use scaffold::plan::get_react_native_structure;
use scaffold::plan::get_react_structure;
use scaffold::plan::react_native_project_plan;
use scaffold::plan::react_project_plan;

#[test]
fn test_react_skeleton_exact_set() {
    let mut dirs = get_react_structure();
    let mut expected =
        vec!["src", "src/components", "src/hooks", "src/utils", "src/types", "public", ".vscode"];
    dirs.sort();
    expected.sort();
    assert_eq!(dirs, expected);
}

#[test]
fn test_react_native_skeleton_exact_set() {
    let mut dirs = get_react_native_structure();
    let mut expected = vec![
        "src",
        "src/components",
        "src/screens",
        "src/navigation",
        "src/hooks",
        "src/utils",
        "src/types",
        "android",
        "ios",
        ".vscode",
    ];
    dirs.sort();
    expected.sort();
    assert_eq!(dirs, expected);
}

#[test]
fn test_plan_dirs_equal_skeleton_for_every_option() {
    for typescript in [false, true] {
        for testing in [false, true] {
            let plan = react_project_plan("demo", typescript, testing, false).unwrap();
            assert_eq!(plan.dirs, get_react_structure());
        }
    }
    for typescript in [false, true] {
        for navigation in [false, true] {
            let plan = react_native_project_plan("mobile", typescript, navigation, false).unwrap();
            assert_eq!(plan.dirs, get_react_native_structure());
        }
    }
}

#[test]
fn test_existing_path_is_refused_and_nothing_planned() {
    let refused = react_project_plan("demo", true, true, true);
    match refused {
        Err(ScaffoldError::PathConflict { name }) => assert_eq!(name, "demo"),
        _ => panic!("expected a path conflict"),
    }
    let refused = react_native_project_plan("mobile", false, false, true);
    match refused {
        Err(ScaffoldError::PathConflict { name }) => assert_eq!(name, "mobile"),
        _ => panic!("expected a path conflict"),
    }
}

#[test]
fn test_path_conflict_message() {
    let e = ScaffoldError::PathConflict { name: "demo".to_string() };
    assert_eq!(e.message(), "Directory demo already exists");
}

#[test]
fn test_react_demo_plan_plain() {
    let plan = react_project_plan("demo", false, false, false).unwrap();
    let paths: Vec<&str> = plan.files.iter().map(|f| f.rel_path.as_str()).collect();
    assert_eq!(
        paths,
        vec!["package.json", "src/App.jsx", "src/main.jsx", "src/App.css", "src/index.css"]
    );
    let app = plan.files.iter().find(|f| f.rel_path == "src/App.jsx").unwrap();
    assert!(app.content.contains("App.jsx"));
    let manifest = plan.files.iter().find(|f| f.rel_path == "package.json").unwrap();
    assert!(!manifest.content.contains("\"test\""));
}

#[test]
fn test_tsconfig_written_exactly_when_typed() {
    for testing in [false, true] {
        let typed = react_project_plan("demo", true, testing, false).unwrap();
        assert!(typed.files.iter().any(|f| f.rel_path == "tsconfig.json"));
        let plain = react_project_plan("demo", false, testing, false).unwrap();
        assert!(!plain.files.iter().any(|f| f.rel_path == "tsconfig.json"));
    }
    let typed = react_native_project_plan("mobile", true, false, false).unwrap();
    assert!(typed.files.iter().any(|f| f.rel_path == "tsconfig.json"));
    let plain = react_native_project_plan("mobile", false, true, false).unwrap();
    assert!(!plain.files.iter().any(|f| f.rel_path == "tsconfig.json"));
}

#[test]
fn test_react_native_mobile_plan_typed_with_navigation() {
    let plan = react_native_project_plan("mobile", true, true, false).unwrap();
    let paths: Vec<&str> = plan.files.iter().map(|f| f.rel_path.as_str()).collect();
    assert_eq!(paths, vec!["package.json", "tsconfig.json", "src/App.tsx"]);
    let manifest = plan.files.iter().find(|f| f.rel_path == "package.json").unwrap();
    assert!(manifest.content.contains("\"@react-navigation/native\": \"^6.1.7\""));
    assert!(manifest.content.contains("\"@react-navigation/stack\": \"^6.3.17\""));
    assert!(!paths.iter().any(|p| p.starts_with("src/index")));
    assert!(!paths.iter().any(|p| p.starts_with("src/main")));
}

#[test]
fn test_cargo_new_args_library_flag() {
    let args = cargo_new_args("demo", "library");
    assert_eq!(args, vec!["new", "demo", "--name", "demo", "--lib"]);
    let args = cargo_new_args("demo", "binary");
    assert_eq!(args, vec!["new", "demo", "--name", "demo"]);
    let args = cargo_new_args("demo", "anything-else");
    assert_eq!(args, vec!["new", "demo", "--name", "demo"]);
}
