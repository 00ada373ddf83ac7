use scaffold::manifest::dev_dependency_entries;
use scaffold::manifest::generate_package_json;
use scaffold::manifest::join_entry_lines;
use scaffold::manifest::runtime_dependency_entries;
use scaffold::manifest::script_entries;

#[test]
fn test_package_json_minimal_exact() {
    let text = generate_package_json("demo", false, false, false);
    let expected = r#"{
  "name": "demo",
  "private": true,
  "version": "0.0.0",
  "type": "module",
  "scripts": {
    "dev": "vite",
    "build": "vite build",
    "lint": "eslint . --ext ts,tsx --report-unused-disable-directives --max-warnings 0",
    "preview": "vite preview"
  },
  "dependencies": {
    "react": "^18.2.0"
  },
  "devDependencies": {
    "@vitejs/plugin-react": "^4.0.3",
    "vite": "^4.4.5"
  }
}"#;
    assert_eq!(text, expected);
}

#[test]
fn test_package_json_all_options_exact() {
    let text = generate_package_json("mobile", true, true, true);
    let expected = r#"{
  "name": "mobile",
  "private": true,
  "version": "0.0.0",
  "type": "module",
  "scripts": {
    "dev": "vite",
    "build": "vite build",
    "lint": "eslint . --ext ts,tsx --report-unused-disable-directives --max-warnings 0",
    "preview": "vite preview",
    "test": "vitest"
  },
  "dependencies": {
    "react": "^18.2.0",
    "@react-navigation/native": "^6.1.7",
    "@react-navigation/stack": "^6.3.17"
  },
  "devDependencies": {
    "@vitejs/plugin-react": "^4.0.3",
    "vite": "^4.4.5",
    "typescript": "^5.0.2",
    "@types/react": "^18.2.15",
    "@types/react-dom": "^18.2.7",
    "@testing-library/react": "^13.4.0",
    "@testing-library/jest-dom": "^5.17.0",
    "vitest": "^0.34.4"
  }
}"#;
    assert_eq!(text, expected);
}

#[test]
fn test_test_script_entry_iff_testing() {
    for typescript in [false, true] {
        for testing in [false, true] {
            for navigation in [false, true] {
                let text = generate_package_json("any", typescript, testing, navigation);
                assert_eq!(text.contains("\"test\": \"vitest\""), testing);
            }
        }
    }
}

#[test]
fn test_script_entries_order() {
    let entries = script_entries(true);
    let keys: Vec<&str> = entries.iter().map(|e| e.key.as_str()).collect();
    assert_eq!(keys, vec!["dev", "build", "lint", "preview", "test"]);
    let entries = script_entries(false);
    let keys: Vec<&str> = entries.iter().map(|e| e.key.as_str()).collect();
    assert_eq!(keys, vec!["dev", "build", "lint", "preview"]);
}

#[test]
fn test_runtime_dependency_entries_navigation() {
    let entries = runtime_dependency_entries(true);
    let pairs: Vec<(&str, &str)> =
        entries.iter().map(|e| (e.key.as_str(), e.value.as_str())).collect();
    assert_eq!(
        pairs,
        vec![
            ("react", "^18.2.0"),
            ("@react-navigation/native", "^6.1.7"),
            ("@react-navigation/stack", "^6.3.17"),
        ]
    );
    let entries = runtime_dependency_entries(false);
    assert_eq!(entries.len(), 1);
    assert_eq!(entries[0].key, "react");
}

#[test]
fn test_dev_dependency_entries_options() {
    let entries = dev_dependency_entries(true, false);
    let keys: Vec<&str> = entries.iter().map(|e| e.key.as_str()).collect();
    assert_eq!(
        keys,
        vec!["@vitejs/plugin-react", "vite", "typescript", "@types/react", "@types/react-dom"]
    );
    let entries = dev_dependency_entries(false, true);
    let keys: Vec<&str> = entries.iter().map(|e| e.key.as_str()).collect();
    assert_eq!(
        keys,
        vec![
            "@vitejs/plugin-react",
            "vite",
            "@testing-library/react",
            "@testing-library/jest-dom",
            "vitest",
        ]
    );
}

#[test]
fn test_join_entry_lines_separators() {
    let entries = runtime_dependency_entries(true);
    let joined = join_entry_lines(&entries);
    assert_eq!(
        joined,
        "    \"react\": \"^18.2.0\",\n    \"@react-navigation/native\": \"^6.1.7\",\n    \"@react-navigation/stack\": \"^6.3.17\""
    );
    let empty: Vec<scaffold::manifest::KvPair> = Vec::new();
    assert_eq!(join_entry_lines(&empty), "");
}
