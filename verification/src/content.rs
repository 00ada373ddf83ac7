use vstd::prelude::*;

verus! {

/// The source-file extension for the chosen language flavour.
pub open spec fn spec_ext(typescript: bool) -> Seq<char> {
    if typescript {
        "tsx"@
    } else {
        "jsx"@
    }
}

/// The fixed typed-language compiler configuration text; independent of all
/// other options.
pub open spec fn spec_tsconfig_text() -> Seq<char> {
    "{\n  \"compilerOptions\": {\n    \"target\": \"ES2020\",\n    \"useDefineForClassFields\": true,\n    \"lib\": [\"ES2020\", \"DOM\", \"DOM.Iterable\"],\n    \"module\": \"ESNext\",\n    \"skipLibCheck\": true,\n    \"moduleResolution\": \"bundler\",\n    \"allowImportingTsExtensions\": true,\n    \"resolveJsonModule\": true,\n    \"isolatedModules\": true,\n    \"noEmit\": true,\n    \"jsx\": \"react-jsx\",\n    \"strict\": true,\n    \"noUnusedLocals\": true,\n    \"noUnusedParameters\": true,\n    \"noFallthroughCasesInSwitch\": true\n  },\n  \"include\": [\"src\"],\n  \"references\": [{ \"path\": \"./tsconfig.node.json\" }]\n}"@
}

/// Build the typed-language compiler configuration file.
pub fn generate_tsconfig() -> (r: String)
    ensures
        r@ == spec_tsconfig_text(),
{
    String::from_str(
        "{\n  \"compilerOptions\": {\n    \"target\": \"ES2020\",\n    \"useDefineForClassFields\": true,\n    \"lib\": [\"ES2020\", \"DOM\", \"DOM.Iterable\"],\n    \"module\": \"ESNext\",\n    \"skipLibCheck\": true,\n    \"moduleResolution\": \"bundler\",\n    \"allowImportingTsExtensions\": true,\n    \"resolveJsonModule\": true,\n    \"isolatedModules\": true,\n    \"noEmit\": true,\n    \"jsx\": \"react-jsx\",\n    \"strict\": true,\n    \"noUnusedLocals\": true,\n    \"noUnusedParameters\": true,\n    \"noFallthroughCasesInSwitch\": true\n  },\n  \"include\": [\"src\"],\n  \"references\": [{ \"path\": \"./tsconfig.node.json\" }]\n}",
    )
}

/// The root component text for the web project; the displayed hint names
/// the file's own extension, the one interpolated token.
pub open spec fn spec_react_app_text(typescript: bool) -> Seq<char> {
    "import React from 'react';\nimport './App.css';\n\nfunction App() {\n  return (\n    <div className=\"App\">\n      <header className=\"App-header\">\n        <h1>Welcome to your new React project!</h1>\n        <p>Edit src/App."@
        + spec_ext(typescript)
        + " and save to reload.</p>\n      </header>\n    </div>\n  );\n}\n\nexport default App;"@
}

/// Build the root component file for the web project.
pub fn react_app_text(typescript: bool) -> (r: String)
    ensures
        r@ == spec_react_app_text(typescript),
{
    let mut m = String::from_str(
        "import React from 'react';\nimport './App.css';\n\nfunction App() {\n  return (\n    <div className=\"App\">\n      <header className=\"App-header\">\n        <h1>Welcome to your new React project!</h1>\n        <p>Edit src/App.",
    );
    m.append(if typescript { "tsx" } else { "jsx" });
    m.append(" and save to reload.</p>\n      </header>\n    </div>\n  );\n}\n\nexport default App;");
    m
}

/// The entry-point text for the web project; imports the root component by
/// its extension, the one interpolated token.
pub open spec fn spec_react_main_text(typescript: bool) -> Seq<char> {
    "import React from 'react';\nimport ReactDOM from 'react-dom/client';\nimport App from './App."@
        + spec_ext(typescript)
        + "';\nimport './index.css';\n\nReactDOM.createRoot(document.getElementById('root')!).render(\n  <React.StrictMode>\n    <App />\n  </React.StrictMode>,\n);"@
}

/// Build the entry-point file for the web project.
pub fn react_main_text(typescript: bool) -> (r: String)
    ensures
        r@ == spec_react_main_text(typescript),
{
    let mut m = String::from_str(
        "import React from 'react';\nimport ReactDOM from 'react-dom/client';\nimport App from './App.",
    );
    m.append(if typescript { "tsx" } else { "jsx" });
    m.append(
        "';\nimport './index.css';\n\nReactDOM.createRoot(document.getElementById('root')!).render(\n  <React.StrictMode>\n    <App />\n  </React.StrictMode>,\n);",
    );
    m
}

/// The fixed component stylesheet text of the web project.
pub open spec fn spec_app_css_text() -> Seq<char> {
    "body {\n  margin: 0;\n  font-family: -apple-system, BlinkMacSystemFont, 'Segoe UI', 'Roboto', 'Oxygen',\n    'Ubuntu', 'Cantarell', 'Fira Sans', 'Droid Sans', 'Helvetica Neue',\n    sans-serif;\n  -webkit-font-smoothing: antialiased;\n  -moz-osx-font-smoothing: grayscale;\n}\n\n.App {\n  text-align: center;\n}\n\n.App-header {\n  background-color: #282c34;\n  padding: 20px;\n  color: white;\n  min-height: 100vh;\n  display: flex;\n  flex-direction: column;\n  align-items: center;\n  justify-content: center;\n  font-size: calc(10px + 2vmin);\n}"@
}

/// Build the component stylesheet of the web project.
pub fn app_css_text() -> (r: String)
    ensures
        r@ == spec_app_css_text(),
{
    String::from_str(
        "body {\n  margin: 0;\n  font-family: -apple-system, BlinkMacSystemFont, 'Segoe UI', 'Roboto', 'Oxygen',\n    'Ubuntu', 'Cantarell', 'Fira Sans', 'Droid Sans', 'Helvetica Neue',\n    sans-serif;\n  -webkit-font-smoothing: antialiased;\n  -moz-osx-font-smoothing: grayscale;\n}\n\n.App {\n  text-align: center;\n}\n\n.App-header {\n  background-color: #282c34;\n  padding: 20px;\n  color: white;\n  min-height: 100vh;\n  display: flex;\n  flex-direction: column;\n  align-items: center;\n  justify-content: center;\n  font-size: calc(10px + 2vmin);\n}",
    )
}

/// The fixed global stylesheet text of the web project.
pub open spec fn spec_index_css_text() -> Seq<char> {
    "/* Global styles */"@
}

/// Build the global stylesheet of the web project.
pub fn index_css_text() -> (r: String)
    ensures
        r@ == spec_index_css_text(),
{
    String::from_str("/* Global styles */")
}

/// The root component text for the mobile project; the component's type
/// annotation is the one interpolated token.
pub open spec fn spec_react_native_app_text(typescript: bool) -> Seq<char> {
    "import React from 'react';\nimport {\n  SafeAreaView,\n  ScrollView,\n  StatusBar,\n  StyleSheet,\n  Text,\n  View,\n} from 'react-native';\n\nfunction App()"@
        + (if typescript {
        ": React.FC"@
    } else {
        ""@
    })
        + " {\n  return (\n    <SafeAreaView style={styles.container}>\n      <StatusBar barStyle=\"dark-content\" />\n      <ScrollView contentInsetAdjustmentBehavior=\"automatic\">\n        <View style={styles.body}>\n          <Text style={styles.title}>Welcome to React Native!</Text>\n          <Text style={styles.subtitle}>Your project is ready to go.</Text>\n        </View>\n      </ScrollView>\n    </SafeAreaView>\n  );\n}\n\nconst styles = StyleSheet.create({\n  container: {\n    flex: 1,\n  },\n  body: {\n    backgroundColor: '#fff',\n    flex: 1,\n    justifyContent: 'center',\n    alignItems: 'center',\n    padding: 20,\n  },\n  title: {\n    fontSize: 24,\n    fontWeight: 'bold',\n    marginBottom: 10,\n  },\n  subtitle: {\n    fontSize: 16,\n    color: '#666',\n  },\n});\n\nexport default App;"@
}

/// Build the root component file for the mobile project.
pub fn react_native_app_text(typescript: bool) -> (r: String)
    ensures
        r@ == spec_react_native_app_text(typescript),
{
    let mut m = String::from_str(
        "import React from 'react';\nimport {\n  SafeAreaView,\n  ScrollView,\n  StatusBar,\n  StyleSheet,\n  Text,\n  View,\n} from 'react-native';\n\nfunction App()",
    );
    m.append(if typescript { ": React.FC" } else { "" });
    m.append(
        " {\n  return (\n    <SafeAreaView style={styles.container}>\n      <StatusBar barStyle=\"dark-content\" />\n      <ScrollView contentInsetAdjustmentBehavior=\"automatic\">\n        <View style={styles.body}>\n          <Text style={styles.title}>Welcome to React Native!</Text>\n          <Text style={styles.subtitle}>Your project is ready to go.</Text>\n        </View>\n      </ScrollView>\n    </SafeAreaView>\n  );\n}\n\nconst styles = StyleSheet.create({\n  container: {\n    flex: 1,\n  },\n  body: {\n    backgroundColor: '#fff',\n    flex: 1,\n    justifyContent: 'center',\n    alignItems: 'center',\n    padding: 20,\n  },\n  title: {\n    fontSize: 24,\n    fontWeight: 'bold',\n    marginBottom: 10,\n  },\n  subtitle: {\n    fontSize: 16,\n    color: '#666',\n  },\n});\n\nexport default App;",
    );
    m
}

/// The fixed block of commented-out dependency suggestions and build
/// profiles appended to the manifest of a freshly created Rust project.
pub open spec fn spec_cargo_additions() -> Seq<char> {
    "\n\n# Common useful dependencies (uncomment as needed)\n[dependencies]\n# clap = { version = \"4.0\", features = [\"derive\"] }\n# serde = { version = \"1.0\", features = [\"derive\"] }\n# serde_json = \"1.0\"\n# tokio = { version = \"1.0\", features = [\"full\"] }\n# anyhow = \"1.0\"\n\n[dev-dependencies]\n# criterion = \"0.5\"\n\n# Performance optimizations\n[profile.release]\nlto = true\ncodegen-units = 1\npanic = \"abort\"\n\n[profile.dev]\ndebug = true\n"@
}

/// A freshly created Rust project's manifest with the fixed block appended.
pub open spec fn spec_enhanced_cargo_toml(content: Seq<char>) -> Seq<char> {
    content + spec_cargo_additions()
}

/// Append the fixed dependency-suggestion and build-profile block to the
/// manifest text the external tool produced.
pub fn enhance_cargo_toml(content: String) -> (r: String)
    ensures
        r@ == spec_enhanced_cargo_toml(content@),
{
    let mut m = content;
    m.append(
        "\n\n# Common useful dependencies (uncomment as needed)\n[dependencies]\n# clap = { version = \"4.0\", features = [\"derive\"] }\n# serde = { version = \"1.0\", features = [\"derive\"] }\n# serde_json = \"1.0\"\n# tokio = { version = \"1.0\", features = [\"full\"] }\n# anyhow = \"1.0\"\n\n[dev-dependencies]\n# criterion = \"0.5\"\n\n# Performance optimizations\n[profile.release]\nlto = true\ncodegen-units = 1\npanic = \"abort\"\n\n[profile.dev]\ndebug = true\n",
    );
    m
}

/// The enhanced manifest ends with the fixed block, verbatim.
pub proof fn lemma_enhanced_cargo_toml_ends_with_block(content: Seq<char>)
    ensures
        spec_enhanced_cargo_toml(content).len() == content.len() + spec_cargo_additions().len(),
        spec_enhanced_cargo_toml(content).skip(content.len() as int) == spec_cargo_additions(),
{
    assert(spec_enhanced_cargo_toml(content).skip(content.len() as int) =~= spec_cargo_additions());
}

/// The static template catalog; the same text on every invocation.
pub open spec fn spec_template_catalog() -> Seq<char> {
    "\u{1F4CB} Available templates:\n  react         - React web application\n  react-native  - React Native mobile application\n  rust          - Rust application or library\n\nUse --help with any command for more options.\n"@
}

/// The template-listing text: a static enumeration of the supported project
/// kinds and a usage hint. No inputs, no side effects.
pub fn list_templates() -> (r: String)
    ensures
        r@ == spec_template_catalog(),
{
    String::from_str(
        "\u{1F4CB} Available templates:\n  react         - React web application\n  react-native  - React Native mobile application\n  rust          - Rust application or library\n\nUse --help with any command for more options.\n",
    )
}

} // verus!
