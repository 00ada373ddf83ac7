use vstd::prelude::*;

verus! {

/// One `"key": "value"` entry of the generated manifest: a package script,
/// a runtime dependency, or a development dependency.
pub struct KvPair {
    pub key: String,
    pub value: String,
}

impl View for KvPair {
    type V = (Seq<char>, Seq<char>);

    open spec fn view(&self) -> Self::V {
        (self.key@, self.value@)
    }
}

pub open spec fn kv_views(s: Seq<KvPair>) -> Seq<(Seq<char>, Seq<char>)> {
    s.map_values(|p: KvPair| p@)
}

/// The script table of the generated manifest: dev, build, lint and preview
/// always; a test entry exactly when testing support is requested.
pub open spec fn spec_script_entries(testing: bool) -> Seq<(Seq<char>, Seq<char>)> {
    let base = seq![
        ("dev"@, "vite"@),
        ("build"@, "vite build"@),
        ("lint"@, "eslint . --ext ts,tsx --report-unused-disable-directives --max-warnings 0"@),
        ("preview"@, "vite preview"@),
    ];
    if testing {
        base + seq![("test"@, "vitest"@)]
    } else {
        base
    }
}

/// The runtime dependency set: the UI framework always; the navigation
/// library pair exactly when navigation support is requested.
pub open spec fn spec_runtime_dependency_entries(navigation: bool) -> Seq<(Seq<char>, Seq<char>)> {
    let base = seq![("react"@, "^18.2.0"@)];
    if navigation {
        base + seq![
            ("@react-navigation/native"@, "^6.1.7"@),
            ("@react-navigation/stack"@, "^6.3.17"@),
        ]
    } else {
        base
    }
}

/// The development dependency set: the build tool always; typed-language
/// tooling when requested; the testing library set when requested.
pub open spec fn spec_dev_dependency_entries(typescript: bool, testing: bool) -> Seq<
    (Seq<char>, Seq<char>),
> {
    let base = seq![("@vitejs/plugin-react"@, "^4.0.3"@), ("vite"@, "^4.4.5"@)];
    let with_typed = if typescript {
        base + seq![
            ("typescript"@, "^5.0.2"@),
            ("@types/react"@, "^18.2.15"@),
            ("@types/react-dom"@, "^18.2.7"@),
        ]
    } else {
        base
    };
    if testing {
        with_typed + seq![
            ("@testing-library/react"@, "^13.4.0"@),
            ("@testing-library/jest-dom"@, "^5.17.0"@),
            ("vitest"@, "^0.34.4"@),
        ]
    } else {
        with_typed
    }
}

/// The one line an entry contributes to the manifest text.
pub open spec fn spec_entry_line(e: (Seq<char>, Seq<char>)) -> Seq<char> {
    "    \""@ + e.0 + "\": \""@ + e.1 + "\""@
}

/// The entry lines joined with `,` and a line break, no trailing separator.
pub open spec fn spec_join_entry_lines(es: Seq<(Seq<char>, Seq<char>)>) -> Seq<char>
    decreases es.len(),
{
    if es.len() == 0 {
        Seq::empty()
    } else if es.len() == 1 {
        spec_entry_line(es[0])
    } else {
        spec_join_entry_lines(es.drop_last()) + ",\n"@ + spec_entry_line(es.last())
    }
}

/// The complete manifest text for a project of the given name and options.
pub open spec fn spec_package_json(
    name: Seq<char>,
    typescript: bool,
    testing: bool,
    navigation: bool,
) -> Seq<char> {
    "{\n  \"name\": \""@ + name
        + "\",\n  \"private\": true,\n  \"version\": \"0.0.0\",\n  \"type\": \"module\",\n  \"scripts\": {\n"@
        + spec_join_entry_lines(spec_script_entries(testing))
        + "\n  },\n  \"dependencies\": {\n"@
        + spec_join_entry_lines(spec_runtime_dependency_entries(navigation))
        + "\n  },\n  \"devDependencies\": {\n"@
        + spec_join_entry_lines(spec_dev_dependency_entries(typescript, testing)) + "\n  }\n}"@
}

fn push_entry(v: &mut Vec<KvPair>, key: &'static str, value: &'static str)
    ensures
        kv_views(final(v)@) == kv_views(old(v)@).push((key@, value@)),
{
    v.push(KvPair { key: String::from_str(key), value: String::from_str(value) });
    proof {
        assert(kv_views(v@) =~= kv_views(old(v)@).push((key@, value@)));
    }
}

/// The script table as ordered entries.
pub fn script_entries(testing: bool) -> (r: Vec<KvPair>)
    ensures
        kv_views(r@) == spec_script_entries(testing),
{
    let mut v: Vec<KvPair> = Vec::new();
    push_entry(&mut v, "dev", "vite");
    push_entry(&mut v, "build", "vite build");
    push_entry(
        &mut v,
        "lint",
        "eslint . --ext ts,tsx --report-unused-disable-directives --max-warnings 0",
    );
    push_entry(&mut v, "preview", "vite preview");
    if testing {
        push_entry(&mut v, "test", "vitest");
    }
    proof {
        assert(kv_views(v@) =~= spec_script_entries(testing));
    }
    v
}

/// The runtime dependency set as ordered entries.
pub fn runtime_dependency_entries(navigation: bool) -> (r: Vec<KvPair>)
    ensures
        kv_views(r@) == spec_runtime_dependency_entries(navigation),
{
    let mut v: Vec<KvPair> = Vec::new();
    push_entry(&mut v, "react", "^18.2.0");
    if navigation {
        push_entry(&mut v, "@react-navigation/native", "^6.1.7");
        push_entry(&mut v, "@react-navigation/stack", "^6.3.17");
    }
    proof {
        assert(kv_views(v@) =~= spec_runtime_dependency_entries(navigation));
    }
    v
}

/// The development dependency set as ordered entries.
pub fn dev_dependency_entries(typescript: bool, testing: bool) -> (r: Vec<KvPair>)
    ensures
        kv_views(r@) == spec_dev_dependency_entries(typescript, testing),
{
    let mut v: Vec<KvPair> = Vec::new();
    push_entry(&mut v, "@vitejs/plugin-react", "^4.0.3");
    push_entry(&mut v, "vite", "^4.4.5");
    if typescript {
        push_entry(&mut v, "typescript", "^5.0.2");
        push_entry(&mut v, "@types/react", "^18.2.15");
        push_entry(&mut v, "@types/react-dom", "^18.2.7");
    }
    if testing {
        push_entry(&mut v, "@testing-library/react", "^13.4.0");
        push_entry(&mut v, "@testing-library/jest-dom", "^5.17.0");
        push_entry(&mut v, "vitest", "^0.34.4");
    }
    proof {
        assert(kv_views(v@) =~= spec_dev_dependency_entries(typescript, testing));
    }
    v
}

fn entry_line(e: &KvPair) -> (r: String)
    ensures
        r@ == spec_entry_line(e@),
{
    let mut m = String::from_str("    \"");
    m.append(e.key.as_str());
    m.append("\": \"");
    m.append(e.value.as_str());
    m.append("\"");
    proof {
        assert(m@ =~= spec_entry_line(e@));
    }
    m
}

/// Join the entries into the text of one manifest section.
pub fn join_entry_lines(entries: &Vec<KvPair>) -> (r: String)
    ensures
        r@ == spec_join_entry_lines(kv_views(entries@)),
{
    let ghost es = kv_views(entries@);
    let mut r = String::new();
    let mut i: usize = 0;
    while i < entries.len()
        invariant
            i <= entries@.len(),
            es == kv_views(entries@),
            es.len() == entries@.len(),
            r@ == spec_join_entry_lines(es.take(i as int)),
        decreases entries@.len() - i,
    {
        let line = entry_line(&entries[i]);
        if i > 0 {
            r.append(",\n");
        }
        r.append(line.as_str());
        proof {
            if i == 0 {
                assert(es.take(1)[0] == es[0]);
                assert(r@ =~= spec_join_entry_lines(es.take(1)));
            } else {
                assert(es.take(i + 1).drop_last() =~= es.take(i as int));
                assert(es.take(i + 1).last() == es[i as int]);
                assert(r@ =~= spec_join_entry_lines(es.take(i + 1)));
            }
        }
        i = i + 1;
    }
    proof {
        assert(es.take(entries@.len() as int) =~= es);
    }
    r
}

/// Build the manifest text for a project of the given name and options.
///
/// The text is JSON-shaped; interpolated values are not escaped, so a name
/// holding a quotation mark yields invalid output — a known, documented gap.
pub fn generate_package_json(name: &str, typescript: bool, testing: bool, navigation: bool) -> (r:
    String)
    ensures
        r@ == spec_package_json(name@, typescript, testing, navigation),
{
    let scripts = script_entries(testing);
    let runtime_deps = runtime_dependency_entries(navigation);
    let dev_deps = dev_dependency_entries(typescript, testing);
    let scripts_text = join_entry_lines(&scripts);
    let deps_text = join_entry_lines(&runtime_deps);
    let dev_deps_text = join_entry_lines(&dev_deps);
    let mut m = String::from_str("{\n  \"name\": \"");
    m.append(name);
    m.append(
        "\",\n  \"private\": true,\n  \"version\": \"0.0.0\",\n  \"type\": \"module\",\n  \"scripts\": {\n",
    );
    m.append(scripts_text.as_str());
    m.append("\n  },\n  \"dependencies\": {\n");
    m.append(deps_text.as_str());
    m.append("\n  },\n  \"devDependencies\": {\n");
    m.append(dev_deps_text.as_str());
    m.append("\n  }\n}");
    proof {
        assert(m@ =~= spec_package_json(name@, typescript, testing, navigation));
    }
    m
}

/// The script table holds a `test` entry exactly when testing is requested.
pub proof fn lemma_test_script_iff_testing(testing: bool)
    ensures
        (exists|i: int|
            0 <= i < spec_script_entries(testing).len() && #[trigger] spec_script_entries(
                testing,
            )[i].0 == "test"@) <==> testing,
{
    reveal_strlit("dev");
    reveal_strlit("build");
    reveal_strlit("lint");
    reveal_strlit("preview");
    reveal_strlit("test");
    if testing {
        assert(spec_script_entries(testing)[4].0 == "test"@);
    } else {
        assert("dev"@.len() == 3);
        assert("test"@.len() == 4);
        assert("build"@.len() == 5);
        assert("preview"@.len() == 7);
        assert("lint"@[0] == 'l');
        assert("test"@[0] == 't');
        assert forall|i: int|
            0 <= i < spec_script_entries(testing).len() implies #[trigger] spec_script_entries(
            testing,
        )[i].0 != "test"@ by {
            if i == 0 {
                assert(spec_script_entries(testing)[0].0 == "dev"@);
            } else if i == 1 {
                assert(spec_script_entries(testing)[1].0 == "build"@);
            } else if i == 2 {
                assert(spec_script_entries(testing)[2].0 == "lint"@);
            } else {
                assert(spec_script_entries(testing)[3].0 == "preview"@);
            }
        }
    }
}

} // verus!
