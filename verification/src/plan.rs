use vstd::prelude::*;
use crate::content::app_css_text;
use crate::content::generate_tsconfig;
use crate::content::index_css_text;
use crate::content::react_app_text;
use crate::content::react_main_text;
use crate::content::react_native_app_text;
use crate::content::spec_app_css_text;
use crate::content::spec_ext;
use crate::content::spec_index_css_text;
use crate::content::spec_react_app_text;
use crate::content::spec_react_main_text;
use crate::content::spec_react_native_app_text;
use crate::content::spec_tsconfig_text;
use crate::errors::ScaffoldError;
use crate::manifest::generate_package_json;
use crate::manifest::spec_package_json;

verus! {

/// One file of a generated project: a path relative to the project root,
/// and the full text to write there.
pub struct GeneratedFile {
    pub rel_path: String,
    pub content: String,
}

impl View for GeneratedFile {
    type V = (Seq<char>, Seq<char>);

    open spec fn view(&self) -> Self::V {
        (self.rel_path@, self.content@)
    }
}

pub open spec fn str_views(s: Seq<&str>) -> Seq<Seq<char>> {
    s.map_values(|t: &str| t@)
}

pub open spec fn string_views(s: Seq<String>) -> Seq<Seq<char>> {
    s.map_values(|t: String| t@)
}

pub open spec fn file_views(s: Seq<GeneratedFile>) -> Seq<(Seq<char>, Seq<char>)> {
    s.map_values(|f: GeneratedFile| f@)
}

/// Everything one generator run writes under a free target path: first the
/// directories, in order, then the files, in order. Produced in full before
/// anything touches the disk; a run that is refused produces no plan, and so
/// writes nothing.
pub struct ProjectPlan {
    pub dirs: Vec<String>,
    pub files: Vec<GeneratedFile>,
}

impl View for ProjectPlan {
    type V = (Seq<Seq<char>>, Seq<(Seq<char>, Seq<char>)>);

    open spec fn view(&self) -> Self::V {
        (string_views(self.dirs@), file_views(self.files@))
    }
}

/// The fixed directory skeleton of a web project; independent of options.
pub open spec fn spec_react_structure() -> Seq<Seq<char>> {
    seq!["src"@, "src/components"@, "src/hooks"@, "src/utils"@, "src/types"@, "public"@, ".vscode"@]
}

/// The fixed directory skeleton of a mobile project; independent of options.
pub open spec fn spec_react_native_structure() -> Seq<Seq<char>> {
    seq![
        "src"@,
        "src/components"@,
        "src/screens"@,
        "src/navigation"@,
        "src/hooks"@,
        "src/utils"@,
        "src/types"@,
        "android"@,
        "ios"@,
        ".vscode"@,
    ]
}

/// The relative directories to create for a web project.
pub fn get_react_structure() -> (r: Vec<&'static str>)
    ensures
        str_views(r@) == spec_react_structure(),
{
    let mut v: Vec<&'static str> = Vec::new();
    v.push("src");
    v.push("src/components");
    v.push("src/hooks");
    v.push("src/utils");
    v.push("src/types");
    v.push("public");
    v.push(".vscode");
    proof {
        assert(str_views(v@) =~= spec_react_structure());
    }
    v
}

/// The relative directories to create for a mobile project.
pub fn get_react_native_structure() -> (r: Vec<&'static str>)
    ensures
        str_views(r@) == spec_react_native_structure(),
{
    let mut v: Vec<&'static str> = Vec::new();
    v.push("src");
    v.push("src/components");
    v.push("src/screens");
    v.push("src/navigation");
    v.push("src/hooks");
    v.push("src/utils");
    v.push("src/types");
    v.push("android");
    v.push("ios");
    v.push(".vscode");
    proof {
        assert(str_views(v@) =~= spec_react_native_structure());
    }
    v
}

/// The files of a web project, in write order: the manifest, the compiler
/// configuration when the typed language is chosen, the root component, the
/// entry point, and the two stylesheets.
pub open spec fn spec_react_files(name: Seq<char>, typescript: bool, testing: bool) -> Seq<
    (Seq<char>, Seq<char>),
> {
    let base = seq![("package.json"@, spec_package_json(name, typescript, testing, false))];
    let with_typed = if typescript {
        base + seq![("tsconfig.json"@, spec_tsconfig_text())]
    } else {
        base
    };
    with_typed + seq![
        ("src/App."@ + spec_ext(typescript), spec_react_app_text(typescript)),
        ("src/main."@ + spec_ext(typescript), spec_react_main_text(typescript)),
        ("src/App.css"@, spec_app_css_text()),
        ("src/index.css"@, spec_index_css_text()),
    ]
}

/// The files of a mobile project, in write order: the manifest, the compiler
/// configuration when the typed language is chosen, and the root component
/// alone — no separate entry point and no stylesheets, an intentional
/// asymmetry with the web generator.
pub open spec fn spec_react_native_files(
    name: Seq<char>,
    typescript: bool,
    navigation: bool,
) -> Seq<(Seq<char>, Seq<char>)> {
    let base = seq![("package.json"@, spec_package_json(name, typescript, false, navigation))];
    let with_typed = if typescript {
        base + seq![("tsconfig.json"@, spec_tsconfig_text())]
    } else {
        base
    };
    with_typed + seq![("src/App."@ + spec_ext(typescript), spec_react_native_app_text(typescript))]
}

/// The whole plan of a web generator run on a free path.
pub open spec fn spec_react_plan(name: Seq<char>, typescript: bool, testing: bool) -> (
    Seq<Seq<char>>,
    Seq<(Seq<char>, Seq<char>)>,
) {
    (spec_react_structure(), spec_react_files(name, typescript, testing))
}

/// The whole plan of a mobile generator run on a free path.
pub open spec fn spec_react_native_plan(name: Seq<char>, typescript: bool, navigation: bool) -> (
    Seq<Seq<char>>,
    Seq<(Seq<char>, Seq<char>)>,
) {
    (spec_react_native_structure(), spec_react_native_files(name, typescript, navigation))
}

fn owned_dirs(structure: &Vec<&'static str>) -> (r: Vec<String>)
    ensures
        string_views(r@) == str_views(structure@),
{
    let mut dirs: Vec<String> = Vec::new();
    let mut i: usize = 0;
    while i < structure.len()
        invariant
            i <= structure@.len(),
            dirs@.len() == i as int,
            forall|j: int| 0 <= j < i ==> #[trigger] dirs@[j]@ == structure@[j]@,
        decreases structure@.len() - i,
    {
        dirs.push(structure[i].to_owned());
        i = i + 1;
    }
    proof {
        assert(string_views(dirs@) =~= str_views(structure@));
    }
    dirs
}

fn source_file_path(stem: &'static str, typescript: bool) -> (r: String)
    ensures
        r@ == stem@ + spec_ext(typescript),
{
    let mut p = String::from_str(stem);
    p.append(if typescript { "tsx" } else { "jsx" });
    p
}

/// Plan a web generator run. A target path that is already taken — file or
/// directory — is refused outright, and nothing is planned or written.
pub fn react_project_plan(name: &str, typescript: bool, testing: bool, target_exists: bool) -> (r:
    Result<ProjectPlan, ScaffoldError>)
    ensures
        target_exists ==> (r matches Err(e) && e matches ScaffoldError::PathConflict { name: n }
            && n@ == name@),
        !target_exists ==> (r matches Ok(p) && p@ == spec_react_plan(name@, typescript, testing)),
{
    if target_exists {
        return Err(ScaffoldError::PathConflict { name: name.to_owned() });
    }
    let structure = get_react_structure();
    let dirs = owned_dirs(&structure);
    let mut files: Vec<GeneratedFile> = Vec::new();
    files.push(
        GeneratedFile {
            rel_path: String::from_str("package.json"),
            content: generate_package_json(name, typescript, testing, false),
        },
    );
    if typescript {
        files.push(
            GeneratedFile {
                rel_path: String::from_str("tsconfig.json"),
                content: generate_tsconfig(),
            },
        );
    }
    files.push(
        GeneratedFile {
            rel_path: source_file_path("src/App.", typescript),
            content: react_app_text(typescript),
        },
    );
    files.push(
        GeneratedFile {
            rel_path: source_file_path("src/main.", typescript),
            content: react_main_text(typescript),
        },
    );
    files.push(
        GeneratedFile { rel_path: String::from_str("src/App.css"), content: app_css_text() },
    );
    files.push(
        GeneratedFile { rel_path: String::from_str("src/index.css"), content: index_css_text() },
    );
    proof {
        assert(file_views(files@) =~= spec_react_files(name@, typescript, testing));
    }
    Ok(ProjectPlan { dirs, files })
}

/// Plan a mobile generator run. A target path that is already taken — file
/// or directory — is refused outright, and nothing is planned or written.
pub fn react_native_project_plan(
    name: &str,
    typescript: bool,
    navigation: bool,
    target_exists: bool,
) -> (r: Result<ProjectPlan, ScaffoldError>)
    ensures
        target_exists ==> (r matches Err(e) && e matches ScaffoldError::PathConflict { name: n }
            && n@ == name@),
        !target_exists ==> (r matches Ok(p) && p@ == spec_react_native_plan(
            name@,
            typescript,
            navigation,
        )),
{
    if target_exists {
        return Err(ScaffoldError::PathConflict { name: name.to_owned() });
    }
    let structure = get_react_native_structure();
    let dirs = owned_dirs(&structure);
    let mut files: Vec<GeneratedFile> = Vec::new();
    files.push(
        GeneratedFile {
            rel_path: String::from_str("package.json"),
            content: generate_package_json(name, typescript, false, navigation),
        },
    );
    if typescript {
        files.push(
            GeneratedFile {
                rel_path: String::from_str("tsconfig.json"),
                content: generate_tsconfig(),
            },
        );
    }
    files.push(
        GeneratedFile {
            rel_path: source_file_path("src/App.", typescript),
            content: react_native_app_text(typescript),
        },
    );
    proof {
        assert(file_views(files@) =~= spec_react_native_files(name@, typescript, navigation));
    }
    Ok(ProjectPlan { dirs, files })
}

/// The arguments handed to the external build tool for a Rust project: the
/// project type is passed through as a flag, not interpreted here.
pub open spec fn spec_cargo_new_args(name: Seq<char>, project_type: Seq<char>) -> Seq<Seq<char>> {
    let base = seq!["new"@, name, "--name"@, name];
    if project_type == "library"@ {
        base + seq!["--lib"@]
    } else {
        base
    }
}

/// Build the argument list for the external tool's `new` invocation.
pub fn cargo_new_args(name: &str, project_type: &str) -> (r: Vec<String>)
    ensures
        string_views(r@) == spec_cargo_new_args(name@, project_type@),
{
    let mut v: Vec<String> = Vec::new();
    v.push(String::from_str("new"));
    v.push(name.to_owned());
    v.push(String::from_str("--name"));
    v.push(name.to_owned());
    if project_type.to_owned() == String::from_str("library") {
        v.push(String::from_str("--lib"));
    }
    proof {
        assert(string_views(v@) =~= spec_cargo_new_args(name@, project_type@));
    }
    v
}

/// Each generator's plan creates exactly the fixed skeleton of its project
/// kind — as a set, order irrelevant — whatever the name and options.
pub proof fn lemma_plan_dirs_are_fixed_skeleton(
    name: Seq<char>,
    typescript: bool,
    testing: bool,
    navigation: bool,
)
    ensures
        spec_react_plan(name, typescript, testing).0.to_set() == spec_react_structure().to_set(),
        spec_react_native_plan(name, typescript, navigation).0.to_set()
            == spec_react_native_structure().to_set(),
        spec_react_plan(name, typescript, testing).0 == spec_react_structure(),
        spec_react_native_plan(name, typescript, navigation).0 == spec_react_native_structure(),
{
}

/// A compiler configuration file is planned exactly when the typed language
/// is chosen, for the web and the mobile generator alike.
pub proof fn lemma_tsconfig_exactly_when_typed(
    name: Seq<char>,
    typescript: bool,
    testing: bool,
    navigation: bool,
)
    ensures
        (exists|i: int|
            0 <= i < spec_react_files(name, typescript, testing).len()
                && #[trigger] spec_react_files(name, typescript, testing)[i].0
                == "tsconfig.json"@) <==> typescript,
        (exists|i: int|
            0 <= i < spec_react_native_files(name, typescript, navigation).len()
                && #[trigger] spec_react_native_files(name, typescript, navigation)[i].0
                == "tsconfig.json"@) <==> typescript,
{
    reveal_strlit("tsconfig.json");
    reveal_strlit("package.json");
    reveal_strlit("src/App.");
    reveal_strlit("src/main.");
    reveal_strlit("src/App.css");
    reveal_strlit("src/index.css");
    reveal_strlit("tsx");
    reveal_strlit("jsx");
    let rf = spec_react_files(name, typescript, testing);
    let nf = spec_react_native_files(name, typescript, navigation);
    if typescript {
        assert(rf[1].0 == "tsconfig.json"@);
        assert(nf[1].0 == "tsconfig.json"@);
    } else {
        assert("package.json"@.len() == 12);
        assert("tsconfig.json"@.len() == 13);
        assert(("src/App."@ + spec_ext(typescript)).len() == 11);
        assert(("src/main."@ + spec_ext(typescript)).len() == 12);
        assert("src/App.css"@.len() == 11);
        assert("src/index.css"@.len() == 13);
        assert("src/index.css"@[0] == 's');
        assert("tsconfig.json"@[0] == 't');
        assert forall|i: int| 0 <= i < rf.len() implies #[trigger] rf[i].0 != "tsconfig.json"@ by {
            assert(rf[0].0 == "package.json"@);
            assert(rf[1].0 == "src/App."@ + spec_ext(typescript));
            assert(rf[2].0 == "src/main."@ + spec_ext(typescript));
            assert(rf[3].0 == "src/App.css"@);
            assert(rf[4].0 == "src/index.css"@);
        }
        assert forall|i: int| 0 <= i < nf.len() implies #[trigger] nf[i].0 != "tsconfig.json"@ by {
            assert(nf[0].0 == "package.json"@);
            assert(nf[1].0 == "src/App."@ + spec_ext(typescript));
        }
    }
}

/// A library project is requested from the external tool with the library
/// flag, as the last argument; any other project type passes no flag and the
/// argument list is the fixed four-element `new` invocation.
pub proof fn lemma_cargo_args_library_flag(name: Seq<char>, project_type: Seq<char>)
    ensures
        project_type == "library"@ ==> spec_cargo_new_args(name, project_type).last() == "--lib"@
            && spec_cargo_new_args(name, project_type).contains("--lib"@),
        project_type != "library"@ ==> spec_cargo_new_args(name, project_type) == seq![
            "new"@,
            name,
            "--name"@,
            name,
        ],
{
    if project_type == "library"@ {
        let args = spec_cargo_new_args(name, project_type);
        assert(args[4] == "--lib"@);
        assert(args.contains("--lib"@));
    }
}

} // verus!
