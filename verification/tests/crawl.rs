use wgsl_bindgen::crawl::{crawl_import_step, first_existing_candidate, ImportStep};
use wgsl_bindgen::deptree::{DependencyTree, MaxRecursionLimiter};
use wgsl_bindgen::source_file::SourceFile;
use wgsl_bindgen::types::{SourceFilePath, SourceModuleName};

fn tree_with(paths: &[&str]) -> DependencyTree {
    let mut tree = DependencyTree::new(None);
    for p in paths {
        tree.insert_source(SourceFile::create(SourceFilePath::new(p), None, String::new()));
    }
    tree
}

fn candidates(paths: &[&str]) -> Vec<(SourceModuleName, SourceFilePath)> {
    paths.iter().map(|p| (SourceModuleName::new(p), SourceFilePath::new(p))).collect()
}

fn deps_of(tree: &DependencyTree, path: &str) -> Vec<String> {
    let file = tree.parsed_files().iter().find(|f| f.file_path.as_str() == path).unwrap();
    file.direct_dependencies.iter().map(|p| p.as_str().to_string()).collect()
}

#[test]
fn first_existing_candidate_picks_the_earliest() {
    assert_eq!(first_existing_candidate(&vec![false, true, true]), Some(1));
    assert_eq!(first_existing_candidate(&vec![false, false]), None);
    assert_eq!(first_existing_candidate(&vec![]), None);
}

#[test]
fn import_without_existing_candidate_is_not_found() {
    let mut tree = tree_with(&["main.wgsl"]);
    let mut limiter = MaxRecursionLimiter::new();
    let step = crawl_import_step(
        &mut tree,
        &mut limiter,
        &SourceFilePath::new("main.wgsl"),
        1,
        "import package::a;",
        &candidates(&["a.wgsl", "pkg/a.wgsl"]),
        &vec![false, false],
    );
    assert!(matches!(step, ImportStep::NotFound));
    assert!(deps_of(&tree, "main.wgsl").is_empty());
    assert!(limiter.visited_files().is_empty());
}

#[test]
fn import_resolves_to_the_first_existing_candidate_and_is_crawled() {
    let mut tree = tree_with(&["main.wgsl"]);
    let mut limiter = MaxRecursionLimiter::new();
    let step = crawl_import_step(
        &mut tree,
        &mut limiter,
        &SourceFilePath::new("main.wgsl"),
        3,
        "import package::a;",
        &candidates(&["a.wgsl", "pkg/a.wgsl", "lib/a.wgsl"]),
        &vec![false, true, true],
    );
    match step {
        ImportStep::Crawl(module, path) => {
            assert_eq!(module.as_str(), "pkg/a.wgsl");
            assert_eq!(path.as_str(), "pkg/a.wgsl");
        }
        _ => panic!("expected a crawl"),
    }
    assert_eq!(deps_of(&tree, "main.wgsl"), vec!["pkg/a.wgsl"]);
    let visited = limiter.visited_files();
    assert_eq!(visited, vec![("main.wgsl".to_string(), 3, "import package::a;".to_string())]);
}

#[test]
fn import_of_a_parsed_file_is_recorded_and_done() {
    let mut tree = tree_with(&["main.wgsl", "a.wgsl"]);
    let mut limiter = MaxRecursionLimiter::new();
    let step = crawl_import_step(
        &mut tree,
        &mut limiter,
        &SourceFilePath::new("main.wgsl"),
        1,
        "import package::a;",
        &candidates(&["a.wgsl"]),
        &vec![true],
    );
    assert!(matches!(step, ImportStep::AlreadyParsed));
    assert_eq!(deps_of(&tree, "main.wgsl"), vec!["a.wgsl"]);
    assert!(limiter.visited_files().is_empty());
}

#[test]
fn too_deep_a_chain_of_imports_stops_the_crawl() {
    let mut tree = tree_with(&["main.wgsl"]);
    let mut limiter = MaxRecursionLimiter::new();
    for line in 0..16 {
        limiter.push("main.wgsl", line, "import package::main;");
    }
    let step = crawl_import_step(
        &mut tree,
        &mut limiter,
        &SourceFilePath::new("main.wgsl"),
        16,
        "import package::main;",
        &candidates(&["main.wgsl"]),
        &vec![true],
    );
    match step {
        ImportStep::RecursionLimit(text) => {
            assert!(text.starts_with("\nmain.wgsl:16: import package::main;\nmain.wgsl:15: import package::main;"));
        }
        _ => panic!("expected the recursion limit"),
    }
    assert_eq!(deps_of(&tree, "main.wgsl"), vec!["main.wgsl"]);
}
