use wgsl_bindgen::deptree::{DependencyTree, MaxRecursionLimiter};
use wgsl_bindgen::source_file::SourceFile;
use wgsl_bindgen::types::{ImportPathPart, SourceFilePath};

fn source(path: &str, content: &str) -> SourceFile {
    SourceFile::create(SourceFilePath::new(path), None, content.to_string())
}

fn paths(set: &indexmap::IndexSet<SourceFilePath, fxhash::FxBuildHasher>) -> Vec<String> {
    set.iter().map(|p| p.as_str().to_string()).collect()
}

#[test]
fn source_file_normalizes_line_endings_and_collects_imports() {
    let file = source("a.wgsl", "import package::b;\r\nimport package::c::{x, y};\rfn main() {}\r\n");
    assert_eq!(file.content, "import package::b;\nimport package::c::{x, y};\nfn main() {}\n");
    assert_eq!(file.imports.len(), 2);
    assert_eq!(file.imports[1].source_location.line_number, 2);
    let parts: Vec<ImportPathPart> = file.get_import_path_parts().into_iter().collect();
    assert_eq!(parts, vec![ImportPathPart::new("b"), ImportPathPart::new("c")]);
    assert!(file.direct_dependencies.is_empty());
}

#[test]
fn direct_dependencies_are_kept_once() {
    let mut file = source("a.wgsl", "");
    file.add_direct_dependency(SourceFilePath::new("b.wgsl"));
    file.add_direct_dependency(SourceFilePath::new("c.wgsl"));
    file.add_direct_dependency(SourceFilePath::new("b.wgsl"));
    assert_eq!(paths(&file.direct_dependencies), vec!["b.wgsl", "c.wgsl"]);
}

fn sample_tree() -> DependencyTree {
    // main -> a -> c, main -> b -> c
    let mut tree = DependencyTree::new(None);
    tree.add_entry_point(SourceFilePath::new("main.wgsl"));
    for name in ["main.wgsl", "a.wgsl", "b.wgsl", "c.wgsl"] {
        tree.insert_source(source(name, ""));
    }
    tree.add_direct_dependency(&SourceFilePath::new("main.wgsl"), SourceFilePath::new("a.wgsl"));
    tree.add_direct_dependency(&SourceFilePath::new("main.wgsl"), SourceFilePath::new("b.wgsl"));
    tree.add_direct_dependency(&SourceFilePath::new("a.wgsl"), SourceFilePath::new("c.wgsl"));
    tree.add_direct_dependency(&SourceFilePath::new("b.wgsl"), SourceFilePath::new("c.wgsl"));
    tree
}

#[test]
fn full_dependencies_come_after_their_own_dependencies() {
    let tree = sample_tree();
    let deps = tree.get_full_dependency_for(&SourceFilePath::new("main.wgsl"));
    assert_eq!(paths(&deps), vec!["c.wgsl", "a.wgsl", "b.wgsl"]);
    let deps = tree.get_full_dependency_for(&SourceFilePath::new("a.wgsl"));
    assert_eq!(paths(&deps), vec!["c.wgsl"]);
    let deps = tree.get_full_dependency_for(&SourceFilePath::new("unknown.wgsl"));
    assert!(deps.is_empty());
}

#[test]
fn tree_lists_parsed_files_and_entry_points() {
    let mut tree = sample_tree();
    tree.insert_source(source("a.wgsl", "import package::other;"));
    assert_eq!(
        paths(&tree.all_files_including_dependencies()),
        vec!["main.wgsl", "a.wgsl", "b.wgsl", "c.wgsl"]
    );
    assert!(tree.contains_source(&SourceFilePath::new("c.wgsl")));
    assert!(!tree.contains_source(&SourceFilePath::new("d.wgsl")));
    let results = tree.get_source_files_with_full_dependencies();
    assert_eq!(results.len(), 1);
    assert_eq!(results[0].source_file.as_str(), "main.wgsl");
    assert_eq!(paths(&results[0].full_dependencies), vec!["c.wgsl", "a.wgsl", "b.wgsl"]);
}

#[test]
fn recursion_limiter_reports_the_chain() {
    let mut limiter = MaxRecursionLimiter::new();
    for i in 0..16 {
        limiter.push("a.wgsl", i, "import package::a;");
    }
    assert!(!limiter.exceeds_max_depth());
    limiter.push("b.wgsl", 99, "import package::b;");
    assert!(limiter.exceeds_max_depth());
    let visited = limiter.visited_files();
    assert_eq!(visited.len(), 17);
    assert_eq!(visited[0], ("b.wgsl".to_string(), 99, "import package::b;".to_string()));
    limiter.pop();
    assert!(!limiter.exceeds_max_depth());
}

#[test]
fn recursion_limiter_text_lists_latest_first() {
    let mut limiter = MaxRecursionLimiter::new();
    assert_eq!(limiter.visited_files_text(), "");
    limiter.push("main.wgsl", 3, "import a;");
    limiter.push("a.wgsl", 12, "import b;");
    assert_eq!(limiter.visited_files_text(), "\na.wgsl:12: import b;\nmain.wgsl:3: import a;");
    limiter.pop();
    limiter.pop();
    limiter.pop();
    assert_eq!(limiter.visited_files_text(), "");
}

#[test]
fn dependency_tree_keeps_its_module_prefix() {
    let tree = DependencyTree::new(Some("shaders".to_string()));
    assert_eq!(tree.module_prefix(), Some("shaders".to_string()));
    assert_eq!(DependencyTree::new(None).module_prefix(), None);
}

#[test]
fn contents_hash_covers_options_version_and_file_texts() {
    let mut tree = DependencyTree::new(None);
    tree.insert_source(SourceFile::create(SourceFilePath::new("main.wgsl"), None, "fn main() {}".to_string()));
    tree.insert_source(SourceFile::create(SourceFilePath::new("a.wgsl"), None, "fn a() {}".to_string()));
    let hash = wgsl_bindgen::contents_hash::get_contents_hash("Options { x: 1 }", "0.21.2", &tree);
    let mut hasher = blake3::Hasher::new();
    hasher.update(b"Options { x: 1 }0.21.2fn main() {}fn a() {}");
    assert_eq!(hash, hasher.finalize().to_hex().as_str());
    assert_eq!(hash.len(), 64);
    let other = wgsl_bindgen::contents_hash::get_contents_hash("Options { x: 2 }", "0.21.2", &tree);
    assert_ne!(hash, other);
}

#[test]
fn a_file_is_parsed_once() {
    let mut tree = DependencyTree::new(None);
    tree.insert_source(source("main.wgsl", "fn first() {}"));
    tree.insert_source(source("main.wgsl", "fn second() {}"));
    tree.add_direct_dependency(&SourceFilePath::new("main.wgsl"), SourceFilePath::new("a.wgsl"));
    assert_eq!(tree.parsed_files().len(), 1);
    assert_eq!(tree.parsed_files()[0].content, "fn first() {}");
    assert_eq!(paths(&tree.parsed_files()[0].direct_dependencies), vec!["a.wgsl"]);
}

#[test]
fn full_dependencies_of_a_cycle_end() {
    let mut tree = DependencyTree::new(None);
    tree.insert_source(source("a.wgsl", ""));
    tree.insert_source(source("b.wgsl", ""));
    tree.add_direct_dependency(&SourceFilePath::new("a.wgsl"), SourceFilePath::new("b.wgsl"));
    tree.add_direct_dependency(&SourceFilePath::new("b.wgsl"), SourceFilePath::new("a.wgsl"));
    let deps = tree.get_full_dependency_for(&SourceFilePath::new("a.wgsl"));
    assert_eq!(paths(&deps), vec!["b.wgsl", "a.wgsl"]);
}
