use napi_ohos_uniffi_engine::facade::{
    copy_failed, validate_workspace_selection, EntryKind, FacadeEntries, FacadeEntry, PublicFacade,
};
use std::collections::BTreeMap;

/// A directory tree by path; a path with no file below it is a directory.
struct Tree {
    directories: Vec<String>,
    files: BTreeMap<String, Vec<u8>>,
}

impl Tree {
    fn new() -> Tree {
        Tree { directories: Vec::new(), files: BTreeMap::new() }
    }

    fn create_dir(&mut self, path: &str) {
        self.directories.push(path.to_string());
    }

    fn write(&mut self, path: &str, bytes: &[u8]) {
        self.files.insert(path.to_string(), bytes.to_vec());
    }

    fn read(&self, path: &str) -> &[u8] {
        &self.files[path]
    }

    fn entry(&self, directory: &str, name: &str) -> FacadeEntry {
        let path = format!("{}/{}", directory, name);
        let kind = if self.files.contains_key(&path) {
            EntryKind::File
        } else if self.directories.contains(&path) {
            EntryKind::Other
        } else {
            EntryKind::Missing
        };
        FacadeEntry { path, kind }
    }

    fn entries(&self, directory: &str) -> FacadeEntries {
        FacadeEntries {
            index: self.entry(directory, "Index.ets"),
            declaration: self.entry(directory, "Index.d.ets"),
        }
    }

    fn facade(&self, directory: &str) -> Result<PublicFacade, String> {
        PublicFacade::from_dir(
            directory.to_string(),
            self.directories.iter().any(|known| known == directory),
            &self.entries(directory),
        )
        .map_err(|error| error.message().to_string())
    }

    fn source(&mut self, ets: &[u8], d_ets: &[u8]) -> String {
        self.create_dir("source");
        self.write("source/Index.ets", ets);
        self.write("source/Index.d.ets", d_ets);
        "source".to_string()
    }

    fn copy(&mut self, facade: &PublicFacade, dist: &str) -> Result<(), String> {
        let names =
            facade.copy_to(&self.entries(dist)).map_err(|error| error.message().to_string())?;
        for name in names {
            let source = format!("{}/{}", facade.source_dir(), name);
            let bytes = self.files[&source].clone();
            self.write(&format!("{}/{}", dist, name), &bytes);
        }
        Ok(())
    }
}

#[test]
fn copies_the_pair_byte_for_byte() {
    let mut tree = Tree::new();
    let ets = b"export const \0 ark = '\xE4\xB8\xAD';\n";
    let d_ets = b"export declare const ark: string;\n";
    let source = tree.source(ets, d_ets);
    let facade = tree.facade(&source).expect("valid facade");
    tree.create_dir("dist");
    tree.write("dist/index.d.ts", b"raw native declaration");
    facade.validate_destination(&tree.entries("dist")).expect("empty destination");
    tree.copy(&facade, "dist").expect("copy facade");
    assert_eq!(tree.read("dist/Index.ets"), ets);
    assert_eq!(tree.read("dist/Index.d.ets"), d_ets);
    assert_eq!(tree.read("dist/index.d.ts"), b"raw native declaration");
}

#[test]
fn rejects_missing_index_ets() {
    let mut tree = Tree::new();
    tree.create_dir("source");
    tree.write("source/Index.d.ets", b"declare");
    let error = tree.facade("source").unwrap_err();
    assert!(error.contains("Index.ets"), "{error}");
    assert_eq!(error, "public facade requires Index.ets as an ordinary file: source/Index.ets");
}

#[test]
fn rejects_missing_index_d_ets() {
    let mut tree = Tree::new();
    tree.create_dir("source");
    tree.write("source/Index.ets", b"source");
    let error = tree.facade("source").unwrap_err();
    assert!(error.contains("Index.d.ets"), "{error}");
}

#[test]
fn rejects_a_directory_in_place_of_a_file() {
    let mut tree = Tree::new();
    let source = tree.source(b"source", b"declaration");
    tree.files.remove("source/Index.d.ets");
    tree.create_dir("source/Index.d.ets");
    assert_eq!(
        tree.facade(&source).unwrap_err(),
        "public facade requires Index.d.ets as an ordinary file: source/Index.d.ets"
    );
}

#[test]
fn rejects_missing_source_directory() {
    let tree = Tree::new();
    let error = tree.facade("missing").unwrap_err();
    assert!(error.contains("directory"), "{error}");
    assert_eq!(
        error,
        "public facade directory does not exist or is not a directory: missing"
    );
}

#[test]
fn rejects_destination_conflict_before_copy() {
    let mut tree = Tree::new();
    let source = tree.source(b"new", b"new types");
    let facade = tree.facade(&source).unwrap();
    tree.create_dir("dist");
    tree.write("dist/Index.ets", b"old");
    let error = tree.copy(&facade, "dist").unwrap_err();
    assert!(error.contains("destination conflict"), "{error}");
    assert_eq!(tree.read("dist/Index.ets"), b"old");
    assert!(!tree.files.contains_key("dist/Index.d.ets"));
}

#[test]
fn second_publication_conflicts_with_the_first() {
    let mut tree = Tree::new();
    let source = tree.source(b"new", b"new types");
    let facade = tree.facade(&source).unwrap();
    tree.create_dir("dist");
    tree.copy(&facade, "dist").unwrap();
    tree.files.remove("dist/Index.ets");
    assert_eq!(
        tree.copy(&facade, "dist").unwrap_err(),
        "public facade destination conflict: dist/Index.d.ets already exists; \
         choose an empty dist or remove the existing facade"
    );
}

#[test]
fn unspecified_facade_keeps_existing_behavior() {
    validate_workspace_selection(None, 4).expect("no facade means no new workspace restriction");
}

#[test]
fn rejects_ambiguous_workspace_selection() {
    let mut tree = Tree::new();
    let source = tree.source(b"source", b"declaration");
    let facade = tree.facade(&source).unwrap();
    let error = validate_workspace_selection(Some(&facade), 2).unwrap_err().message().to_string();
    assert!(error.contains("--package"), "{error}");
    assert_eq!(
        error,
        "--public-facade-dir is ambiguous for a workspace build selecting 2 packages; \
         pass --package to select exactly one package"
    );
    assert!(validate_workspace_selection(Some(&facade), 1).is_ok());
    assert!(validate_workspace_selection(Some(&facade), 0).is_ok());
}

#[test]
fn copy_failure_names_both_paths() {
    assert_eq!(
        copy_failed("a/Index.ets", "b/Index.ets").message(),
        "copy public facade a/Index.ets to b/Index.ets failed"
    );
}
