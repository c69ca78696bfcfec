//! Validation and publication of the public script facade of a package.
//!
//! The facade is a pair of ordinary files that is copied unchanged into the
//! distribution directory. What the file system holds is handed in as facts; the
//! answers say what is wrong, or what to copy.

use crate::text;
use vstd::prelude::*;
use vstd::string::StringExecFns;

verus! {

/// The script that users import.
pub const FACADE_INDEX: &'static str = "Index.ets";

/// The declarations of that script.
pub const FACADE_DECLARATION: &'static str = "Index.d.ets";

/// What stands under a path.
#[derive(Clone, Copy, Debug, PartialEq, Eq, Structural)]
pub enum EntryKind {
    /// Nothing, or nothing that can be examined.
    Missing,
    /// An ordinary file.
    File,
    /// A directory, a link or a special file.
    Other,
}

/// A path, as it is shown to users, with what stands there.
#[derive(Debug, PartialEq, Eq)]
pub struct FacadeEntry {
    pub path: String,
    pub kind: EntryKind,
}

/// What is known of the two facade files in one directory.
#[derive(Debug, PartialEq, Eq)]
pub struct FacadeEntries {
    pub index: FacadeEntry,
    pub declaration: FacadeEntry,
}

/// Why a facade cannot be published.
#[derive(Debug, PartialEq, Eq)]
pub struct FacadeError {
    message: String,
}

impl View for FacadeError {
    type V = Seq<char>;

    closed spec fn view(&self) -> Seq<char> {
        self.message@
    }
}

impl FacadeError {
    fn new(message: String) -> (r: FacadeError)
        ensures
            r@ == message@,
    {
        FacadeError { message }
    }

    pub fn message(&self) -> (r: &str)
        ensures
            r@ == self@,
    {
        self.message.as_str()
    }
}

pub open spec fn no_directory_text(source_dir: Seq<char>) -> Seq<char> {
    "public facade directory does not exist or is not a directory: "@ + source_dir
}

pub open spec fn no_file_text(file_name: Seq<char>, path: Seq<char>) -> Seq<char> {
    "public facade requires "@ + file_name + " as an ordinary file: "@ + path
}

pub open spec fn conflict_text(path: Seq<char>) -> Seq<char> {
    "public facade destination conflict: "@ + path
        + " already exists; choose an empty dist or remove the existing facade"@
}

pub open spec fn copy_text(source: Seq<char>, destination: Seq<char>) -> Seq<char> {
    "copy public facade "@ + source + " to "@ + destination + " failed"@
}

pub open spec fn ambiguous_text(package_count: usize) -> Seq<char> {
    "--public-facade-dir is ambiguous for a workspace build selecting "@ + text::decimal(
        package_count as int,
    ) + " packages; pass --package to select exactly one package"@
}

/// The error for a facade directory, if it has one: both files have to be
/// ordinary files.
pub open spec fn source_fault(
    source_dir: Seq<char>,
    is_dir: bool,
    entries: FacadeEntries,
) -> Option<Seq<char>> {
    if !is_dir {
        Some(no_directory_text(source_dir))
    } else if entries.index.kind !is File {
        Some(no_file_text(FACADE_INDEX@, entries.index.path@))
    } else if entries.declaration.kind !is File {
        Some(no_file_text(FACADE_DECLARATION@, entries.declaration.path@))
    } else {
        None
    }
}

/// The error for a destination, if it has one: neither file may be there.
pub open spec fn destination_fault(entries: FacadeEntries) -> Option<Seq<char>> {
    if entries.index.kind !is Missing {
        Some(conflict_text(entries.index.path@))
    } else if entries.declaration.kind !is Missing {
        Some(conflict_text(entries.declaration.path@))
    } else {
        None
    }
}

fn no_file(file_name: &str, path: &str) -> (r: FacadeError)
    ensures
        r@ == no_file_text(file_name@, path@),
{
    let mut out: String = "public facade requires ".to_owned();
    out.append(file_name);
    out.append(" as an ordinary file: ");
    out.append(path);
    FacadeError::new(out)
}

fn conflict(path: &str) -> (r: FacadeError)
    ensures
        r@ == conflict_text(path@),
{
    let mut out: String = "public facade destination conflict: ".to_owned();
    out.append(path);
    out.append(" already exists; choose an empty dist or remove the existing facade");
    FacadeError::new(out)
}

/// The failure to copy one of the files.
pub fn copy_failed(source: &str, destination: &str) -> (r: FacadeError)
    ensures
        r@ == copy_text(source@, destination@),
{
    let mut out: String = "copy public facade ".to_owned();
    out.append(source);
    out.append(" to ");
    out.append(destination);
    out.append(" failed");
    FacadeError::new(out)
}

/// A facade directory that holds both files.
#[derive(Debug, PartialEq, Eq)]
pub struct PublicFacade {
    source_dir: String,
}

impl View for PublicFacade {
    type V = Seq<char>;

    closed spec fn view(&self) -> Seq<char> {
        self.source_dir@
    }
}

impl PublicFacade {
    /// Accepts a directory that holds both files. Neither is looked into.
    pub fn from_dir(source_dir: String, is_dir: bool, entries: &FacadeEntries) -> (r: Result<
        PublicFacade,
        FacadeError,
    >)
        ensures
            match source_fault(source_dir@, is_dir, *entries) {
                Some(fault) => r matches Err(error) && error@ == fault,
                None => r matches Ok(facade) && facade@ == source_dir@,
            },
    {
        if !is_dir {
            let mut out: String =
                "public facade directory does not exist or is not a directory: ".to_owned();
            out.append(source_dir.as_str());
            return Err(FacadeError::new(out));
        }
        if !matches!(entries.index.kind, EntryKind::File) {
            return Err(no_file(FACADE_INDEX, entries.index.path.as_str()));
        }
        if !matches!(entries.declaration.kind, EntryKind::File) {
            return Err(no_file(FACADE_DECLARATION, entries.declaration.path.as_str()));
        }
        Ok(PublicFacade { source_dir })
    }

    pub fn source_dir(&self) -> (r: &str)
        ensures
            r@ == self@,
    {
        self.source_dir.as_str()
    }

    /// Accepts a destination that holds neither file, so that nothing of another
    /// generation is overwritten.
    pub fn validate_destination(&self, entries: &FacadeEntries) -> (r: Result<(), FacadeError>)
        ensures
            match destination_fault(*entries) {
                Some(fault) => r matches Err(error) && error@ == fault,
                None => r is Ok,
            },
    {
        if !matches!(entries.index.kind, EntryKind::Missing) {
            return Err(conflict(entries.index.path.as_str()));
        }
        if !matches!(entries.declaration.kind, EntryKind::Missing) {
            return Err(conflict(entries.declaration.path.as_str()));
        }
        Ok(())
    }

    /// The names of the files to copy from the facade directory to the
    /// destination, in order. The destination is validated again, so nothing is
    /// copied over a file that has appeared in the meantime.
    pub fn copy_to(&self, entries: &FacadeEntries) -> (r: Result<Vec<&'static str>, FacadeError>)
        ensures
            match destination_fault(*entries) {
                Some(fault) => r matches Err(error) && error@ == fault,
                None => r matches Ok(names) && file_names(names@) == facade_names(),
            },
    {
        match self.validate_destination(entries) {
            Err(error) => Err(error),
            Ok(_) => {
                let mut names: Vec<&'static str> = Vec::new();
                names.push(FACADE_INDEX);
                names.push(FACADE_DECLARATION);
                assert(file_names(names@) =~= facade_names());
                Ok(names)
            },
        }
    }
}

/// The names of the facade files.
pub open spec fn facade_names() -> Seq<Seq<char>> {
    seq![FACADE_INDEX@, FACADE_DECLARATION@]
}

pub open spec fn file_names(names: Seq<&'static str>) -> Seq<Seq<char>> {
    names.map_values(|name: &'static str| name@)
}

/// One facade directory describes one package: a facade together with several
/// packages is ambiguous.
pub fn validate_workspace_selection(facade: Option<&PublicFacade>, package_count: usize) -> (r:
    Result<(), FacadeError>)
    ensures
        if facade is Some && package_count > 1 {
            r matches Err(error) && error@ == ambiguous_text(package_count)
        } else {
            r is Ok
        },
{
    if facade.is_some() && package_count > 1 {
        let mut out: String =
            "--public-facade-dir is ambiguous for a workspace build selecting ".to_owned();
        text::push_decimal(&mut out, package_count as u64);
        out.append(" packages; pass --package to select exactly one package");
        return Err(FacadeError::new(out));
    }
    Ok(())
}

/// A directory by file name, after the named files were copied into it.
pub open spec fn published(
    names: Seq<Seq<char>>,
    source: Map<Seq<char>, Seq<u8>>,
    dist: Map<Seq<char>, Seq<u8>>,
) -> Map<Seq<char>, Seq<u8>>
    decreases names.len(),
{
    if names.len() == 0 {
        dist
    } else {
        published(names.drop_last(), source, dist).insert(names.last(), source[names.last()])
    }
}

/// Publishing gives both files the bytes that they have in the facade directory
/// and leaves every other file of the destination as it was.
pub proof fn publishing_keeps_every_byte(
    source: Map<Seq<char>, Seq<u8>>,
    dist: Map<Seq<char>, Seq<u8>>,
)
    ensures
        published(facade_names(), source, dist)[FACADE_INDEX@] == source[FACADE_INDEX@],
        published(facade_names(), source, dist)[FACADE_DECLARATION@] == source[FACADE_DECLARATION@],
        forall|name: Seq<char>|
            name != FACADE_INDEX@ && name != FACADE_DECLARATION@ ==> {
                &&& #[trigger] published(facade_names(), source, dist).dom().contains(name)
                    == dist.dom().contains(name)
                &&& published(facade_names(), source, dist)[name] == dist[name]
            },
{
    reveal_strlit("Index.ets");
    reveal_strlit("Index.d.ets");
    assert(FACADE_INDEX@.len() != FACADE_DECLARATION@.len());
    reveal_with_fuel(published, 3);
    assert(facade_names().drop_last() =~= seq![FACADE_INDEX@]);
    assert(facade_names().drop_last().drop_last() =~= Seq::<Seq<char>>::empty());
}

} // verus!
