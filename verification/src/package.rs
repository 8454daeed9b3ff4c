//! Picks the package of a cargo workspace that is to be tested.
use vstd::prelude::*;
use vstd::utf8::*;
use crate::outside;
use crate::path;
use crate::text;

verus! {

/// A package, by what the choice looks at.
#[derive(Debug, PartialEq, Eq)]
pub struct Package {
    pub id: String,
    pub name: String,
    pub manifest_path: String,
}

/// A package as a value.
pub struct PackageView {
    pub id: Seq<char>,
    pub name: Seq<char>,
    pub manifest_path: Seq<char>,
}

impl View for Package {
    type V = PackageView;

    open spec fn view(&self) -> PackageView {
        PackageView { id: self.id@, name: self.name@, manifest_path: self.manifest_path@ }
    }
}

/// What `cargo metadata` tells: the packages, and the ids of those that belong to the workspace.
#[derive(Debug)]
pub struct Metadata {
    pub packages: Vec<Package>,
    pub workspace_members: Vec<String>,
}

/// Metadata as a value.
pub struct MetadataView {
    pub packages: Seq<PackageView>,
    pub workspace_members: Seq<Seq<char>>,
}

impl View for Metadata {
    type V = MetadataView;

    open spec fn view(&self) -> MetadataView {
        MetadataView {
            packages: views(self.packages@),
            workspace_members: self.workspace_members@.map_values(|id: String| id@),
        }
    }
}

/// The packages as values.
pub open spec fn views(packages: Seq<Package>) -> Seq<PackageView> {
    packages.map_values(|package: Package| package@)
}

/// Why the packages of the workspace are not known.
#[derive(Debug)]
pub enum WorkspaceError {
    /// The metadata is not UTF-8.
    NotUtf8(core::str::Utf8Error),
    /// The metadata is not what `cargo metadata` prints.
    NotMetadata(cargo_metadata::Error),
}

impl WorkspaceError {
    /// What went wrong, in words.
    pub open spec fn text(self) -> Seq<char> {
        match self {
            WorkspaceError::NotUtf8(_) =>
                "failed to convert `stdout` bytes from `cargo metadata` command to `str`"@,
            WorkspaceError::NotMetadata(_) => "failed to parse output of `cargo metadata`"@,
        }
    }

    /// What went wrong, in words.
    pub fn message(&self) -> (message: &'static str)
        ensures
            message@ == self.text(),
    {
        match self {
            WorkspaceError::NotUtf8(_) => "failed to convert `stdout` bytes from `cargo metadata` command to `str`",
            WorkspaceError::NotMetadata(_) => "failed to parse output of `cargo metadata`",
        }
    }

    /// The words of the whole failure, outermost first, down to the cause that the error holds.
    pub open spec fn texts(self) -> Seq<Seq<char>> {
        seq!["failed during initialization"@, self.text()]
    }

    /// The words of the whole failure, outermost first, down to the cause that the error holds.
    pub fn explain(&self) -> (texts: Vec<String>)
        ensures
            text::views(texts@) == self.texts(),
    {
        text::pair("failed during initialization".to_owned(), self.message())
    }
}

/// Why no package was picked.
#[derive(Debug, PartialEq, Eq)]
pub enum PackageError {
    /// The workspace has no packages.
    NoPackages,
    /// No package was asked for, and none is at the working directory.
    NotAtPwd,
    /// The package that was asked for does not exist, and none is at the working directory.
    NoFallback,
    /// The manifest of the package with this name is in no directory.
    NoParent(String),
}

impl PackageError {
    /// What went wrong, in words.
    pub open spec fn text(self) -> Seq<char> {
        match self {
            PackageError::NoPackages => "no packages found in current workspace"@,
            PackageError::NotAtPwd =>
                "cargo workspace package directory doesn't match pwd and no `-p` package option was provided"@,
            PackageError::NoFallback =>
                "failed to handle task synchronization while finding package in workspace"@,
            PackageError::NoParent(_) => "pkg manifest path doesn't have a parent dir"@,
        }
    }

    /// What went wrong, in words.
    pub fn message(&self) -> (message: &'static str)
        ensures
            message@ == self.text(),
    {
        match self {
            PackageError::NoPackages => "no packages found in current workspace",
            PackageError::NotAtPwd =>
                "cargo workspace package directory doesn't match pwd and no `-p` package option was provided",
            PackageError::NoFallback => "failed to handle task synchronization while finding package in workspace",
            PackageError::NoParent(_) => "pkg manifest path doesn't have a parent dir",
        }
    }

    /// The words of the whole failure in a working directory that is shown so, outermost first.
    pub open spec fn texts(self, pwd: Seq<char>) -> Seq<Seq<char>> {
        match self {
            PackageError::NoPackages => seq![self.text() + ": "@ + pwd],
            PackageError::NoParent(name) => seq!["failed while processing package: "@ + name@, self.text()],
            PackageError::NotAtPwd | PackageError::NoFallback => seq![self.text()],
        }
    }

    /// The words of the whole failure in a working directory that is shown so, outermost first.
    pub fn explain(&self, pwd: &str) -> (texts: Vec<String>)
        ensures
            text::views(texts@) == self.texts(pwd@),
    {
        match self {
            PackageError::NoParent(name) => text::pair(no_parent(name.as_str()), self.message()),
            PackageError::NoPackages => text::single(no_packages(pwd)),
            PackageError::NotAtPwd | PackageError::NoFallback => text::single(self.message().to_owned()),
        }
    }
}

/// Says that there are no packages in the workspace of a working directory that is shown so.
pub fn no_packages(pwd: &str) -> (message: String)
    ensures
        message@ == PackageError::NoPackages.text() + ": "@ + pwd@,
{
    text::around("no packages found in current workspace", ": ", pwd)
}

/// Says which package something is wrong with.
pub fn no_parent(name: &str) -> (message: String)
    ensures
        message@ == "failed while processing package: "@ + name@,
{
    text::joined("failed while processing package: ", name)
}

/// Says that the directory of a package, shown so, cannot be worked in.
pub fn unreachable_dir(dir: &str) -> (message: String)
    ensures
        message@ == "failed to set pwd to pkg manifest path: "@ + dir@,
{
    text::joined("failed to set pwd to pkg manifest path: ", dir)
}

/// The package belongs to the workspace.
pub open spec fn is_member(package: PackageView, members: Seq<Seq<char>>) -> bool {
    members.contains(package.id)
}

/// The packages that belong to the workspace, in order.
pub open spec fn workspace_packages(metadata: MetadataView) -> Seq<PackageView> {
    metadata.packages.filter(|package: PackageView| is_member(package, metadata.workspace_members))
}

/// Tells whether the text is in the list.
fn has_text(list: &Vec<String>, text: &String) -> (r: bool)
    ensures
        r == list@.map_values(|id: String| id@).contains(text@),
{
    let ghost ids = list@.map_values(|id: String| id@);
    let len: usize = list.len();
    let mut i: usize = 0;
    while i < len
        invariant
            i <= len == list@.len(),
            ids == list@.map_values(|id: String| id@),
            forall|k: int| 0 <= k < i ==> #[trigger] ids[k] != text@,
        decreases len - i,
    {
        if list[i] == *text {
            assert(ids[i as int] == text@);
            return true;
        }
        i += 1;
    }
    false
}

/// Keeps the packages that belong to the workspace.
pub fn members_of(metadata: Metadata) -> (r: Vec<Package>)
    ensures
        views(r@) == workspace_packages(metadata@),
{
    let ghost all = metadata@.packages;
    let ghost members = metadata@.workspace_members;
    let ghost keep = |package: PackageView| is_member(package, members);
    let packages: Vec<Package> = metadata.packages;
    let workspace_members: Vec<String> = metadata.workspace_members;
    let ghost source = packages@;
    let mut kept: Vec<Package> = Vec::new();
    proof {
        reveal(Seq::filter);
    }
    assert(views(kept@) =~= all.take(0).filter(keep));
    for package in it: packages
        invariant
            it.seq() == source,
            all == views(source),
            members == workspace_members@.map_values(|id: String| id@),
            keep == (|package: PackageView| is_member(package, members)),
            views(kept@) == all.take(it.index() as int).filter(keep),
    {
        proof {
            reveal(Seq::filter);
            let next = all.take(it.index() + 1);
            assert(next.drop_last() =~= all.take(it.index() as int));
            assert(next.last() == package@);
            assert(views(kept@.push(package)) =~= views(kept@).push(package@));
        }
        if has_text(&workspace_members, &package.id) {
            kept.push(package);
        }
    }
    assert(all.take(all.len() as int) =~= all);
    kept
}

/// The working directory is the package's, the one that its manifest is in.
pub open spec fn is_at(package: PackageView, pwd: Seq<u8>) -> bool {
    path::parent_of(encode_utf8(package.manifest_path)) matches Some(dir) && path::is_same(dir, pwd)
}

/// Tells whether the working directory is the package's.
fn at(package: &Package, pwd: &[u8]) -> (r: bool)
    ensures
        r == is_at(package@, pwd@),
{
    match path::parent(package.manifest_path.as_str().as_bytes()) {
        Some(dir) => path::same_path(dir.as_slice(), pwd),
        None => false,
    }
}

/// The package is the first that is called so.
pub open spec fn is_first_named(packages: Seq<PackageView>, name: Seq<char>, i: int) -> bool {
    &&& 0 <= i < packages.len()
    &&& packages[i].name == name
    &&& forall|k: int| 0 <= k < i ==> (#[trigger] packages[k]).name != name
}

/// The package is the first at the working directory.
pub open spec fn is_first_at(packages: Seq<PackageView>, pwd: Seq<u8>, i: int) -> bool {
    &&& 0 <= i < packages.len()
    &&& is_at(packages[i], pwd)
    &&& forall|k: int| 0 <= k < i ==> !is_at(#[trigger] packages[k], pwd)
}

/// The first package that is called so, if there is one.
pub open spec fn named(packages: Seq<PackageView>, name: Seq<char>) -> Option<int> {
    if exists|i: int| is_first_named(packages, name, i) {
        Some(choose|i: int| is_first_named(packages, name, i))
    } else {
        None
    }
}

/// The first package at the working directory, if there is one.
pub open spec fn at_pwd(packages: Seq<PackageView>, pwd: Seq<u8>) -> Option<int> {
    if exists|i: int| is_first_at(packages, pwd, i) {
        Some(choose|i: int| is_first_at(packages, pwd, i))
    } else {
        None
    }
}

/// The package that is picked: the only one there is; else the one asked for by name; else the one at the working
/// directory.
pub open spec fn selected(packages: Seq<PackageView>, name: Option<Seq<char>>, pwd: Seq<u8>) -> Result<
    int,
    PackageError,
> {
    if packages.len() == 0 {
        Err(PackageError::NoPackages)
    } else if packages.len() == 1 {
        Ok(0)
    } else {
        match name {
            Some(name) => match named(packages, name) {
                Some(i) => Ok(i),
                None => match at_pwd(packages, pwd) {
                    Some(i) => Ok(i),
                    None => Err(PackageError::NoFallback),
                },
            },
            None => match at_pwd(packages, pwd) {
                Some(i) => Ok(i),
                None => Err(PackageError::NotAtPwd),
            },
        }
    }
}

/// The first package that is called so, if there is one.
fn find_named(packages: &Vec<Package>, name: &String) -> (r: Option<usize>)
    ensures
        match r {
            Some(i) => named(views(packages@), name@) == Some(i as int),
            None => named(views(packages@), name@) is None,
        },
{
    let ghost all = views(packages@);
    let len: usize = packages.len();
    let mut i: usize = 0;
    while i < len
        invariant
            i <= len == packages@.len() == all.len(),
            all == views(packages@),
            forall|k: int| 0 <= k < i ==> (#[trigger] all[k]).name != name@,
        decreases len - i,
    {
        assert(all[i as int] == packages@[i as int]@);
        if packages[i].name == *name {
            assert(is_first_named(all, name@, i as int));
            assert(forall|k: int| is_first_named(all, name@, k) ==> k == i);
            return Some(i);
        }
        i += 1;
    }
    None
}

/// The first package at the working directory, if there is one.
fn find_at(packages: &Vec<Package>, pwd: &[u8]) -> (r: Option<usize>)
    ensures
        match r {
            Some(i) => at_pwd(views(packages@), pwd@) == Some(i as int),
            None => at_pwd(views(packages@), pwd@) is None,
        },
{
    let ghost all = views(packages@);
    let len: usize = packages.len();
    let mut i: usize = 0;
    while i < len
        invariant
            i <= len == packages@.len() == all.len(),
            all == views(packages@),
            forall|k: int| 0 <= k < i ==> !is_at(#[trigger] all[k], pwd@),
        decreases len - i,
    {
        assert(all[i as int] == packages@[i as int]@);
        if at(&packages[i], pwd) {
            assert(is_first_at(all, pwd@, i as int));
            assert(forall|k: int| is_first_at(all, pwd@, k) ==> k == i);
            return Some(i);
        }
        i += 1;
    }
    None
}

/// Tells whether there is a choice, so that it matters which package was asked for.
pub fn needs_choice(packages: &Vec<Package>) -> (r: bool)
    ensures
        r == (packages@.len() >= 2),
{
    packages.len() >= 2
}

/// The text, if there is one, as a value.
pub open spec fn option_view(text: Option<String>) -> Option<Seq<char>> {
    match text {
        Some(text) => Some(text@),
        None => None,
    }
}

/// Picks a package: the only one there is; else the one asked for by name; else the one at the working directory.
pub fn select_package(packages: &Vec<Package>, name: &Option<String>, pwd: &[u8]) -> (r: Result<usize, PackageError>)
    ensures
        match r {
            Ok(i) => i < packages@.len() && selected(views(packages@), option_view(*name), pwd@) == Ok::<
                int,
                PackageError,
            >(i as int),
            Err(e) => selected(views(packages@), option_view(*name), pwd@) == Err::<int, PackageError>(e),
        },
{
    proof {
        selected_is_in_the_workspace(views(packages@), option_view(*name), pwd@);
    }
    if packages.len() == 0 {
        Err(PackageError::NoPackages)
    } else if packages.len() == 1 {
        Ok(0)
    } else {
        match name {
            Some(name) => match find_named(packages, name) {
                Some(i) => Ok(i),
                None => match find_at(packages, pwd) {
                    Some(i) => Ok(i),
                    None => Err(PackageError::NoFallback),
                },
            },
            None => match find_at(packages, pwd) {
                Some(i) => Ok(i),
                None => Err(PackageError::NotAtPwd),
            },
        }
    }
}

/// The package that is picked is one of the workspace's.
pub proof fn selected_is_in_the_workspace(packages: Seq<PackageView>, name: Option<Seq<char>>, pwd: Seq<u8>)
    ensures
        selected(packages, name, pwd) matches Ok(i) ==> 0 <= i < packages.len(),
{
}

/// A package that is asked for by name is picked before the one at the working directory.
pub proof fn name_goes_first(packages: Seq<PackageView>, name: Seq<char>, pwd: Seq<u8>, i: int)
    requires
        packages.len() >= 2,
        0 <= i < packages.len(),
        packages[i].name == name,
    ensures
        selected(packages, Some(name), pwd) matches Ok(k) && packages[k].name == name,
{
    let first = first_index(packages, name, i);
    assert(is_first_named(packages, name, first));
}

proof fn first_index(packages: Seq<PackageView>, name: Seq<char>, i: int) -> (first: int)
    requires
        0 <= i < packages.len(),
        packages[i].name == name,
    ensures
        is_first_named(packages, name, first),
    decreases i,
{
    if exists|k: int| 0 <= k < i && (#[trigger] packages[k]).name == name {
        let k = choose|k: int| 0 <= k < i && (#[trigger] packages[k]).name == name;
        first_index(packages, name, k)
    } else {
        i
    }
}

/// The package at the working directory is picked if no package was asked for, or none is called so.
pub proof fn pwd_is_the_fallback(packages: Seq<PackageView>, name: Option<Seq<char>>, pwd: Seq<u8>, i: int)
    requires
        packages.len() >= 2,
        0 <= i < packages.len(),
        is_at(packages[i], pwd),
        name matches Some(name) ==> forall|k: int| 0 <= k < packages.len() ==> (#[trigger] packages[k]).name != name,
    ensures
        selected(packages, name, pwd) matches Ok(k) && is_at(packages[k], pwd),
{
    let first = first_index_at(packages, pwd, i);
    assert(is_first_at(packages, pwd, first));
    if let Some(name) = name {
        assert(named(packages, name) is None);
    }
}

proof fn first_index_at(packages: Seq<PackageView>, pwd: Seq<u8>, i: int) -> (first: int)
    requires
        0 <= i < packages.len(),
        is_at(packages[i], pwd),
    ensures
        is_first_at(packages, pwd, first),
    decreases i,
{
    if exists|k: int| 0 <= k < i && is_at(#[trigger] packages[k], pwd) {
        let k = choose|k: int| 0 <= k < i && is_at(#[trigger] packages[k], pwd);
        first_index_at(packages, pwd, k)
    } else {
        i
    }
}

/// The only package there is needs no name and no working directory to be picked.
pub proof fn only_package_is_the_default(package: PackageView, name: Option<Seq<char>>, pwd: Seq<u8>)
    ensures
        selected(seq![package], name, pwd) == Ok::<int, PackageError>(0),
{
}

/// The packages of the workspace, from what `cargo metadata` printed.
pub fn parse_workspace(stdout: &[u8]) -> (r: Result<Vec<Package>, WorkspaceError>)
    ensures
        match r {
            Ok(packages) => {
                &&& valid_utf8(stdout@)
                &&& outside::metadata_in(decode_utf8(stdout@)) matches Some(metadata)
                &&& views(packages@) == workspace_packages(metadata)
            },
            Err(e) => {
                ||| e is NotUtf8 && !valid_utf8(stdout@)
                ||| e is NotMetadata && valid_utf8(stdout@) && outside::metadata_in(decode_utf8(stdout@)) is None
            },
        },
{
    match core::str::from_utf8(stdout) {
        Err(e) => Err(WorkspaceError::NotUtf8(e)),
        Ok(text) => {
            proof {
                encode_utf8_decode_utf8(text@);
            }
            match outside::parse_metadata(text) {
                Err(e) => Err(WorkspaceError::NotMetadata(e)),
                Ok(metadata) => Ok(members_of(metadata)),
            }
        },
    }
}

/// The directory of the package, to work in.
pub fn finalize(package: &Package) -> (r: Result<Vec<u8>, PackageError>)
    ensures
        match r {
            Ok(dir) => path::parent_of(encode_utf8(package.manifest_path@)) == Some(dir@),
            Err(e) => {
                &&& e matches PackageError::NoParent(name) && name@ == package.name@
                &&& path::parent_of(encode_utf8(package.manifest_path@)) is None
            },
        },
{
    match path::parent(package.manifest_path.as_str().as_bytes()) {
        Some(dir) => Ok(dir),
        None => Err(PackageError::NoParent(package.name.clone())),
    }
}

/// Picks the package of the workspace that is to be tested, and finds its directory.
pub fn find_pkg(packages: Vec<Package>, name: Option<String>, pwd: Vec<u8>) -> (r: Result<
    (String, Vec<u8>),
    PackageError,
>)
    ensures
        match selected(views(packages@), option_view(name), pwd@) {
            Ok(i) => {
                let package = views(packages@)[i];
                match path::parent_of(encode_utf8(package.manifest_path)) {
                    Some(dir) => r matches Ok((name, place)) && name@ == package.name && place@ == dir,
                    None => r matches Err(PackageError::NoParent(name)) && name@ == package.name,
                }
            },
            Err(cause) => r matches Err(e) && e == cause,
        },
{
    match select_package(&packages, &name, pwd.as_slice()) {
        Ok(i) => {
            assert(views(packages@)[i as int] == packages@[i as int]@);
            match finalize(&packages[i]) {
                Ok(dir) => Ok((packages[i].name.clone(), dir)),
                Err(e) => Err(e),
            }
        },
        Err(e) => Err(e),
    }
}

/// The packages of the workspace are those whose id is one of its members': every such package, as often and in the
/// order that it is listed, and no other.
pub proof fn members_are_kept(metadata: MetadataView)
    ensures
        workspace_packages(metadata) == metadata.packages.filter(
            |package: PackageView| metadata.workspace_members.contains(package.id),
        ),
        forall|i: int|
            0 <= i < metadata.packages.len() && metadata.workspace_members.contains(metadata.packages[i].id)
                ==> workspace_packages(metadata).contains(#[trigger] metadata.packages[i]),
        forall|k: int|
            0 <= k < workspace_packages(metadata).len() ==> metadata.packages.contains(
                #[trigger] workspace_packages(metadata)[k],
            ) && metadata.workspace_members.contains(workspace_packages(metadata)[k].id),
{
    broadcast use vstd::seq_lib::group_filter_ensures;

    let keep = |package: PackageView| is_member(package, metadata.workspace_members);
    let listed = |package: PackageView| metadata.workspace_members.contains(package.id);
    assert(keep =~= listed);
    let kept = metadata.packages.filter(keep);
    assert forall|i: int|
        0 <= i < metadata.packages.len() && metadata.workspace_members.contains(
            metadata.packages[i].id,
        ) implies kept.contains(#[trigger] metadata.packages[i]) by {
        assert(keep(metadata.packages[i]));
    }
    assert forall|k: int| 0 <= k < kept.len() implies metadata.packages.contains(#[trigger] kept[k])
        && metadata.workspace_members.contains(kept[k].id) by {
        assert(kept.contains(kept[k]));
        metadata.packages.lemma_filter_contains_rev(keep, kept[k]);
        assert(keep(kept[k]));
    }
}

/// If all packages belong to the workspace, all are kept.
pub proof fn a_workspace_of_members_is_kept_whole(metadata: MetadataView)
    requires
        forall|i: int|
            0 <= i < metadata.packages.len() ==> metadata.workspace_members.contains(
                (#[trigger] metadata.packages[i]).id,
            ),
    ensures
        workspace_packages(metadata) == metadata.packages,
    decreases metadata.packages.len(),
{
    reveal(Seq::filter);
    let packages = metadata.packages;
    if packages.len() > 0 {
        let fewer = MetadataView { packages: packages.drop_last(), workspace_members: metadata.workspace_members };
        assert forall|i: int| 0 <= i < fewer.packages.len() implies fewer.workspace_members.contains(
            (#[trigger] fewer.packages[i]).id,
        ) by {
            assert(fewer.packages[i] == packages[i]);
        }
        a_workspace_of_members_is_kept_whole(fewer);
        assert(packages.last() == packages[packages.len() - 1]);
        assert(packages.drop_last().push(packages.last()) =~= packages);
    }
}

/// What is looked at of the packages, and of the name that was asked for, is what they hold.
pub proof fn views_hold_everything(metadata: Metadata, name: Option<String>)
    ensures
        name matches Some(text) ==> option_view(name) == Some(text@),
        name is None ==> option_view(name) is None,
        metadata@.packages.len() == metadata.packages@.len(),
        forall|i: int| #![trigger metadata.packages@[i]]
            0 <= i < metadata.packages@.len() ==> {
                &&& metadata@.packages[i].id == metadata.packages@[i].id@
                &&& metadata@.packages[i].name == metadata.packages@[i].name@
                &&& metadata@.packages[i].manifest_path == metadata.packages@[i].manifest_path@
                &&& views(metadata.packages@)[i] == metadata@.packages[i]
            },
        metadata@.workspace_members.len() == metadata.workspace_members@.len(),
        forall|i: int| #![trigger metadata.workspace_members@[i]]
            0 <= i < metadata.workspace_members@.len() ==> metadata@.workspace_members[i]
                == metadata.workspace_members@[i]@,
{
}

/// A package is at the working directory exactly if its manifest is in that directory.
pub proof fn a_package_is_where_its_manifest_is(package: PackageView, pwd: Seq<u8>)
    ensures
        is_at(package, pwd) <==> (path::parent_of(encode_utf8(package.manifest_path)) matches Some(dir)
            && path::is_same(dir, pwd)),
{
}

/// With two packages or more, the one that is picked is the first with the name that was asked for; if there is none,
/// or no name was asked for, the first in the working directory. Without one, it is told whether a name was asked for.
pub proof fn the_first_match_is_picked(packages: Seq<PackageView>, name: Option<Seq<char>>, pwd: Seq<u8>)
    requires
        packages.len() >= 2,
    ensures
        match selected(packages, name, pwd) {
            Ok(i) => {
                &&& 0 <= i < packages.len()
                &&& name == Some(packages[i].name) || is_at(packages[i], pwd)
                &&& forall|k: int|
                    0 <= k < packages.len() && name == Some((#[trigger] packages[k]).name) ==> i <= k && name == Some(
                        packages[i].name,
                    )
                &&& name != Some(packages[i].name) ==> forall|k: int|
                    0 <= k < packages.len() && is_at(#[trigger] packages[k], pwd) ==> i <= k
            },
            Err(e) => {
                &&& e == (if name is Some {
                    PackageError::NoFallback
                } else {
                    PackageError::NotAtPwd
                })
                &&& forall|k: int|
                    0 <= k < packages.len() ==> name != Some((#[trigger] packages[k]).name) && !is_at(packages[k], pwd)
            },
        },
{
    if let Some(wanted) = name {
        if exists|k: int| 0 <= k < packages.len() && (#[trigger] packages[k]).name == wanted {
            let k = choose|k: int| 0 <= k < packages.len() && (#[trigger] packages[k]).name == wanted;
            name_goes_first(packages, wanted, pwd, k);
            let first = first_index(packages, wanted, k);
            let i = named(packages, wanted)->0;
            assert(is_first_named(packages, wanted, first));
            assert(is_first_named(packages, wanted, i));
        } else {
            assert(named(packages, wanted) is None);
        }
    }
    if exists|k: int| 0 <= k < packages.len() && is_at(#[trigger] packages[k], pwd) {
        let k = choose|k: int| 0 <= k < packages.len() && is_at(#[trigger] packages[k], pwd);
        let first = first_index_at(packages, pwd, k);
        assert(is_first_at(packages, pwd, first));
        let i = at_pwd(packages, pwd)->0;
        assert(is_first_at(packages, pwd, i));
    } else {
        assert(at_pwd(packages, pwd) is None);
    }
}

/// Without packages there is nothing to pick.
pub proof fn nothing_is_picked_from_nothing(name: Option<Seq<char>>, pwd: Seq<u8>)
    ensures
        selected(Seq::empty(), name, pwd) == Err::<int, PackageError>(PackageError::NoPackages),
{
}

/// The words of a failure name the working directory, or the package.
pub proof fn failures_name_their_place(name: String, pwd: Seq<char>)
    ensures
        PackageError::NoPackages.texts(pwd) == seq!["no packages found in current workspace"@ + ": "@ + pwd],
        PackageError::NoParent(name).texts(pwd) == seq![
            "failed while processing package: "@ + name@,
            "pkg manifest path doesn't have a parent dir"@,
        ],
{
}

} // verus!
