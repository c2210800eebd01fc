use vstd::prelude::*;

verus! {

/// A package version.
#[derive(Debug, Clone, Copy, PartialEq, Eq, Hash)]
pub struct PackageVersion {
    pub major: u32,
    pub minor: u32,
    pub patch: u32,
}

/// A package: namespace, name and version.
#[derive(Debug)]
pub struct PackageSpec {
    pub namespace: String,
    pub name: String,
    pub version: PackageVersion,
}

/// The mathematical value of a package specification.
pub type PackageView = (Seq<char>, Seq<char>, u32, u32, u32);

/// The mathematical value of a file identity.
pub struct FileIdView {
    pub package: Option<PackageView>,
    pub vpath: Seq<char>,
    pub fake: bool,
}

impl PackageSpec {
    pub open spec fn view(&self) -> PackageView {
        (self.namespace@, self.name@, self.version.major, self.version.minor, self.version.patch)
    }

    /// A copy with the same value.
    pub fn duplicate(&self) -> (r: PackageSpec)
        ensures
            r@ == self@,
    {
        PackageSpec {
            namespace: self.namespace.clone(),
            name: self.name.clone(),
            version: self.version,
        }
    }

    /// Whether two specifications are the same package.
    pub fn same(&self, other: &PackageSpec) -> (r: bool)
        ensures
            r == (self@ == other@),
    {
        self.namespace == other.namespace && self.name == other.name && self.version.major
            == other.version.major && self.version.minor == other.version.minor
            && self.version.patch == other.version.patch
    }
}

/// A logical file identity: a path inside the project or inside a package.
/// A fake identity (the in-memory main document) is never read from disk.
#[derive(Debug)]
pub struct FileId {
    pub package: Option<PackageSpec>,
    pub vpath: String,
    pub fake: bool,
}

impl FileId {
    pub open spec fn view(&self) -> FileIdView {
        FileIdView {
            package: match self.package {
                Some(p) => Some(p@),
                None => None,
            },
            vpath: self.vpath@,
            fake: self.fake,
        }
    }

    /// An identity inside the project root.
    pub fn new(vpath: String) -> (r: FileId)
        ensures
            r@ == (FileIdView { package: None, vpath: vpath@, fake: false }),
    {
        FileId { package: None, vpath, fake: false }
    }

    /// An identity inside a package.
    pub fn in_package(package: PackageSpec, vpath: String) -> (r: FileId)
        ensures
            r@ == (FileIdView { package: Some(package@), vpath: vpath@, fake: false }),
    {
        FileId { package: Some(package), vpath, fake: false }
    }

    /// An identity that stands for an in-memory document.
    pub fn new_fake(vpath: String) -> (r: FileId)
        ensures
            r@ == (FileIdView { package: None, vpath: vpath@, fake: true }),
    {
        FileId { package: None, vpath, fake: true }
    }

    /// A copy with the same value.
    pub fn duplicate(&self) -> (r: FileId)
        ensures
            r@ == self@,
    {
        let package = match &self.package {
            Some(p) => Some(p.duplicate()),
            None => None,
        };
        FileId { package, vpath: self.vpath.clone(), fake: self.fake }
    }

    /// Whether two identities are the same.
    pub fn same(&self, other: &FileId) -> (r: bool)
        ensures
            r == (self@ == other@),
    {
        let packages = match (&self.package, &other.package) {
            (Some(a), Some(b)) => a.same(b),
            (None, None) => true,
            _ => false,
        };
        packages && self.vpath == other.vpath && self.fake == other.fake
    }
}

} // verus!
