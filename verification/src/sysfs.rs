//! A point-in-time snapshot of the sysfs USB device tree, and the attribute
//! reader working on it.
//!
//! Device lookup is a one-shot, read-only walk over kernel-exposed files.
//! The caller captures what that walk may touch — the device directories
//! with their attribute files, and the directory entries below the USB
//! device base — as plain values, and every decision the library makes over
//! the snapshot is verified.  Each attribute file is plain text terminated
//! by a single newline; an attribute that is absent from the snapshot stands
//! for any read failure (missing directory entry, permission, bad encoding).

use vstd::prelude::*;
use vstd::string::StringExecFns;

use crate::error::Error;
use crate::error::ErrorModel;
use crate::error::result_view;
use crate::text::str_eq;
use crate::text::strip_newline;
use crate::text::strip_trailing_newline;

verus! {

/// One attribute file of a device directory: its file name and its raw
/// content, newline included.
pub struct SysfsAttr {
    pub name: String,
    pub content: String,
}

/// One device directory, named by its full path (with a trailing `/`),
/// together with the attribute files it holds.
pub struct SysfsDir {
    pub path: String,
    pub attrs: Vec<SysfsAttr>,
}

/// A snapshot of the USB device tree: the device directories of interest and
/// the directory entries below the device base, written relative to the base
/// (for example `"3-1.2.1/3-1.2.1:1.0/ttyUSB3"`), in the order the
/// filesystem returned them.
pub struct SysfsSnapshot {
    pub dirs: Vec<SysfsDir>,
    pub entries: Vec<String>,
}

/// The mathematical shape of a [`SysfsAttr`].
pub struct AttrModel {
    pub name: Seq<char>,
    pub content: Seq<char>,
}

/// The mathematical shape of a [`SysfsDir`].
pub struct DirModel {
    pub path: Seq<char>,
    pub attrs: Seq<AttrModel>,
}

/// The mathematical shape of a [`SysfsSnapshot`].
pub struct SnapshotModel {
    pub dirs: Seq<DirModel>,
    pub entries: Seq<Seq<char>>,
}

impl DeepView for SysfsAttr {
    type V = AttrModel;

    open spec fn deep_view(&self) -> AttrModel {
        AttrModel { name: self.name@, content: self.content@ }
    }
}

impl DeepView for SysfsDir {
    type V = DirModel;

    open spec fn deep_view(&self) -> DirModel {
        DirModel { path: self.path@, attrs: self.attrs.deep_view() }
    }
}

impl DeepView for SysfsSnapshot {
    type V = SnapshotModel;

    open spec fn deep_view(&self) -> SnapshotModel {
        SnapshotModel { dirs: self.dirs.deep_view(), entries: self.entries.deep_view() }
    }
}

/// The raw content of the first attribute carrying the given name.
pub open spec fn find_attr(attrs: Seq<AttrModel>, name: Seq<char>) -> Option<Seq<char>>
    decreases attrs.len(),
{
    if attrs.len() == 0 {
        None
    } else if attrs[0].name == name {
        Some(attrs[0].content)
    } else {
        find_attr(attrs.drop_first(), name)
    }
}

/// The first device directory carrying the given path.
pub open spec fn find_dir(dirs: Seq<DirModel>, path: Seq<char>) -> Option<DirModel>
    decreases dirs.len(),
{
    if dirs.len() == 0 {
        None
    } else if dirs[0].path == path {
        Some(dirs[0])
    } else {
        find_dir(dirs.drop_first(), path)
    }
}

/// What reading an attribute yields: its content with the trailing newline
/// removed, or nothing when the attribute cannot be read.
pub open spec fn read_attr_model(dir: DirModel, name: Seq<char>) -> Option<Seq<char>> {
    match find_attr(dir.attrs, name) {
        Some(raw) => Some(strip_newline(raw)),
        None => None,
    }
}

/// The value of a readable attribute; meaningful only where
/// [`read_attr_model`] yields a value.
pub open spec fn attr_val(dir: DirModel, name: Seq<char>) -> Seq<char> {
    match read_attr_model(dir, name) {
        Some(v) => v,
        None => Seq::empty(),
    }
}

/// The first of the six identity attributes, in the order construction
/// reads them, that cannot be read — or nothing when all are readable.
pub open spec fn first_missing_attr(dir: DirModel) -> Option<Seq<char>> {
    if read_attr_model(dir, "product"@) is None {
        Some("product"@)
    } else if read_attr_model(dir, "manufacturer"@) is None {
        Some("manufacturer"@)
    } else if read_attr_model(dir, "idProduct"@) is None {
        Some("idProduct"@)
    } else if read_attr_model(dir, "idVendor"@) is None {
        Some("idVendor"@)
    } else if read_attr_model(dir, "busnum"@) is None {
        Some("busnum"@)
    } else if read_attr_model(dir, "devpath"@) is None {
        Some("devpath"@)
    } else {
        None
    }
}

/// The outcome of the fallible attribute read: the stripped content, or an
/// error naming the attribute and the directory it was looked for in.
pub open spec fn spec_read_attribute(dir: DirModel, name: Seq<char>) -> Result<
    Seq<char>,
    ErrorModel,
> {
    match read_attr_model(dir, name) {
        Some(v) => Ok(v),
        None => Err(ErrorModel::AttributeReadError { attribute: name, path: dir.path }),
    }
}

/// Searching an attribute list skips every leading entry of another name.
pub proof fn lemma_find_attr_skip(attrs: Seq<AttrModel>, name: Seq<char>, i: int)
    requires
        0 <= i <= attrs.len(),
        forall|m: int| 0 <= m < i ==> attrs[m].name != name,
    ensures
        find_attr(attrs, name) == find_attr(attrs.skip(i), name),
    decreases i,
{
    if i == 0 {
        assert(attrs.skip(0) =~= attrs);
    } else {
        lemma_find_attr_skip(attrs.drop_first(), name, i - 1);
        assert(attrs.drop_first().skip(i - 1) =~= attrs.skip(i));
    }
}

/// Searching the directory list skips every leading entry of another path.
pub proof fn lemma_find_dir_skip(dirs: Seq<DirModel>, path: Seq<char>, i: int)
    requires
        0 <= i <= dirs.len(),
        forall|m: int| 0 <= m < i ==> dirs[m].path != path,
    ensures
        find_dir(dirs, path) == find_dir(dirs.skip(i), path),
    decreases i,
{
    if i == 0 {
        assert(dirs.skip(0) =~= dirs);
    } else {
        lemma_find_dir_skip(dirs.drop_first(), path, i - 1);
        assert(dirs.drop_first().skip(i - 1) =~= dirs.skip(i));
    }
}

/// A found directory carries the path it was looked up by.
pub proof fn lemma_find_dir_path(dirs: Seq<DirModel>, path: Seq<char>)
    ensures
        find_dir(dirs, path) matches Some(dir) ==> dir.path == path,
    decreases dirs.len(),
{
    if dirs.len() > 0 {
        lemma_find_dir_path(dirs.drop_first(), path);
    }
}

/// Looks a device directory up by its path.
pub fn find_device_dir<'a>(fs: &'a SysfsSnapshot, path: &str) -> (r: Option<&'a SysfsDir>)
    ensures
        match r {
            Some(dir) => find_dir(fs.deep_view().dirs, path@) == Some(dir.deep_view()),
            None => find_dir(fs.deep_view().dirs, path@) is None,
        },
{
    let n = fs.dirs.len();
    let mut i: usize = 0;
    while i < n
        invariant
            i <= n,
            n == fs.dirs.len(),
            forall|m: int| 0 <= m < i ==> fs.dirs.deep_view()[m].path != path@,
        decreases n - i,
    {
        proof {
            assert(fs.dirs.deep_view()[i as int] == fs.dirs[i as int].deep_view());
        }
        if str_eq(fs.dirs[i].path.as_str(), path) {
            proof {
                lemma_find_dir_skip(fs.deep_view().dirs, path@, i as int);
                assert(fs.deep_view().dirs.skip(i as int)[0] == fs.dirs.deep_view()[i as int]);
            }
            return Some(&fs.dirs[i]);
        }
        i += 1;
    }
    proof {
        lemma_find_dir_skip(fs.deep_view().dirs, path@, n as int);
        assert(fs.deep_view().dirs.skip(n as int) =~= Seq::<DirModel>::empty());
    }
    None
}

/// Reads one identity attribute of a device directory: the first attribute
/// file of that name, with its trailing newline removed.  Fails with an
/// error naming the attribute and the directory when no such file can be
/// read.
pub fn read_attribute(dir: &SysfsDir, name: &str) -> (r: Result<String, Error>)
    ensures
        result_view(r) == spec_read_attribute(dir.deep_view(), name@),
{
    let n = dir.attrs.len();
    let mut i: usize = 0;
    while i < n
        invariant
            i <= n,
            n == dir.attrs.len(),
            forall|m: int| 0 <= m < i ==> dir.attrs.deep_view()[m].name != name@,
        decreases n - i,
    {
        proof {
            assert(dir.attrs.deep_view()[i as int] == dir.attrs[i as int].deep_view());
        }
        if str_eq(dir.attrs[i].name.as_str(), name) {
            proof {
                lemma_find_attr_skip(dir.deep_view().attrs, name@, i as int);
                assert(dir.deep_view().attrs.skip(i as int)[0] == dir.attrs.deep_view()[
                    i as int
                ]);
            }
            return Ok(strip_trailing_newline(dir.attrs[i].content.as_str()));
        }
        i += 1;
    }
    proof {
        lemma_find_attr_skip(dir.deep_view().attrs, name@, n as int);
        assert(dir.deep_view().attrs.skip(n as int) =~= Seq::<AttrModel>::empty());
    }
    Err(Error::AttributeReadError { attribute: String::from_str(name), path: dir.path.clone() })
}

} // verus!
