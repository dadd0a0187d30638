//! The USB device record: identity attributes, classification and — for
//! serial-capable devices — the resolved `/dev/` node.
//!
//! A [`Device`] is built in one atomic construction over a sysfs snapshot.
//! The steps run in a fixed order — directory found, the four identity
//! attributes read, `busnum` and `devpath` joined into the address,
//! classification for the declared category, tty resolution where that
//! category is [`DeviceType::Tty`] — and the first failing step aborts the
//! whole construction.  No partially populated record is ever handed out,
//! and the record is immutable once built.

use vstd::prelude::*;
use vstd::string::StrSliceExecFns;
use vstd::string::StringExecFns;

use crate::address::address_to_path;
use crate::address::joined_address;
use crate::address::path_of_address;
use crate::address::path_to_address;
use crate::error::Error;
use crate::error::ErrorModel;
use crate::error::result_view;
use crate::resolve::entry_matches_acm;
use crate::resolve::entry_matches_usb;
use crate::resolve::find_acm;
use crate::resolve::is_acm_entry;
use crate::resolve::is_usb_entry;
use crate::resolve::lemma_basename_suffix;
use crate::resolve::lemma_find_acm_skip;
use crate::resolve::lemma_find_usb_skip;
use crate::resolve::lemma_matched_entry_basename;
use crate::resolve::lemma_resolve_none;
use crate::resolve::lemma_resolved_node_nonempty;
use crate::resolve::no_slash_in;
use crate::resolve::resolve_tty;
use crate::resolve::spec_tty_node;
use crate::sysfs::DirModel;
use crate::sysfs::SnapshotModel;
use crate::sysfs::SysfsSnapshot;
use crate::sysfs::attr_val;
use crate::sysfs::find_device_dir;
use crate::sysfs::find_dir;
use crate::sysfs::first_missing_attr;
use crate::sysfs::lemma_find_dir_path;
use crate::sysfs::read_attribute;
use crate::text::str_eq;

verus! {

/// The category a caller declares for a device: a serial line or a
/// debugger.  The library never infers the category; it only resolves the
/// sub-classification within the declared one.
#[derive(Clone, Copy, Debug)]
pub enum DeviceType {
    Tty,
    Debugger,
}

/// The sub-model of a debugger, resolved from the known-device table.
#[derive(Clone, Copy, Debug, PartialEq, Eq, Structural)]
pub enum DebuggerType {
    StLinkv2,
    AtmelCmsisDap,
    Unknown,
}

/// What a constructed device is: a serial device carries the node to open,
/// a debugger carries its sub-model, and neither can carry the other's
/// payload.
#[derive(Debug)]
pub enum DeviceRole {
    Tty { tty_path: String },
    Debugger { debugger_type: DebuggerType },
}

/// A fully populated, immutable USB device record.
#[derive(Debug)]
pub struct Device {
    pub product: String,
    pub manufacturer: String,
    pub id_product: String,
    pub id_vendor: String,
    pub address: String,
    pub role: DeviceRole,
}

/// The mathematical shape of a [`DeviceRole`].
pub enum RoleModel {
    Tty { tty_path: Seq<char> },
    Debugger { debugger_type: DebuggerType },
}

/// The mathematical shape of a [`Device`].
pub struct DeviceModel {
    pub product: Seq<char>,
    pub manufacturer: Seq<char>,
    pub id_product: Seq<char>,
    pub id_vendor: Seq<char>,
    pub address: Seq<char>,
    pub role: RoleModel,
}

impl DeepView for DeviceRole {
    type V = RoleModel;

    open spec fn deep_view(&self) -> RoleModel {
        match self {
            DeviceRole::Tty { tty_path } => RoleModel::Tty { tty_path: tty_path@ },
            DeviceRole::Debugger { debugger_type } => RoleModel::Debugger {
                debugger_type: *debugger_type,
            },
        }
    }
}

impl DeepView for Device {
    type V = DeviceModel;

    open spec fn deep_view(&self) -> DeviceModel {
        DeviceModel {
            product: self.product@,
            manufacturer: self.manufacturer@,
            id_product: self.id_product@,
            id_vendor: self.id_vendor@,
            address: self.address@,
            role: self.role.deep_view(),
        }
    }
}

/// The known-device table of debugger sub-models, keyed by the exact
/// vendor and product identifiers.
pub open spec fn debugger_of(id_vendor: Seq<char>, id_product: Seq<char>) -> Option<
    DebuggerType,
> {
    if id_vendor == "0483"@ && id_product == "3748"@ {
        Some(DebuggerType::StLinkv2)
    } else {
        None
    }
}

/// The address a device directory's own attributes spell.
pub open spec fn device_address(dir: DirModel) -> Seq<char> {
    joined_address(attr_val(dir, "busnum"@), attr_val(dir, "devpath"@))
}

/// The outcome of the whole construction over a snapshot: the populated
/// record, or the first failing step's error.
pub open spec fn spec_construct(
    fs: SnapshotModel,
    path: Seq<char>,
    device_type: DeviceType,
) -> Result<DeviceModel, ErrorModel> {
    match find_dir(fs.dirs, path) {
        None => Err(ErrorModel::PathNotFound { path }),
        Some(dir) => match first_missing_attr(dir) {
            Some(attribute) => Err(ErrorModel::AttributeReadError { attribute, path }),
            None => {
                let address = device_address(dir);
                match device_type {
                    DeviceType::Tty => match resolve_tty(address, fs.entries) {
                        None => Err(ErrorModel::TtyResolutionError { address }),
                        Some(tty_path) => Ok(
                            DeviceModel {
                                product: attr_val(dir, "product"@),
                                manufacturer: attr_val(dir, "manufacturer"@),
                                id_product: attr_val(dir, "idProduct"@),
                                id_vendor: attr_val(dir, "idVendor"@),
                                address,
                                role: RoleModel::Tty { tty_path },
                            },
                        ),
                    },
                    DeviceType::Debugger => match debugger_of(
                        attr_val(dir, "idVendor"@),
                        attr_val(dir, "idProduct"@),
                    ) {
                        None => Err(
                            ErrorModel::UnknownDebugger {
                                id_vendor: attr_val(dir, "idVendor"@),
                                id_product: attr_val(dir, "idProduct"@),
                            },
                        ),
                        Some(debugger_type) => Ok(
                            DeviceModel {
                                product: attr_val(dir, "product"@),
                                manufacturer: attr_val(dir, "manufacturer"@),
                                id_product: attr_val(dir, "idProduct"@),
                                id_vendor: attr_val(dir, "idVendor"@),
                                address,
                                role: RoleModel::Debugger { debugger_type },
                            },
                        ),
                    },
                }
            },
        },
    }
}

impl Device {
    /// Builds the device record for the directory at `path`, declared to be
    /// of the given category, from the snapshot.  The record's fields are
    /// the stripped attribute values and its address is
    /// `busnum + "-" + devpath`; the first failing step is reported and
    /// nothing partial is returned.  A serial device always carries a
    /// non-empty node path.
    pub fn from_path(path: &str, device_type: DeviceType, fs: &SysfsSnapshot) -> (r: Result<
        Device,
        Error,
    >)
        ensures
            result_view(r) == spec_construct(fs.deep_view(), path@, device_type),
            r matches Ok(d) ==> (d.role matches DeviceRole::Tty { tty_path } ==> tty_path@.len()
                > 0),
    {
        let dir = match find_device_dir(fs, path) {
            Some(dir) => dir,
            None => {
                return Err(Error::PathNotFound { path: String::from_str(path) });
            },
        };
        proof {
            lemma_find_dir_path(fs.deep_view().dirs, path@);
        }
        let product = match read_attribute(dir, "product") {
            Ok(v) => v,
            Err(e) => return Err(e),
        };
        let manufacturer = match read_attribute(dir, "manufacturer") {
            Ok(v) => v,
            Err(e) => return Err(e),
        };
        let id_product = match read_attribute(dir, "idProduct") {
            Ok(v) => v,
            Err(e) => return Err(e),
        };
        let id_vendor = match read_attribute(dir, "idVendor") {
            Ok(v) => v,
            Err(e) => return Err(e),
        };
        let address = match path_to_address(dir) {
            Ok(v) => v,
            Err(e) => return Err(e),
        };
        match device_type {
            DeviceType::Tty => {
                match Device::find_tty_path(address.as_str(), &fs.entries) {
                    Some(tty_path) => {
                        proof {
                            lemma_resolved_node_nonempty(address@, fs.deep_view().entries);
                        }
                        Ok(
                            Device {
                                product,
                                manufacturer,
                                id_product,
                                id_vendor,
                                address,
                                role: DeviceRole::Tty { tty_path },
                            },
                        )
                    },
                    None => Err(Error::TtyResolutionError { address }),
                }
            },
            DeviceType::Debugger => {
                match Device::determin_debugger_type(id_vendor.as_str(), id_product.as_str()) {
                    Some(debugger_type) => Ok(
                        Device {
                            product,
                            manufacturer,
                            id_product,
                            id_vendor,
                            address,
                            role: DeviceRole::Debugger { debugger_type },
                        },
                    ),
                    None => Err(Error::UnknownDebugger { id_vendor, id_product }),
                }
            },
        }
    }

    /// Builds the device record for an address: the lookup runs on the
    /// directory the address names under the fixed sysfs base.
    pub fn from_address(address: &str, device_type: DeviceType, fs: &SysfsSnapshot) -> (r: Result<
        Device,
        Error,
    >)
        ensures
            result_view(r) == spec_construct(
                fs.deep_view(),
                path_of_address(address@),
                device_type,
            ),
            r matches Ok(d) ==> (d.role matches DeviceRole::Tty { tty_path } ==> tty_path@.len()
                > 0),
    {
        let path = address_to_path(address);
        Device::from_path(path.as_str(), device_type, fs)
    }

    /// The resolved serial node of the device: empty for a debugger, which
    /// never carries one.
    pub fn get_tty_path(&self) -> (r: &str)
        ensures
            match self.role {
                DeviceRole::Tty { tty_path } => r@ == tty_path@,
                DeviceRole::Debugger { .. } => r@ == ""@,
            },
    {
        match &self.role {
            DeviceRole::Tty { tty_path } => tty_path.as_str(),
            DeviceRole::Debugger { .. } => "",
        }
    }

    /// Converts a matched sysfs entry to the corresponding `/dev/` node
    /// path: the entry's final segment behind the fixed node directory.
    /// Yields nothing for an entry without a final segment.
    pub fn tty_path_from_sysfs_path(path: &str) -> (r: Option<String>)
        ensures
            r.deep_view() == spec_tty_node(path@),
    {
        let n = path.unicode_len();
        let mut k: usize = n;
        while k > 0 && path.get_char(k - 1) != '/'
            invariant
                k <= n,
                n == path@.len(),
                no_slash_in(path@, k as int, n as int),
            decreases k,
        {
            k -= 1;
        }
        proof {
            lemma_basename_suffix(path@, k as int);
        }
        if k == n {
            None
        } else {
            let name = path.substring_char(k, n);
            Some(String::from_str("/dev/").concat(name))
        }
    }

    /// Looks for the serial device file assigned to the device among the
    /// snapshot's entries: every entry is tried against the nested ACM
    /// layout before any is tried against the flat USB layout, and within a
    /// layout the first entry in snapshot order wins.
    pub fn find_tty_path(address: &str, entries: &Vec<String>) -> (r: Option<String>)
        ensures
            r.deep_view() == resolve_tty(address@, entries.deep_view()),
    {
        let n = entries.len();
        let mut i: usize = 0;
        while i < n
            invariant
                i <= n,
                n == entries.len(),
                forall|m: int| 0 <= m < i ==> !is_acm_entry(address@, entries.deep_view()[m]),
            decreases n - i,
        {
            proof {
                assert(entries.deep_view()[i as int] == entries[i as int]@);
            }
            if entry_matches_acm(address, entries[i].as_str()) {
                proof {
                    lemma_find_acm_skip(address@, entries.deep_view(), i as int);
                    assert(entries.deep_view().skip(i as int)[0] == entries.deep_view()[
                        i as int
                    ]);
                    lemma_matched_entry_basename(address@, entries.deep_view()[i as int]);
                }
                return Device::tty_path_from_sysfs_path(entries[i].as_str());
            }
            i += 1;
        }
        proof {
            lemma_find_acm_skip(address@, entries.deep_view(), n as int);
            assert(entries.deep_view().skip(n as int) =~= Seq::<Seq<char>>::empty());
        }
        let mut i: usize = 0;
        while i < n
            invariant
                i <= n,
                n == entries.len(),
                find_acm(address@, entries.deep_view()) is None,
                forall|m: int| 0 <= m < i ==> !is_usb_entry(address@, entries.deep_view()[m]),
            decreases n - i,
        {
            proof {
                assert(entries.deep_view()[i as int] == entries[i as int]@);
            }
            if entry_matches_usb(address, entries[i].as_str()) {
                proof {
                    lemma_find_usb_skip(address@, entries.deep_view(), i as int);
                    assert(entries.deep_view().skip(i as int)[0] == entries.deep_view()[
                        i as int
                    ]);
                    lemma_matched_entry_basename(address@, entries.deep_view()[i as int]);
                }
                return Device::tty_path_from_sysfs_path(entries[i].as_str());
            }
            i += 1;
        }
        proof {
            lemma_find_usb_skip(address@, entries.deep_view(), n as int);
            assert(entries.deep_view().skip(n as int) =~= Seq::<Seq<char>>::empty());
        }
        None
    }

    /// Resolves the debugger sub-model of a vendor/product pair from the
    /// known-device table.
    pub fn determin_debugger_type(id_vendor: &str, id_product: &str) -> (r: Option<DebuggerType>)
        ensures
            r == debugger_of(id_vendor@, id_product@),
    {
        if str_eq(id_vendor, "0483") && str_eq(id_product, "3748") {
            Some(DebuggerType::StLinkv2)
        } else {
            None
        }
    }
}

/// Law: a device built from an address whose directory is consistent — its
/// `busnum` and `devpath` attributes join back to that address — reports
/// the address itself, under either declared category.
pub proof fn lemma_construct_keeps_address(
    fs: SnapshotModel,
    address: Seq<char>,
    device_type: DeviceType,
    d: DeviceModel,
)
    requires
        find_dir(fs.dirs, path_of_address(address)) matches Some(dir) && device_address(dir)
            == address,
        spec_construct(fs, path_of_address(address), device_type) == Ok::<
            DeviceModel,
            ErrorModel,
        >(d),
    ensures
        d.address == address,
{
}

/// Law: when the directory of a serial-declared device is present and
/// readable but no snapshot entry matches either layout, construction fails
/// with the resolution error naming the device's address — never with a
/// default or empty node.
pub proof fn lemma_unresolvable_tty_fails(fs: SnapshotModel, path: Seq<char>, dir: DirModel)
    requires
        find_dir(fs.dirs, path) == Some(dir),
        first_missing_attr(dir) is None,
        forall|i: int|
            0 <= i < fs.entries.len() ==> !is_acm_entry(device_address(dir), fs.entries[i]),
        forall|i: int|
            0 <= i < fs.entries.len() ==> !is_usb_entry(device_address(dir), fs.entries[i]),
    ensures
        spec_construct(fs, path, DeviceType::Tty) == Err::<DeviceModel, ErrorModel>(
            ErrorModel::TtyResolutionError { address: device_address(dir) },
        ),
{
    lemma_resolve_none(device_address(dir), fs.entries);
}

} // verus!
