//! The codec between a canonical `"<busnum>-<devpath>"` address and the
//! device directory it names.
//!
//! An address identifies a physical port position in the USB topology; its
//! directory lies under the fixed base `/sys/bus/usb/devices/`.  Encoding
//! joins base, address and a trailing `/`; decoding reads the `busnum` and
//! `devpath` attributes of the directory and joins them with a literal `-`.

use vstd::prelude::*;
use vstd::string::StringExecFns;

use crate::error::Error;
use crate::error::ErrorModel;
use crate::error::result_view;
use crate::sysfs::DirModel;
use crate::sysfs::SysfsDir;
use crate::sysfs::read_attr_model;
use crate::sysfs::read_attribute;

verus! {

/// The fixed directory below which the kernel exposes USB devices.
pub open spec fn sysfs_base() -> Seq<char> {
    "/sys/bus/usb/devices/"@
}

/// The device directory a given address names.
pub open spec fn path_of_address(address: Seq<char>) -> Seq<char> {
    sysfs_base() + address + "/"@
}

/// The canonical address formed from the `busnum` and `devpath` attributes.
pub open spec fn joined_address(busnum: Seq<char>, devpath: Seq<char>) -> Seq<char> {
    busnum + "-"@ + devpath
}

/// The outcome of decoding a device directory into its address: the joined
/// attribute values, or the first attribute read that fails.
pub open spec fn spec_path_to_address(dir: DirModel) -> Result<Seq<char>, ErrorModel> {
    match read_attr_model(dir, "busnum"@) {
        None => Err(ErrorModel::AttributeReadError { attribute: "busnum"@, path: dir.path }),
        Some(busnum) => match read_attr_model(dir, "devpath"@) {
            None => Err(
                ErrorModel::AttributeReadError { attribute: "devpath"@, path: dir.path },
            ),
            Some(devpath) => Ok(joined_address(busnum, devpath)),
        },
    }
}

/// Formats the device directory of an address.
pub fn address_to_path(address: &str) -> (r: String)
    ensures
        r@ == path_of_address(address@),
{
    let mut path = String::from_str("/sys/bus/usb/devices/");
    path.append(address);
    path.append("/");
    path
}

/// Decodes the address of a device directory from its `busnum` and `devpath`
/// attributes.
pub fn path_to_address(dir: &SysfsDir) -> (r: Result<String, Error>)
    ensures
        result_view(r) == spec_path_to_address(dir.deep_view()),
{
    let mut address = match read_attribute(dir, "busnum") {
        Ok(v) => v,
        Err(e) => return Err(e),
    };
    let devpath = match read_attribute(dir, "devpath") {
        Ok(v) => v,
        Err(e) => return Err(e),
    };
    address.append("-");
    address.append(devpath.as_str());
    Ok(address)
}

/// Law: the two directions of the codec are consistent.  Decoding a
/// well-formed device directory — one whose path is the encoding of the
/// address its own `busnum` and `devpath` attributes spell — and encoding
/// the decoded address reproduces the directory's path exactly.
pub proof fn lemma_codec_round_trip(dir: DirModel, busnum: Seq<char>, devpath: Seq<char>)
    requires
        read_attr_model(dir, "busnum"@) == Some(busnum),
        read_attr_model(dir, "devpath"@) == Some(devpath),
        dir.path == path_of_address(joined_address(busnum, devpath)),
    ensures
        spec_path_to_address(dir) matches Ok(address) && path_of_address(address) == dir.path,
{
}

} // verus!
