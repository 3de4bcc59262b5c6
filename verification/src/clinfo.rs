//! Records of the compute platforms and devices that a machine offers.
//!
//! The records hold plain values. Whoever asks the machine fills in a
//! [`DeviceProperties`] or a [`PlatformProperties`] with what it answered;
//! the constructors here add what follows from those values.

use vstd::prelude::*;
use vstd::std_specs::cmp::PartialEqSpecImpl;

verus! {

/// The text that stands for the vendor with the PCIe id `vendor_id`.
pub open spec fn vendor_id_text(vendor_id: u32) -> Seq<char> {
    if vendor_id == 0x1002 {
        "AMD"@
    } else if vendor_id == 0x1014 {
        "IBM"@
    } else if vendor_id == 0x10de {
        "NVIDIA"@
    } else if vendor_id == 0x10ee {
        "XILINX"@
    } else if vendor_id == 0x1166 {
        "BROADCOM"@
    } else if vendor_id == 0x1172 {
        "ALTERA"@
    } else if vendor_id == 0x13b5 {
        "ARM"@
    } else if vendor_id == 0x1412 {
        "VIA_TECHNOLOGIES"@
    } else if vendor_id == 0x104c {
        "TEXAS_INSTRUMENTS"@
    } else if vendor_id == 0x168c {
        "QUALCOMM"@
    } else if vendor_id == 0x8086 {
        "INTEL"@
    } else if vendor_id == 0x0102_1d00 {
        "AMD_ON_APPLE"@
    } else {
        "UNKNOWN_VENDOR"@
    }
}

/// The text that stands for the device type `dev_type`. Each single type has
/// its own text, and so has the mask of all types; any other combination of
/// type bits is a combined type.
pub open spec fn device_type_text(dev_type: u64) -> Seq<char> {
    if dev_type == 1 {
        "CL_DEVICE_TYPE_DEFAULT"@
    } else if dev_type == 2 {
        "CL_DEVICE_TYPE_CPU"@
    } else if dev_type == 4 {
        "CL_DEVICE_TYPE_GPU"@
    } else if dev_type == 8 {
        "CL_DEVICE_TYPE_ACCELERATOR"@
    } else if dev_type == 16 {
        "CL_DEVICE_TYPE_CUSTOM"@
    } else if dev_type == 0xFFFF_FFFF {
        "CL_DEVICE_TYPE_ALL"@
    } else {
        "COMBINED_DEVICE_TYPE"@
    }
}

/// Calls `opencl3::device::vendor_id_text`. Trusted: the text it returns is
/// the one that [`vendor_id_text`] gives for the same id, which is the table
/// in that function's source.
#[verifier::external_body]
fn call_vendor_id_text(vendor_id: u32) -> (text: &'static str)
    ensures
        text@ == vendor_id_text(vendor_id),
{
    opencl3::device::vendor_id_text(vendor_id)
}

/// Calls `opencl3::device::device_type_text`. Trusted: the text it returns
/// is the one that [`device_type_text`] gives for the same type, which is
/// the table in that function's source.
#[verifier::external_body]
fn call_device_type_text(dev_type: u64) -> (text: &'static str)
    ensures
        text@ == device_type_text(dev_type),
{
    opencl3::device::device_type_text(dev_type)
}

/// What a device answers when it is asked about itself.
#[derive(Debug)]
pub struct DeviceProperties {
    pub vendor: String,
    pub vendor_id: u32,
    pub name: String,
    pub version: String,
    pub dev_type: u64,
    pub profile: String,
    pub extensions: String,
    pub opencl_c_version: String,
    pub svm_mem_capability: u64,
}

/// A [`DeviceInfo`] as mathematical values: each text as a sequence of
/// characters.
pub struct DeviceInfoView {
    pub vendor: Seq<char>,
    pub vendor_id: u32,
    pub vendor_id_text: Seq<char>,
    pub name: Seq<char>,
    pub version: Seq<char>,
    pub dev_type: u64,
    pub type_text: Seq<char>,
    pub profile: Seq<char>,
    pub extensions: Seq<char>,
    pub opencl_c_version: Seq<char>,
    pub svm_mem_capability: u64,
}

impl DeviceInfoView {
    /// The record of a device that answered `properties`: the answers as
    /// they are, and the texts that stand for its vendor id and its type.
    pub open spec fn of(properties: DeviceProperties) -> Self {
        DeviceInfoView {
            vendor: properties.vendor@,
            vendor_id: properties.vendor_id,
            vendor_id_text: vendor_id_text(properties.vendor_id),
            name: properties.name@,
            version: properties.version@,
            dev_type: properties.dev_type,
            type_text: device_type_text(properties.dev_type),
            profile: properties.profile@,
            extensions: properties.extensions@,
            opencl_c_version: properties.opencl_c_version@,
            svm_mem_capability: properties.svm_mem_capability,
        }
    }
}

/// Contains information about a device.
#[derive(Debug)]
pub struct DeviceInfo {
    vendor: String,
    vendor_id: u32,
    vendor_id_text: String,
    name: String,
    version: String,
    dev_type: u64,
    type_text: String,
    profile: String,
    extensions: String,
    opencl_c_version: String,
    svm_mem_capability: u64,
}

impl View for DeviceInfo {
    type V = DeviceInfoView;

    closed spec fn view(&self) -> DeviceInfoView {
        DeviceInfoView {
            vendor: self.vendor@,
            vendor_id: self.vendor_id,
            vendor_id_text: self.vendor_id_text@,
            name: self.name@,
            version: self.version@,
            dev_type: self.dev_type,
            type_text: self.type_text@,
            profile: self.profile@,
            extensions: self.extensions@,
            opencl_c_version: self.opencl_c_version@,
            svm_mem_capability: self.svm_mem_capability,
        }
    }
}

impl DeviceInfo {
    /// Create a new instance from what a device answered.
    pub fn construct(properties: DeviceProperties) -> (info: Self)
        ensures
            info@ == DeviceInfoView::of(properties),
    {
        let vendor_id_text = call_vendor_id_text(properties.vendor_id).to_owned();
        let type_text = call_device_type_text(properties.dev_type).to_owned();
        DeviceInfo {
            vendor: properties.vendor,
            vendor_id: properties.vendor_id,
            vendor_id_text,
            name: properties.name,
            version: properties.version,
            dev_type: properties.dev_type,
            type_text,
            profile: properties.profile,
            extensions: properties.extensions,
            opencl_c_version: properties.opencl_c_version,
            svm_mem_capability: properties.svm_mem_capability,
        }
    }

    /// The name of the vendor.
    pub fn vendor(&self) -> (value: String)
        ensures
            value@ == self@.vendor,
    {
        self.vendor.clone()
    }

    /// The PCIe id of the vendor.
    pub fn vendor_id(&self) -> (value: u32)
        ensures
            value == self@.vendor_id,
    {
        self.vendor_id
    }

    /// The text that stands for the vendor id.
    pub fn vendor_id_text(&self) -> (value: String)
        ensures
            value@ == self@.vendor_id_text,
    {
        self.vendor_id_text.clone()
    }

    /// The name of the device.
    pub fn name(&self) -> (value: String)
        ensures
            value@ == self@.name,
    {
        self.name.clone()
    }

    /// The version that the device supports.
    pub fn version(&self) -> (value: String)
        ensures
            value@ == self@.version,
    {
        self.version.clone()
    }

    /// The type of the device, as a mask of type bits.
    pub fn dev_type(&self) -> (value: u64)
        ensures
            value == self@.dev_type,
    {
        self.dev_type
    }

    /// The text that stands for the type.
    pub fn type_text(&self) -> (value: String)
        ensures
            value@ == self@.type_text,
    {
        self.type_text.clone()
    }

    /// The profile that the device supports.
    pub fn profile(&self) -> (value: String)
        ensures
            value@ == self@.profile,
    {
        self.profile.clone()
    }

    /// The extensions that the device supports, in one text.
    pub fn extensions(&self) -> (value: String)
        ensures
            value@ == self@.extensions,
    {
        self.extensions.clone()
    }

    /// The version of the C dialect that the compiler of the device accepts.
    pub fn opencl_c_version(&self) -> (value: String)
        ensures
            value@ == self@.opencl_c_version,
    {
        self.opencl_c_version.clone()
    }

    /// The shared virtual memory capabilities of the device, as a mask.
    pub fn svm_mem_capability(&self) -> (value: u64)
        ensures
            value == self@.svm_mem_capability,
    {
        self.svm_mem_capability
    }
}

impl Clone for DeviceInfo {
    /// The copy is the same record.
    fn clone(&self) -> (copy: Self)
        ensures
            copy == *self,
    {
        DeviceInfo {
            vendor: self.vendor.clone(),
            vendor_id: self.vendor_id,
            vendor_id_text: self.vendor_id_text.clone(),
            name: self.name.clone(),
            version: self.version.clone(),
            dev_type: self.dev_type,
            type_text: self.type_text.clone(),
            profile: self.profile.clone(),
            extensions: self.extensions.clone(),
            opencl_c_version: self.opencl_c_version.clone(),
            svm_mem_capability: self.svm_mem_capability,
        }
    }
}

impl PartialEq for DeviceInfo {
    /// Two records are equal when they agree in every field.
    fn eq(&self, other: &Self) -> (equal: bool) {
        self.vendor == other.vendor && self.vendor_id == other.vendor_id && self.vendor_id_text
            == other.vendor_id_text && self.name == other.name && self.version == other.version
            && self.dev_type == other.dev_type && self.type_text == other.type_text && self.profile
            == other.profile && self.extensions == other.extensions && self.opencl_c_version
            == other.opencl_c_version && self.svm_mem_capability == other.svm_mem_capability
    }
}

impl PartialEqSpecImpl for DeviceInfo {
    open spec fn obeys_eq_spec() -> bool {
        true
    }

    open spec fn eq_spec(&self, other: &Self) -> bool {
        self@ == other@
    }
}

impl Eq for DeviceInfo {

}

/// The views of `devices`, one by one.
pub open spec fn device_views(devices: Seq<DeviceInfo>) -> Seq<DeviceInfoView> {
    devices.map_values(|device: DeviceInfo| device@)
}

/// What a platform answers when it is asked about itself.
#[derive(Debug)]
pub struct PlatformProperties {
    pub name: String,
    pub version: String,
    pub vendor: String,
    pub profile: String,
    pub extensions: String,
}

/// A [`PlatformInfo`] as mathematical values.
pub struct PlatformInfoView {
    pub name: Seq<char>,
    pub version: Seq<char>,
    pub vendor: Seq<char>,
    pub profile: Seq<char>,
    pub extensions: Seq<char>,
    pub devices: Seq<DeviceInfoView>,
}

impl PlatformInfoView {
    /// The record of a platform that answered `properties` and offers
    /// `devices`, in that order.
    pub open spec fn of(properties: PlatformProperties, devices: Seq<DeviceInfoView>) -> Self {
        PlatformInfoView {
            name: properties.name@,
            version: properties.version@,
            vendor: properties.vendor@,
            profile: properties.profile@,
            extensions: properties.extensions@,
            devices,
        }
    }
}

/// Information about a platform and the devices that it offers.
#[derive(Debug)]
pub struct PlatformInfo {
    name: String,
    version: String,
    vendor: String,
    profile: String,
    extensions: String,
    devices: Vec<DeviceInfo>,
}

impl View for PlatformInfo {
    type V = PlatformInfoView;

    closed spec fn view(&self) -> PlatformInfoView {
        PlatformInfoView {
            name: self.name@,
            version: self.version@,
            vendor: self.vendor@,
            profile: self.profile@,
            extensions: self.extensions@,
            devices: device_views(self.devices@),
        }
    }
}

/// Copies `devices` record by record.
fn clone_devices(devices: &Vec<DeviceInfo>) -> (copy: Vec<DeviceInfo>)
    ensures
        copy@ == devices@,
{
    let copy = devices.clone();
    assert(copy@ =~= devices@);
    copy
}

impl PlatformInfo {
    /// Create a new instance from what a platform answered and the records
    /// of its devices.
    ///
    /// See also [`DeviceInfo::construct`].
    pub fn construct(properties: PlatformProperties, devices: &Vec<DeviceInfo>) -> (info: Self)
        ensures
            info@ == PlatformInfoView::of(properties, device_views(devices@)),
    {
        PlatformInfo {
            name: properties.name,
            version: properties.version,
            vendor: properties.vendor,
            profile: properties.profile,
            extensions: properties.extensions,
            devices: clone_devices(devices),
        }
    }

    /// The name of the platform.
    pub fn name(&self) -> (value: String)
        ensures
            value@ == self@.name,
    {
        self.name.clone()
    }

    /// The version that the platform supports.
    pub fn version(&self) -> (value: String)
        ensures
            value@ == self@.version,
    {
        self.version.clone()
    }

    /// The name of the vendor.
    pub fn vendor(&self) -> (value: String)
        ensures
            value@ == self@.vendor,
    {
        self.vendor.clone()
    }

    /// The profile that the platform supports.
    pub fn profile(&self) -> (value: String)
        ensures
            value@ == self@.profile,
    {
        self.profile.clone()
    }

    /// The extensions that the platform supports, in one text.
    pub fn extensions(&self) -> (value: String)
        ensures
            value@ == self@.extensions,
    {
        self.extensions.clone()
    }

    /// The records of the devices that the /// platform offers, in the order
    /// in which it listed them.
    pub fn devices(&self) -> (value: Vec<DeviceInfo>)
        ensures
            device_views(value@) == self@.devices,
    {
        clone_devices(&self.devices)
    }
}

impl Clone for PlatformInfo {
    /// The copy holds the same texts and the same device records.
    fn clone(&self) -> (copy: Self)
        ensures
            copy@ == self@,
    {
        PlatformInfo {
            name: self.name.clone(),
            version: self.version.clone(),
            vendor: self.vendor.clone(),
            profile: self.profile.clone(),
            extensions: self.extensions.clone(),
            devices: clone_devices(&self.devices),
        }
    }
}

/// The views of `platforms`, one by one.
pub open spec fn platform_views(platforms: Seq<PlatformInfo>) -> Seq<PlatformInfoView> {
    platforms.map_values(|platform: PlatformInfo| platform@)
}

/// The devices of all of `platforms` in one sequence: those of the first
/// platform first, each platform's devices in its own order.
pub open spec fn all_devices(platforms: Seq<PlatformInfoView>) -> Seq<DeviceInfoView> {
    platforms.map_values(|platform: PlatformInfoView| platform.devices).flatten()
}

/// The complete compute state of a machine: its platforms, in the order in
/// which the machine listed them.
#[derive(Debug)]
pub struct ClState {
    platforms: Vec<PlatformInfo>,
}

impl View for ClState {
    type V = Seq<PlatformInfoView>;

    closed spec fn view(&self) -> Seq<PlatformInfoView> {
        platform_views(self.platforms@)
    }
}

impl ClState {
    /// The state of a machine that offers `platforms`.
    pub fn new(platforms: Vec<PlatformInfo>) -> (state: Self)
        ensures
            state@ == platform_views(platforms@),
    {
        ClState { platforms }
    }

    /// Obtain all devices of any platform: those of the first platform
    /// first, each platform's devices in its own order.
    pub fn get_all_devices(&self) -> (devices: Vec<DeviceInfo>)
        ensures
            device_views(devices@) == all_devices(self@),
    {
        let mut devices: Vec<DeviceInfo> = Vec::new();
        let mut p: usize = 0;
        assert(self@.subrange(0, 0) =~= Seq::empty());
        assert(device_views(devices@) =~= Seq::empty());
        while p < self.platforms.len()
            invariant
                p <= self.platforms.len(),
                device_views(devices@) == all_devices(self@.subrange(0, p as int)),
            decreases self.platforms.len() - p,
        {
            let of_platform = &self.platforms[p].devices;
            let ghost before = devices@;
            let mut d: usize = 0;
            while d < of_platform.len()
                invariant
                    d <= of_platform.len(),
                    device_views(devices@) == device_views(before) + device_views(
                        of_platform@,
                    ).subrange(0, d as int),
                decreases of_platform.len() - d,
            {
                let ghost so_far = devices@;
                let device = of_platform[d].clone();
                devices.push(device);
                assert(device_views(devices@) =~= device_views(so_far).push(
                    of_platform@[d as int]@,
                ));
                d += 1;
                assert(device_views(devices@) =~= device_views(before) + device_views(
                    of_platform@,
                ).subrange(0, d as int));
            }
            proof {
                let done = self@.subrange(0, p as int);
                let lists = |platform: PlatformInfoView| platform.devices;
                assert(device_views(of_platform@).subrange(0, d as int)
                    =~= self@[p as int].devices);
                assert(self@.subrange(0, p + 1) =~= done.push(self@[p as int]));
                assert(done.push(self@[p as int]).map_values(lists) =~= done.map_values(lists).push(
                    self@[p as int].devices,
                ));
                done.map_values(lists).lemma_flatten_push(self@[p as int].devices);
            }
            p += 1;
        }
        assert(self@.subrange(0, p as int) =~= self@);
        devices
    }

    /// Obtains all platforms currently present.
    pub fn get_platforms(&self) -> (platforms: Vec<PlatformInfo>)
        ensures
            platform_views(platforms@) == self@,
    {
        let platforms = self.platforms.clone();
        assert(platform_views(platforms@) =~= self@);
        platforms
    }
}

impl Clone for ClState {
    /// The copy holds the same platform records.
    fn clone(&self) -> (copy: Self)
        ensures
            copy@ == self@,
    {
        ClState { platforms: self.get_platforms() }
    }
}

} // verus!
