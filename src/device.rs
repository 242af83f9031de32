use vstd::prelude::*;
use vstd::string::*;
use crate::error::Error;
use crate::value::Value;

verus! {

/// The CPU architecture of a device, as a build target names it.
#[derive(Debug, Clone, Copy, PartialEq, Eq, Structural)]
pub enum Arch {
    Aarch64,
    Armv7,
}

/// The target name of an architecture.
pub open spec fn arch_name(a: Arch) -> Seq<char> {
    match a {
        Arch::Aarch64 => "aarch64"@,
        Arch::Armv7 => "armv7"@,
    }
}

/// The architecture a device's CPU-architecture property stands for: "arm64"
/// is 64-bit ARM; anything else, or an absent property, is 32-bit ARM.
pub open spec fn arch_of(cpu: Option<Value>) -> Arch {
    match cpu {
        Some(Value::String(s)) => if s@ == "arm64"@ {
            Arch::Aarch64
        } else {
            Arch::Armv7
        },
        _ => Arch::Armv7,
    }
}

/// What is known of a device: its native handle and its identity.
pub struct DeviceView {
    pub handle: u64,
    pub id: Seq<char>,
    pub name: Seq<char>,
    pub arch: Arch,
}

/// A discovered device: the native handle it is reached through, and the
/// identity read from it when it appeared.
#[derive(Debug)]
pub struct IosDevice {
    handle: u64,
    id: String,
    name: String,
    arch_cpu: Arch,
}

impl View for IosDevice {
    type V = DeviceView;

    closed spec fn view(&self) -> DeviceView {
        DeviceView { handle: self.handle, id: self.id@, name: self.name@, arch: self.arch_cpu }
    }
}

impl IosDevice {
    /// Builds a device from the properties read through a session on it: the
    /// name must be a string, the identifier must be a string, and the CPU
    /// architecture decides the target architecture.
    pub fn from(handle: u64, name: Option<Value>, cpu: Option<Value>, id: Value) -> (r: Result<
        IosDevice,
        Error,
    >)
        ensures
            match (name, id) {
                (None, _) => r == Err::<IosDevice, Error>(Error::MissingValue),
                (Some(Value::String(n)), Value::String(i)) => r matches Ok(d) && d@ == (DeviceView {
                    handle,
                    id: i@,
                    name: n@,
                    arch: arch_of(cpu),
                }),
                _ => r == Err::<IosDevice, Error>(Error::UnexpectedValue),
            },
    {
        let name = match name {
            Some(Value::String(s)) => s,
            Some(_) => return Err(Error::UnexpectedValue),
            None => return Err(Error::MissingValue),
        };
        let arch_cpu = match cpu {
            Some(Value::String(ref v)) => {
                let arm64 = String::from_str("arm64");
                if *v == arm64 {
                    Arch::Aarch64
                } else {
                    Arch::Armv7
                }
            },
            _ => Arch::Armv7,
        };
        let id = match id {
            Value::String(s) => s,
            _ => return Err(Error::UnexpectedValue),
        };
        Ok(IosDevice { handle, id, name, arch_cpu })
    }

    /// The native handle of the device.
    pub fn handle(&self) -> (h: u64)
        ensures
            h == self@.handle,
    {
        self.handle
    }

    /// The device's display name.
    pub fn name(&self) -> (s: &str)
        ensures
            s@ == self@.name,
    {
        self.name.as_str()
    }

    /// The device's stable identifier.
    pub fn id(&self) -> (s: &str)
        ensures
            s@ == self@.id,
    {
        self.id.as_str()
    }

    /// The target architecture of the device's CPU.
    pub fn target_arch(&self) -> (s: &'static str)
        ensures
            s@ == arch_name(self@.arch),
    {
        match self.arch_cpu {
            Arch::Aarch64 => "aarch64",
            Arch::Armv7 => "armv7",
        }
    }

    /// The target vendor of every such device.
    pub fn target_vendor(&self) -> (s: &'static str)
        ensures
            s@ == "apple"@,
    {
        "apple"
    }

    /// The target OS of every such device.
    pub fn target_os(&self) -> (s: &'static str)
        ensures
            s@ == "ios"@,
    {
        "ios"
    }

    /// A copy of the device, equal to it in every field.
    pub fn duplicate(&self) -> (d: IosDevice)
        ensures
            d@ == self@,
    {
        IosDevice {
            handle: self.handle,
            id: self.id.clone(),
            name: self.name.clone(),
            arch_cpu: self.arch_cpu,
        }
    }
}

} // verus!
