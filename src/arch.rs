//! Build descriptors: build mode, target architectures and the host's
//! architecture family.
use vstd::prelude::*;
use crate::text::{starts_with, same_text};

verus! {

/// Identifier prefix of 64-bit x86 targets and hosts.
pub const ARCH_X86_64: &'static str = "x86_64";
/// Identifier prefix of 64-bit ARM targets and hosts.
pub const ARCH_ARM_64: &'static str = "aarch64";

/// Debug or release build.
#[derive(Clone, Copy, Debug, PartialEq, Eq, Structural)]
pub enum Mode {
    Debug,
    Release,
}

impl Mode {
    pub open spec fn spec_str(self) -> Seq<char> {
        match self {
            Mode::Debug => "debug"@,
            Mode::Release => "release"@,
        }
    }

    /// Name of the output subdirectory for this mode.
    pub fn as_str(&self) -> (r: &'static str)
        ensures
            r@ == self.spec_str(),
    {
        match self {
            Mode::Debug => "debug",
            Mode::Release => "release",
        }
    }

    /// Reads a mode name; anything but `release` is a debug build.
    pub fn parse(s: &str) -> (r: Mode)
        ensures
            r == mode_named(s@),
    {
        if same_text(s, "release") {
            Mode::Release
        } else {
            Mode::Debug
        }
    }
}

/// The mode a configuration name selects: release for `release`, debug
/// for anything else.
pub open spec fn mode_named(s: Seq<char>) -> Mode {
    if s == "release"@ {
        Mode::Release
    } else {
        Mode::Debug
    }
}

/// The two architecture families a host or a target can belong to.
#[derive(Clone, Copy, Debug, PartialEq, Eq, Structural)]
pub enum HostFamily {
    X86_64,
    Arm64,
}

impl HostFamily {
    pub open spec fn spec_prefix(self) -> Seq<char> {
        match self {
            HostFamily::X86_64 => ARCH_X86_64@,
            HostFamily::Arm64 => ARCH_ARM_64@,
        }
    }

    /// The family of a host architecture name such as `aarch64`; `None` for
    /// a name of neither family.
    pub fn detect(host_arch: &str) -> (r: Option<HostFamily>)
        ensures
            r == family_of_host(host_arch@),
    {
        if starts_with(host_arch, ARCH_X86_64) {
            Some(HostFamily::X86_64)
        } else if starts_with(host_arch, ARCH_ARM_64) {
            Some(HostFamily::Arm64)
        } else {
            None
        }
    }
}

/// The family whose identifier prefix starts `host_arch`, if any.
pub open spec fn family_of_host(host_arch: Seq<char>) -> Option<HostFamily> {
    if has_prefix_of(host_arch, HostFamily::X86_64) {
        Some(HostFamily::X86_64)
    } else if has_prefix_of(host_arch, HostFamily::Arm64) {
        Some(HostFamily::Arm64)
    } else {
        None
    }
}

/// `s` starts with the identifier prefix of family `f`.
pub open spec fn has_prefix_of(s: Seq<char>, f: HostFamily) -> bool {
    crate::text::has_prefix(s, f.spec_prefix())
}

/// The target whose triple is `s`, if there is one.
pub open spec fn arch_named(s: Seq<char>) -> Option<FlutterArch> {
    if s == FlutterArch::Aarch64Apple.spec_str() {
        Some(FlutterArch::Aarch64Apple)
    } else if s == FlutterArch::Aarch64AppleSim.spec_str() {
        Some(FlutterArch::Aarch64AppleSim)
    } else if s == FlutterArch::X8664Apple.spec_str() {
        Some(FlutterArch::X8664Apple)
    } else {
        None
    }
}

/// Target architectures of a Flutter build.
#[derive(Clone, Copy, Debug, PartialEq, Eq, Structural)]
pub enum FlutterArch {
    /// iOS on ARM devices.
    Aarch64Apple,
    /// The iOS simulator on ARM hosts.
    Aarch64AppleSim,
    /// The iOS simulator on x86_64 hosts.
    X8664Apple,
}

impl FlutterArch {
    pub open spec fn spec_str(self) -> Seq<char> {
        match self {
            FlutterArch::Aarch64Apple => "aarch64-apple-ios"@,
            FlutterArch::Aarch64AppleSim => "aarch64-apple-ios-sim"@,
            FlutterArch::X8664Apple => "x86_64-apple-ios"@,
        }
    }

    /// The family of the instruction set the target runs.
    pub open spec fn family(self) -> HostFamily {
        match self {
            FlutterArch::Aarch64Apple => HostFamily::Arm64,
            FlutterArch::Aarch64AppleSim => HostFamily::Arm64,
            FlutterArch::X8664Apple => HostFamily::X86_64,
        }
    }

    /// The target names a simulator build.
    pub open spec fn simulator_marked(self) -> bool {
        self == FlutterArch::Aarch64AppleSim
    }

    /// Builds for this target run on a device when the host is of family
    /// `host`; every other target is a simulator build.
    pub open spec fn is_device_on(self, host: HostFamily) -> bool {
        self.family() == host && !self.simulator_marked()
    }

    /// The toolchain target triple.
    pub fn as_str(&self) -> (r: &'static str)
        ensures
            r@ == self.spec_str(),
    {
        match self {
            FlutterArch::Aarch64Apple => "aarch64-apple-ios",
            FlutterArch::Aarch64AppleSim => "aarch64-apple-ios-sim",
            FlutterArch::X8664Apple => "x86_64-apple-ios",
        }
    }

    /// Whether this target is a device build on a host of family `host`.
    pub fn is_device(&self, host: HostFamily) -> (r: bool)
        ensures
            r == self.is_device_on(host),
    {
        match self {
            FlutterArch::Aarch64Apple => host == HostFamily::Arm64,
            FlutterArch::Aarch64AppleSim => false,
            FlutterArch::X8664Apple => host == HostFamily::X86_64,
        }
    }

    /// The target whose triple is `s`, if there is one.
    pub fn parse(s: &str) -> (r: Option<FlutterArch>)
        ensures
            r == arch_named(s@),
            r matches Some(a) ==> a.spec_str() == s@,
            r is None ==> forall|a: FlutterArch| a.spec_str() != s@,
    {
        if same_text(s, "aarch64-apple-ios") {
            Some(FlutterArch::Aarch64Apple)
        } else if same_text(s, "aarch64-apple-ios-sim") {
            Some(FlutterArch::Aarch64AppleSim)
        } else if same_text(s, "x86_64-apple-ios") {
            Some(FlutterArch::X8664Apple)
        } else {
            None
        }
    }
}

} // verus!
