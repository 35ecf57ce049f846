use vstd::prelude::*;

verus! {

/// Config for a mount.
#[derive(Clone)]
pub struct Mount {
    /// Path on the host for the mount.
    pub host_path: String,
    /// Mount the location r/w.
    ///
    /// Default: false
    pub writable: bool,
}

/// VM Config for a target.
#[derive(Clone)]
pub struct VMConfig {
    /// Number of CPUs in the VM.
    ///
    /// Default: 2
    pub num_cpus: u8,
    /// Amount of RAM for the VM.
    ///
    /// Accepts a QEMU parsable string for the -m flag like 256M or 4G.
    /// Default: 4G
    pub memory: String,
    /// Additional host mounts, as pairs of guest path and mount.
    ///
    /// The first element of a pair is the path in the VM and the second names
    /// the path on the host.  Guest paths are expected to be distinct.
    /// * Only respected when using an image.
    pub mounts: Vec<(String, Mount)>,
    /// Path to the BIOS file.
    ///
    /// If this is empty, well-known OS locations will be tried.
    pub bios: Option<String>,
    /// Extra arguments to pass to QEMU.
    pub extra_args: Vec<String>,
}

impl VMConfig {
    /// Default number of CPUs for a VM.
    pub fn default_cpus() -> (r: u8)
        ensures
            r == 2,
    {
        2
    }

    /// Default amount of RAM for a VM.
    pub fn default_memory() -> (r: String)
        ensures
            r@ == "4G"@,
    {
        String::from_str("4G")
    }
}

impl Default for VMConfig {
    fn default() -> (r: Self)
        ensures
            r.num_cpus == 2,
            r.memory@ == "4G"@,
            r.mounts@.len() == 0,
            r.bios is None,
            r.extra_args@.len() == 0,
    {
        VMConfig {
            num_cpus: VMConfig::default_cpus(),
            memory: VMConfig::default_memory(),
            mounts: Vec::new(),
            bios: None,
            extra_args: Vec::new(),
        }
    }
}

/// Config for a single target.
#[derive(Clone)]
pub struct Target {
    /// Name of the testing target.
    pub name: String,
    /// Path to image to test against.
    ///
    /// * The path is relative to the configuration file.
    /// * The image must be bootable.
    pub image: Option<String>,
    /// Whether or not image should be booted using UEFI.
    ///
    /// Default: false
    pub uefi: bool,
    /// Path to kernel image to test against.
    ///
    /// * The path is relative to the configuration file.
    /// * `vmlinux`, `vmlinuz`, and `bzImage` formats are accepted.
    pub kernel: Option<String>,
    /// Additional kernel command line parameters.
    ///
    /// Arguments are only valid for kernel targets.
    pub kernel_args: Option<String>,
    /// Path to rootfs to test against.
    ///
    /// * The path is relative to the configuration file.
    /// * If not specified, the host's rootfs will be used.
    /// Default: /
    pub rootfs: String,
    /// Architecture tag of the guest.
    ///
    /// The empty string stands for the host architecture; the front end
    /// substitutes the host tag before handing the target over.
    pub arch: String,
    /// Command to use to launch QEMU, overriding the default
    /// `qemu-system-<arch>`.  Can be a full path or a PATH-resolved binary.
    pub qemu_command: Option<String>,
    /// Command to run inside virtual machine.
    pub command: String,
    /// VM Configuration.
    pub vm: VMConfig,
}

impl Target {
    /// Default rootfs path to use if none are specified.
    pub fn default_rootfs() -> (r: String)
        ensures
            r@ == "/"@,
    {
        String::from_str("/")
    }
}

impl Default for Target {
    fn default() -> (r: Self)
        ensures
            r.name@.len() == 0,
            r.image is None,
            !r.uefi,
            r.kernel is None,
            r.kernel_args is None,
            r.rootfs@ == "/"@,
            r.arch@.len() == 0,
            r.qemu_command is None,
            r.command@.len() == 0,
            r.vm.num_cpus == 2,
            r.vm.memory@ == "4G"@,
            r.vm.mounts@.len() == 0,
            r.vm.bios is None,
            r.vm.extra_args@.len() == 0,
    {
        Target {
            name: String::new(),
            image: None,
            uefi: false,
            kernel: None,
            kernel_args: None,
            rootfs: Target::default_rootfs(),
            arch: String::new(),
            qemu_command: None,
            command: String::new(),
            vm: VMConfig::default(),
        }
    }
}

/// Config containing full test matrix.
pub struct Config {
    /// List of targets in the testing matrix.
    pub target: Vec<Target>,
}

} // verus!
