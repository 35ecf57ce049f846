use vstd::prelude::*;

use rand::Rng;

use crate::config::Mount;
use crate::config::Target;
use crate::config::VMConfig;
use crate::errors::ErrorKind;
use crate::errors::VmError;
use crate::text;

verus! {

// ---------------------------------------------------------------------------
// Host capabilities
// ---------------------------------------------------------------------------

/// What the library needs to know about the host machine.  The front end
/// probes these once: the host architecture tag, whether the hardware
/// virtualization device is available, and which of the well-known firmware
/// locations exist.
pub struct HostEnv {
    /// The host architecture tag, e.g. `x86_64`.
    pub arch: String,
    /// Whether `/dev/kvm` exists.
    pub kvm_dev: bool,
    /// For each well-known firmware path, in order, whether it exists.
    pub ovmf_present: Vec<bool>,
}

/// Whether full hardware virtualization can back a guest of this
/// architecture on this host.
pub open spec fn host_supports_kvm_spec(arch: Seq<char>, host: HostEnv) -> bool {
    arch == host.arch@ && host.kvm_dev
}

/// Whether or not the host supports KVM for the given guest architecture.
pub fn host_supports_kvm(arch: &str, host: &HostEnv) -> (r: bool)
    ensures
        r == host_supports_kvm_spec(arch@, *host),
{
    text::str_eq(arch, host.arch.as_str()) && host.kvm_dev
}

// ---------------------------------------------------------------------------
// Stable identifiers
// ---------------------------------------------------------------------------

/// One round of the FNV-1a folding: mix one character into the state.
pub open spec fn fnv1a_step(h: u64, c: char) -> u64 {
    vstd::wrapping::u64_specs::wrapping_mul(h ^ (c as u64), 0x100000001b3)
}

/// FNV-1a folding of a whole string onto a state.
pub open spec fn fnv1a_acc(s: Seq<char>, h: u64) -> u64
    decreases s.len(),
{
    if s.len() == 0 {
        h
    } else {
        fnv1a_acc(s.drop_first(), fnv1a_step(h, s[0]))
    }
}

/// The 64-bit FNV-1a digest of a string: a stable, non-cryptographic hash
/// used to derive drive and mount identifiers.
pub open spec fn fnv1a(s: Seq<char>) -> u64 {
    fnv1a_acc(s, 0xcbf29ce484222325)
}

/// Hash a string to a stable 64-bit identifier.
pub fn hash(s: &str) -> (r: u64)
    ensures
        r == fnv1a(s@),
{
    let n = s.unicode_len();
    let mut h: u64 = 0xcbf29ce484222325;
    let mut i: usize = 0;
    proof {
        assert(s@.skip(0) =~= s@);
    }
    while i < n
        invariant
            n == s@.len(),
            i <= n,
            fnv1a(s@) == fnv1a_acc(s@.skip(i as int), h),
        decreases n - i,
    {
        let c = s.get_char(i);
        proof {
            assert(s@.skip(i as int)[0] == s@[i as int]);
            assert(s@.skip(i as int).drop_first() =~= s@.skip(i as int + 1));
        }
        h = (h ^ (c as u64)).wrapping_mul(0x100000001b3);
        i = i + 1;
    }
    h
}

/// The path of a socket with the given prefix and numeric id under the host
/// tmp directory.
pub open spec fn sock_path_chars(prefix: Seq<char>, id: nat) -> Seq<char> {
    "/tmp/"@ + prefix + "-"@ + text::dec_str(id) + ".sock"@
}

/// Relies on `rand::Rng::gen_range` on `rand::thread_rng`: for a non-empty
/// range it returns a value inside the range and does not panic.
#[verifier::external_body]
fn rand_sock_id() -> (r: u64)
    ensures
        100000 <= r < 1000000,
{
    rand::thread_rng().gen_range(100_000..1_000_000)
}

/// Generate a path to a randomly named socket.
///
/// The name is `<prefix>-<id>.sock` under the host tmp directory, where the
/// id is a six-digit random number.
pub fn gen_sock(prefix: &str) -> (r: String)
    ensures
        exists|id: nat|
            100000 <= id < 1000000 && r@ == sock_path_chars(prefix@, id),
{
    let id = rand_sock_id();
    let r = String::from_str("/tmp/").concat(prefix).concat("-").concat(
        text::u64_to_string(id).as_str(),
    ).concat(".sock");
    proof {
        assert(r@ == sock_path_chars(prefix@, id as nat));
    }
    r
}

// ---------------------------------------------------------------------------
// Token vector helpers
// ---------------------------------------------------------------------------

fn push_str(v: &mut Vec<String>, s: &str)
    ensures
        final(v).deep_view() == old(v).deep_view().push(s@),
{
    v.push(s.to_owned());
    proof {
        assert(v.deep_view() =~= old(v).deep_view().push(s@));
    }
}

fn push_string(v: &mut Vec<String>, s: String)
    ensures
        final(v).deep_view() == old(v).deep_view().push(s@),
{
    v.push(s);
    proof {
        assert(v.deep_view() =~= old(v).deep_view().push(s@));
    }
}

fn append_tokens(v: &mut Vec<String>, w: Vec<String>)
    ensures
        final(v).deep_view() == old(v).deep_view() + w.deep_view(),
{
    let mut w = w;
    let ghost wv = w.deep_view();
    let mut i: usize = 0;
    proof {
        assert(v.deep_view() + wv.take(0) =~= v.deep_view());
    }
    while i < w.len()
        invariant
            i <= w@.len(),
            w.deep_view() == wv,
            v.deep_view() == old(v).deep_view() + wv.take(i as int),
        decreases w@.len() - i,
    {
        let s = w[i].clone();
        proof {
            assert(wv[i as int] == w@[i as int]@);
        }
        push_string(v, s);
        proof {
            assert((old(v).deep_view() + wv.take(i as int)).push(wv[i as int]) =~= old(
                v,
            ).deep_view() + wv.take(i as int + 1));
        }
        i = i + 1;
    }
    proof {
        assert(wv.take(w@.len() as int) =~= wv);
    }
}

// ---------------------------------------------------------------------------
// Argument builders
// ---------------------------------------------------------------------------

/// The tokens that insert a file as a bootable drive.
pub open spec fn drive_args_spec(file: Seq<char>, index: nat) -> Seq<Seq<char>> {
    seq![
        "-drive"@,
        "file="@ + file + ",index="@ + text::dec_str(index) + ",media=disk,if=none,id=disk"@
            + text::dec_str(fnv1a(file) as nat),
        "-device"@,
        "virtio-blk-pci,drive=disk"@ + text::dec_str(fnv1a(file) as nat) + ",bootindex="@
            + text::dec_str(index),
    ]
}

/// Generate arguments for inserting a file as a drive into the guest.
///
/// The drive id is derived by hashing the file path, so it is stable for a
/// given path.
pub fn drive_args(file: &str, index: u64) -> (r: Vec<String>)
    ensures
        r.deep_view() == drive_args_spec(file@, index as nat),
{
    let id = text::u64_to_string(hash(file));
    let mut args: Vec<String> = Vec::new();
    push_str(&mut args, "-drive");
    push_string(
        &mut args,
        String::from_str("file=").concat(file).concat(",index=").concat(
            text::u64_to_string(index).as_str(),
        ).concat(",media=disk,if=none,id=disk").concat(id.as_str()),
    );
    push_str(&mut args, "-device");
    push_string(
        &mut args,
        String::from_str("virtio-blk-pci,drive=disk").concat(id.as_str()).concat(
            ",bootindex=",
        ).concat(text::u64_to_string(index).as_str()),
    );
    proof {
        assert(args.deep_view() =~~= drive_args_spec(file@, index as nat));
    }
    args
}

/// The tokens that set up the guest agent channel on both host and guest.
pub open spec fn guest_agent_args_spec(sock: Seq<char>) -> Seq<Seq<char>> {
    seq![
        "-chardev"@,
        "socket,path="@ + sock + ",server=on,wait=off,id=qga0"@,
        "-device"@,
        "virtio-serial"@,
        "-device"@,
        "virtserialport,chardev=qga0,name=org.qemu.guest_agent.0"@,
    ]
}

/// Generate arguments for setting up the guest agent on both host and guest.
pub fn guest_agent_args(sock: &str) -> (r: Vec<String>)
    ensures
        r.deep_view() == guest_agent_args_spec(sock@),
{
    let mut args: Vec<String> = Vec::new();
    push_str(&mut args, "-chardev");
    push_string(
        &mut args,
        String::from_str("socket,path=").concat(sock).concat(",server=on,wait=off,id=qga0"),
    );
    push_str(&mut args, "-device");
    push_str(&mut args, "virtio-serial");
    push_str(&mut args, "-device");
    push_str(&mut args, "virtserialport,chardev=qga0,name=org.qemu.guest_agent.0");
    proof {
        assert(args.deep_view() =~~= guest_agent_args_spec(sock@));
    }
    args
}

/// The tokens that enable full virtualization when the host supports it,
/// and otherwise select a generic CPU model for emulation.
pub open spec fn kvm_args_spec(arch: Seq<char>, host: HostEnv) -> Seq<Seq<char>> {
    if host_supports_kvm_spec(arch, host) {
        seq!["-enable-kvm"@, "-cpu"@, "host"@]
    } else if arch == "aarch64"@ || arch == "s390x"@ {
        seq!["-cpu"@, "max"@]
    } else {
        seq!["-cpu"@, "qemu64"@]
    }
}

/// Generate arguments for full KVM virtualization if host supports it.
pub fn kvm_args(arch: &str, host: &HostEnv) -> (r: Vec<String>)
    ensures
        r.deep_view() == kvm_args_spec(arch@, *host),
{
    let mut args: Vec<String> = Vec::new();
    if host_supports_kvm(arch, host) {
        push_str(&mut args, "-enable-kvm");
        push_str(&mut args, "-cpu");
        push_str(&mut args, "host");
    } else {
        push_str(&mut args, "-cpu");
        if text::str_eq(arch, "aarch64") || text::str_eq(arch, "s390x") {
            push_str(&mut args, "max");
        } else {
            push_str(&mut args, "qemu64");
        }
    }
    proof {
        assert(args.deep_view() =~~= kvm_args_spec(arch@, *host));
    }
    args
}

/// The tokens that pick the machine model: aarch64 has no default machine,
/// so one is named explicitly there.
pub open spec fn machine_args_spec(arch: Seq<char>) -> Seq<Seq<char>> {
    if arch == "aarch64"@ {
        seq!["-machine"@, "virt,gic-version=3"@]
    } else {
        Seq::empty()
    }
}

/// Generate arguments for which qemu machine to use.
pub fn machine_args(arch: &str) -> (r: Vec<String>)
    ensures
        r.deep_view() == machine_args_spec(arch@),
{
    let mut args: Vec<String> = Vec::new();
    if text::str_eq(arch, "aarch64") {
        push_str(&mut args, "-machine");
        push_str(&mut args, "virt,gic-version=3");
    }
    proof {
        assert(args.deep_view() =~~= machine_args_spec(arch@));
    }
    args
}

/// The tokens that open the control socket on the host.
pub open spec fn machine_protocol_args_spec(sock: Seq<char>) -> Seq<Seq<char>> {
    seq!["-qmp"@, "unix:"@ + sock + ",server=on,wait=off"@]
}

/// Generate arguments for setting up the QMP control socket on the host.
pub fn machine_protocol_args(sock: &str) -> (r: Vec<String>)
    ensures
        r.deep_view() == machine_protocol_args_spec(sock@),
{
    let mut args: Vec<String> = Vec::new();
    push_str(&mut args, "-qmp");
    push_string(
        &mut args,
        String::from_str("unix:").concat(sock).concat(",server=on,wait=off"),
    );
    proof {
        assert(args.deep_view() =~~= machine_protocol_args_spec(sock@));
    }
    args
}

/// The tokens that export a host directory over the shared-folder transport.
/// An empty host path stands for the current directory.
pub open spec fn plan9_fs_args_spec(host_shared: Seq<char>, id: Seq<char>, mount_tag: Seq<char>, ro: bool) -> Seq<
    Seq<char>,
> {
    seq![
        "-virtfs"@,
        "local,id="@ + id + ",path="@ + (if host_shared.len() == 0 {
            "."@
        } else {
            host_shared
        }) + ",mount_tag="@ + mount_tag + ",security_model=none,multidevs=remap"@ + (if ro {
            ",readonly=on"@
        } else {
            Seq::<char>::empty()
        }),
    ]
}

/// Generate arguments for setting up the shared-folder server on the host.
///
/// `id` is the ID for the FS export; `mount_tag` is used inside the guest to
/// find the export.
pub fn plan9_fs_args(host_shared: &str, id: &str, mount_tag: &str, ro: bool) -> (r: Vec<String>)
    ensures
        r.deep_view() == plan9_fs_args_spec(host_shared@, id@, mount_tag@, ro),
{
    let mut args: Vec<String> = Vec::new();
    push_str(&mut args, "-virtfs");
    // This case occurs when the config file path is just the file name.
    let path: &str = if host_shared.unicode_len() == 0 {
        "."
    } else {
        host_shared
    };
    let mut arg = String::from_str("local,id=").concat(id).concat(",path=").concat(path).concat(
        ",mount_tag=",
    ).concat(mount_tag).concat(",security_model=none,multidevs=remap");
    if ro {
        arg = arg.concat(",readonly=on");
    }
    push_string(&mut args, arg);
    proof {
        assert(args.deep_view() =~~= plan9_fs_args_spec(host_shared@, id@, mount_tag@, ro));
    }
    args
}

/// The first well-known firmware location.
pub open spec fn ovmf_path0() -> Seq<char> {
    "/usr/share/edk2/ovmf/OVMF_CODE.fd"@
}

/// The second well-known firmware location.
pub open spec fn ovmf_path1() -> Seq<char> {
    "/usr/share/OVMF/OVMF_CODE.fd"@
}

/// The third well-known firmware location.
pub open spec fn ovmf_path2() -> Seq<char> {
    "/usr/share/edk2-ovmf/x64/OVMF_CODE.fd"@
}

/// The well-known firmware locations, in probe order; the front end checks
/// which of them exist on the host.
pub fn ovmf_candidates() -> (r: Vec<String>)
    ensures
        r.deep_view() == seq![ovmf_path0(), ovmf_path1(), ovmf_path2()],
{
    let mut r: Vec<String> = Vec::new();
    push_str(&mut r, "/usr/share/edk2/ovmf/OVMF_CODE.fd");
    push_str(&mut r, "/usr/share/OVMF/OVMF_CODE.fd");
    push_str(&mut r, "/usr/share/edk2-ovmf/x64/OVMF_CODE.fd");
    proof {
        assert(r.deep_view() =~~= seq![ovmf_path0(), ovmf_path1(), ovmf_path2()]);
    }
    r
}

/// The firmware path chosen from the probe results: the first existing
/// well-known location, or the first location as fallback.
pub open spec fn chosen_ovmf(present: Seq<bool>) -> Seq<char> {
    if present[0] {
        ovmf_path0()
    } else if present[1] {
        ovmf_path1()
    } else if present[2] {
        ovmf_path2()
    } else {
        ovmf_path0()
    }
}

/// The tokens that select the UEFI firmware: an explicit override wins,
/// otherwise the first existing well-known location is used.
pub open spec fn uefi_firmware_args_spec(bios: Option<String>, present: Seq<bool>) -> Seq<
    Seq<char>,
> {
    match bios {
        Some(path) => seq!["-bios"@, path@],
        None => seq!["-bios"@, chosen_ovmf(present)],
    }
}

/// Generate arguments that select the UEFI firmware.
///
/// `present` holds, per well-known firmware location, whether the host has
/// the file; the front end performs the probe.
pub fn uefi_firmware_args(bios: &Option<String>, present: &Vec<bool>) -> (r: Vec<String>)
    requires
        present@.len() == 3,
    ensures
        r.deep_view() == uefi_firmware_args_spec(*bios, present@),
{
    let mut args: Vec<String> = Vec::new();
    push_str(&mut args, "-bios");
    match bios {
        Some(path) => {
            push_string(&mut args, path.clone());
        },
        None => {
            let chosen: &str = if present[0] {
                "/usr/share/edk2/ovmf/OVMF_CODE.fd"
            } else if present[1] {
                "/usr/share/OVMF/OVMF_CODE.fd"
            } else if present[2] {
                "/usr/share/edk2-ovmf/x64/OVMF_CODE.fd"
            } else {
                "/usr/share/edk2/ovmf/OVMF_CODE.fd"
            };
            push_str(&mut args, chosen);
        },
    }
    proof {
        assert(args.deep_view() =~~= uefi_firmware_args_spec(*bios, present@));
    }
    args
}

/// The console device for an architecture: the PL011 serial port on
/// aarch64, the first serial port elsewhere.
pub open spec fn console_device_chars(arch: Seq<char>) -> Seq<char> {
    if arch == "aarch64"@ {
        "ttyAMA0"@
    } else {
        "0"@
    }
}

/// Generate which serial device to use based on the architecture used.
pub fn console_device(arch: &str) -> (r: String)
    ensures
        r@ == console_device_chars(arch@),
{
    if text::str_eq(arch, "aarch64") {
        String::from_str("ttyAMA0")
    } else {
        String::from_str("0")
    }
}

/// The options every shared-folder mount is made with.
pub open spec fn mount_opts_9p() -> Seq<char> {
    "trans=virtio,cache=loose,msize=1048576"@
}

/// The guest kernel command line for a kernel-mode target: root over the
/// shared-folder transport, verbose early console output, the custom init,
/// and an immediate exit on panic; user-supplied kernel arguments come last
/// so they can override the defaults.
pub open spec fn kernel_cmdline_spec(arch: Seq<char>, init: Seq<char>, kargs: Option<String>) -> Seq<
    Seq<char>,
> {
    seq![
        "rootfstype=9p"@,
        "rootflags="@ + mount_opts_9p(),
        "rw"@,
        "earlyprintk=serial,"@ + console_device_chars(arch) + ",115200"@,
        "printk.devkmsg=on"@,
        "console="@ + console_device_chars(arch) + ",115200"@,
        "loglevel=7"@,
        "raid=noautodetect"@,
        "init="@ + init,
        "panic=-1"@,
    ] + (match kargs {
        Some(k) => text::split_ws(k@),
        None => Seq::<Seq<char>>::empty(),
    })
}

/// The tokens that boot a raw kernel with the host userspace as root.
pub open spec fn kernel_args_spec(kernel: Seq<char>, arch: Seq<char>, init: Seq<char>, kargs: Option<String>) -> Seq<
    Seq<char>,
> {
    seq![
        "-kernel"@,
        kernel,
        "-no-reboot"@,
        "-append"@,
        text::join_chars(kernel_cmdline_spec(arch, init, kargs), " "@),
    ]
}

/// Generate arguments for running a kernel with current userspace.
///
/// The host root is mapped onto the guest root and the custom init takes
/// over early boot.  `panic=-1` paired with `-no-reboot` makes the
/// hypervisor exit instead of looping on a kernel panic.
pub fn kernel_args(kernel: &str, arch: &str, init: &str, additional_kargs: &Option<String>) -> (r:
    Vec<String>)
    ensures
        r.deep_view() == kernel_args_spec(kernel@, arch@, init@, *additional_kargs),
{
    let mut cmdline: Vec<String> = Vec::new();
    // Tell kernel the rootfs comes over the shared-folder transport.
    push_str(&mut cmdline, "rootfstype=9p");
    push_string(
        &mut cmdline,
        String::from_str("rootflags=").concat("trans=virtio,cache=loose,msize=1048576"),
    );
    // Mount rootfs readable/writable to make the experience smoother; the
    // user can override with an additional `ro` kernel argument.
    push_str(&mut cmdline, "rw");
    // Show as much console output as we can bear.
    let console = console_device(arch);
    push_string(
        &mut cmdline,
        String::from_str("earlyprintk=serial,").concat(console.as_str()).concat(",115200"),
    );
    // Disable userspace writing ratelimits.
    push_str(&mut cmdline, "printk.devkmsg=on");
    push_string(
        &mut cmdline,
        String::from_str("console=").concat(console.as_str()).concat(",115200"),
    );
    push_str(&mut cmdline, "loglevel=7");
    // We are not using RAID and this will help speed up boot.
    push_str(&mut cmdline, "raid=noautodetect");
    push_string(&mut cmdline, String::from_str("init=").concat(init));
    // Trigger an immediate exit on panic, together with `-no-reboot`.
    push_str(&mut cmdline, "panic=-1");
    if let Some(kargs) = additional_kargs {
        let extra = text::split_whitespace(kargs.as_str());
        append_tokens(&mut cmdline, extra);
    }
    proof {
        assert(cmdline.deep_view() =~~= kernel_cmdline_spec(arch@, init@, *additional_kargs));
    }
    let appended = text::join(&cmdline, " ");
    let mut args: Vec<String> = Vec::new();
    push_str(&mut args, "-kernel");
    push_str(&mut args, kernel);
    push_str(&mut args, "-no-reboot");
    push_str(&mut args, "-append");
    push_string(&mut args, appended);
    proof {
        assert(args.deep_view() =~~= kernel_args_spec(kernel@, arch@, init@, *additional_kargs));
    }
    args
}

/// The tokens that set up the virtio-serial device streaming command output
/// from guest to host.
pub open spec fn virtio_serial_args_spec(sock: Seq<char>) -> Seq<Seq<char>> {
    seq![
        "--device"@,
        "virtio-serial"@,
        "-chardev"@,
        "socket,path="@ + sock + ",server=on,wait=off,id=cmdout"@,
        "--device"@,
        "virtserialport,chardev=cmdout,name=org.qemu.virtio_serial.0"@,
    ]
}

/// Generate arguments for setting up the virtio-serial device that streams
/// command output from guest to host.
pub fn virtio_serial_args(host_sock: &str) -> (r: Vec<String>)
    ensures
        r.deep_view() == virtio_serial_args_spec(host_sock@),
{
    let mut args: Vec<String> = Vec::new();
    push_str(&mut args, "--device");
    push_str(&mut args, "virtio-serial");
    push_str(&mut args, "-chardev");
    push_string(
        &mut args,
        String::from_str("socket,path=").concat(host_sock).concat(",server=on,wait=off,id=cmdout"),
    );
    push_str(&mut args, "--device");
    push_str(&mut args, "virtserialport,chardev=cmdout,name=org.qemu.virtio_serial.0");
    proof {
        assert(args.deep_view() =~~= virtio_serial_args_spec(host_sock@));
    }
    args
}

/// The mount tag a host path is exported under, stable per path.
pub open spec fn mount_tag_chars(host_path: Seq<char>) -> Seq<char> {
    "mount"@ + text::dec_str(fnv1a(host_path) as nat)
}

/// The export tokens for a prefix of the extra-mount list.
pub open spec fn mounts_args_spec(ms: Seq<(String, Mount)>) -> Seq<Seq<char>>
    decreases ms.len(),
{
    if ms.len() == 0 {
        Seq::empty()
    } else {
        mounts_args_spec(ms.drop_last()) + plan9_fs_args_spec(
            ms.last().1.host_path@,
            mount_tag_chars(ms.last().1.host_path@),
            mount_tag_chars(ms.last().1.host_path@),
            !ms.last().1.writable,
        )
    }
}

/// The tokens chosen by the per-target VM knobs: CPU count, memory size,
/// extra shared-folder exports, and raw user tokens last so that they can
/// override earlier settings.
pub open spec fn vmconfig_args_spec(vm: VMConfig) -> Seq<Seq<char>> {
    seq!["-smp"@, text::dec_str(vm.num_cpus as nat), "-m"@, vm.memory@] + mounts_args_spec(
        vm.mounts@,
    ) + vm.extra_args.deep_view()
}

/// Generate arguments for the per-target VM configuration.
pub fn vmconfig_args(vm: &VMConfig) -> (r: Vec<String>)
    ensures
        r.deep_view() == vmconfig_args_spec(*vm),
{
    let mut args: Vec<String> = Vec::new();
    push_str(&mut args, "-smp");
    push_string(&mut args, text::u64_to_string(vm.num_cpus as u64));
    push_str(&mut args, "-m");
    push_string(&mut args, vm.memory.clone());
    let ghost base = args.deep_view();
    let mut i: usize = 0;
    proof {
        assert(mounts_args_spec(vm.mounts@.take(0)) =~= Seq::<Seq<char>>::empty());
        assert(base + mounts_args_spec(vm.mounts@.take(0)) =~= base);
    }
    while i < vm.mounts.len()
        invariant
            i <= vm.mounts@.len(),
            args.deep_view() == base + mounts_args_spec(vm.mounts@.take(i as int)),
        decreases vm.mounts@.len() - i,
    {
        let name = String::from_str("mount").concat(
            text::u64_to_string(hash(vm.mounts[i].1.host_path.as_str())).as_str(),
        );
        let more = plan9_fs_args(
            vm.mounts[i].1.host_path.as_str(),
            name.as_str(),
            name.as_str(),
            !vm.mounts[i].1.writable,
        );
        append_tokens(&mut args, more);
        proof {
            let ms = vm.mounts@;
            assert(ms.take(i as int + 1).drop_last() =~= ms.take(i as int));
            assert(ms.take(i as int + 1).last() == ms[i as int]);
            assert(args.deep_view() =~= base + mounts_args_spec(ms.take(i as int + 1)));
        }
        i = i + 1;
    }
    proof {
        assert(vm.mounts@.take(vm.mounts@.len() as int) =~= vm.mounts@);
    }
    let ghost with_mounts = args.deep_view();
    let mut j: usize = 0;
    proof {
        assert(with_mounts + vm.extra_args.deep_view().take(0) =~= with_mounts);
    }
    while j < vm.extra_args.len()
        invariant
            j <= vm.extra_args@.len(),
            args.deep_view() == with_mounts + vm.extra_args.deep_view().take(j as int),
        decreases vm.extra_args@.len() - j,
    {
        push_string(&mut args, vm.extra_args[j].clone());
        proof {
            let ev = vm.extra_args.deep_view();
            assert(ev[j as int] == vm.extra_args@[j as int]@);
            assert((with_mounts + ev.take(j as int)).push(ev[j as int]) =~= with_mounts + ev.take(
                j as int + 1,
            ));
        }
        j = j + 1;
    }
    proof {
        assert(vm.extra_args.deep_view().take(vm.extra_args@.len() as int) =~= vm.extra_args.deep_view());
        assert(args.deep_view() =~~= vmconfig_args_spec(*vm));
    }
    args
}

// ---------------------------------------------------------------------------
// Guest init path algebra
// ---------------------------------------------------------------------------

/// The index of the last `/` of a path, or -1 when there is none.
pub open spec fn last_slash(s: Seq<char>) -> int
    decreases s.len(),
{
    if s.len() == 0 {
        -1
    } else if s.last() == '/' {
        s.len() - 1
    } else {
        last_slash(s.drop_last())
    }
}

/// The text after the last `/` of a path; the whole path when it has none.
pub open spec fn file_name_chars(h: Seq<char>) -> Seq<char> {
    h.skip(last_slash(h) + 1)
}

/// The text before the last `/` of a path; empty when it has none.
pub open spec fn parent_chars(h: Seq<char>) -> Seq<char> {
    if last_slash(h) >= 0 {
        h.take(last_slash(h))
    } else {
        Seq::empty()
    }
}

/// An absolute guest tmp directory without its leading slash and without a
/// single trailing slash.
pub open spec fn stripped_tmp(g: Seq<char>) -> Seq<char> {
    let d = g.drop_first();
    if d.len() > 0 && d.last() == '/' {
        d.drop_last()
    } else {
        d
    }
}

/// Whether the path `p` ends in the path fragment `gg`: either they agree
/// entirely, or `p` continues with `/` followed by `gg`; the empty fragment
/// is a suffix of everything.
pub open spec fn suffix_ok(p: Seq<char>, gg: Seq<char>) -> bool {
    gg.len() == 0 || p == gg || text::ends_with_chars(p, seq!['/'] + gg)
}

/// When the guest init path can be laid out: the guest tmp directory is
/// absolute, the host init path has a file name, and the guest tmp
/// directory is a suffix of its parent directory.
pub open spec fn gip_ok(g: Seq<char>, h: Seq<char>) -> bool {
    &&& text::starts_with_char(g, '/')
    &&& file_name_chars(h).len() > 0
    &&& suffix_ok(parent_chars(h), stripped_tmp(g))
}

/// The guest init path: the guest tmp directory extended with the file name
/// of the host init file.
pub open spec fn gip_result(g: Seq<char>, h: Seq<char>) -> Seq<char> {
    text::join_path_chars(g, file_name_chars(h))
}

fn find_last_slash(s: &str) -> (r: Option<usize>)
    ensures
        match r {
            Some(k) => last_slash(s@) == k && k < s@.len(),
            None => last_slash(s@) == -1,
        },
{
    let n = s.unicode_len();
    let mut i: usize = n;
    proof {
        assert(s@.take(n as int) =~= s@);
    }
    while i > 0
        invariant
            i <= n,
            n == s@.len(),
            last_slash(s@) == last_slash(s@.take(i as int)),
        decreases i,
    {
        let c = s.get_char(i - 1);
        proof {
            assert(s@.take(i as int).last() == s@[i as int - 1]);
        }
        if c == '/' {
            return Some(i - 1);
        }
        proof {
            assert(s@.take(i as int).drop_last() =~= s@.take(i as int - 1));
        }
        i = i - 1;
    }
    proof {
        assert(s@.take(0) =~= Seq::<char>::empty());
    }
    None
}

fn staging_error(what: &'static str) -> (r: VmError)
    ensures
        r.kind == ErrorKind::InitStaging,
{
    VmError::new(ErrorKind::InitStaging, String::from_str(what))
}

/// Given the guest tmp directory and the host path of the init file,
/// compute the path at which the file is visible inside the guest.
///
/// The guest tmp directory must be absolute and be a suffix of the parent
/// directory of the host init path; inputs where the suffix relation fails
/// are rejected.
pub fn guest_init_path(guest_temp_dir: &str, host_init_path: &str) -> (r: Result<String, VmError>)
    ensures
        r is Ok <==> gip_ok(guest_temp_dir@, host_init_path@),
        r matches Ok(p) ==> p@ == gip_result(guest_temp_dir@, host_init_path@),
        r matches Err(e) ==> e.kind == ErrorKind::InitStaging,
{
    let g = guest_temp_dir;
    let h = host_init_path;
    if !text::str_starts_with_char(g, '/') {
        return Err(staging_error("guest temp dir should be an absolute path"));
    }
    let n = h.unicode_len();
    let ls = find_last_slash(h);
    let name_start: usize = match ls {
        Some(k) => k + 1,
        None => 0,
    };
    let name = h.substring_char(name_start, n);
    proof {
        assert(h@.subrange(name_start as int, n as int) =~= file_name_chars(h@));
    }
    if name.unicode_len() == 0 {
        return Err(staging_error("host init path should have a file name"));
    }
    let parent: &str = match ls {
        Some(k) => h.substring_char(0, k),
        None => "",
    };
    proof {
        reveal_strlit("");
        assert(""@ =~= Seq::<char>::empty());
        if ls is Some {
            assert(h@.subrange(0, last_slash(h@)) =~= h@.take(last_slash(h@)));
        }
        assert(parent@ == parent_chars(h@));
    }
    let glen = g.unicode_len();
    let d = g.substring_char(1, glen);
    let gg: &str = if text::str_ends_with_char(d, '/') {
        g.substring_char(1, glen - 1)
    } else {
        d
    };
    proof {
        assert(g@.subrange(1, glen as int) =~= g@.drop_first());
        if g@.drop_first().len() > 0 && g@.drop_first().last() == '/' {
            assert(g@.subrange(1, glen as int - 1) =~= g@.drop_first().drop_last());
        }
        assert(gg@ == stripped_tmp(g@));
    }
    let ok: bool = if gg.unicode_len() == 0 {
        true
    } else if text::str_eq(parent, gg) {
        true
    } else {
        proof {
            reveal_strlit("/");
        }
        let pat = String::from_str("/").concat(gg);
        proof {
            assert("/"@ =~= seq!['/']);
        }
        text::str_ends_with(parent, pat.as_str())
    };
    if !ok {
        return Err(
            staging_error(
                "guest temp dir should be a suffix of the parent of the host init path",
            ),
        );
    }
    Ok(text::join_path(g, name))
}

proof fn lemma_last_slash_append_no_slash(p: Seq<char>, name: Seq<char>)
    requires
        forall|i: int| 0 <= i < name.len() ==> name[i] != '/',
    ensures
        last_slash(p + name) == last_slash(p),
    decreases name.len(),
{
    if name.len() == 0 {
        assert(p + name =~= p);
    } else {
        assert((p + name).last() == name.last());
        assert((p + name).drop_last() =~= p + name.drop_last());
        lemma_last_slash_append_no_slash(p, name.drop_last());
    }
}

/// The path algebra law of the init stager: materialising a file called
/// `name` directly inside the guest tmp directory is accepted, and the
/// computed guest path is exactly the joined path again.
pub proof fn lemma_guest_init_path_law(g: Seq<char>, name: Seq<char>)
    requires
        text::starts_with_char(g, '/'),
        name.len() > 0,
        forall|i: int| 0 <= i < name.len() ==> name[i] != '/',
    ensures
        gip_ok(g, text::join_path_chars(g, name)),
        gip_result(g, text::join_path_chars(g, name)) == text::join_path_chars(g, name),
{
    let h = text::join_path_chars(g, name);
    if g.last() == '/' {
        assert(h == g + name);
        lemma_last_slash_append_no_slash(g, name);
        assert(last_slash(g) == g.len() - 1);
        assert(last_slash(h) == g.len() - 1);
        assert(file_name_chars(h) =~= name);
        let parent = parent_chars(h);
        assert(parent =~= g.drop_last());
        let d = g.drop_first();
        if g.len() == 1 {
            assert(stripped_tmp(g).len() == 0);
        } else {
            assert(d.len() > 0 && d.last() == '/');
            let gg = stripped_tmp(g);
            assert(gg == d.drop_last());
            assert(parent =~= seq!['/'] + gg);
            assert(parent.skip(0) =~= parent);
            assert(text::ends_with_chars(parent, seq!['/'] + gg));
        }
        assert(gip_result(g, h) == text::join_path_chars(g, file_name_chars(h)));
        assert(file_name_chars(h) == name);
    } else {
        assert(h == g + seq!['/'] + name);
        assert(h =~= (g + seq!['/']) + name);
        lemma_last_slash_append_no_slash(g + seq!['/'], name);
        assert((g + seq!['/']).last() == '/');
        assert(last_slash(g + seq!['/']) == g.len());
        assert(last_slash(h) == g.len());
        assert(file_name_chars(h) =~= name);
        let parent = parent_chars(h);
        assert(parent =~= g);
        let d = g.drop_first();
        assert(g.len() >= 1);
        if d.len() > 0 && d.last() == '/' {
            assert(g.last() == '/');
        }
        let gg = stripped_tmp(g);
        assert(gg == d);
        if gg.len() == 0 {
        } else {
            assert(parent =~= seq!['/'] + gg);
            assert(parent.skip(0) =~= parent);
            assert(text::ends_with_chars(parent, seq!['/'] + gg));
        }
        assert(file_name_chars(h) == name);
    }
}

// ---------------------------------------------------------------------------
// Command script
// ---------------------------------------------------------------------------

/// The bash script that carries the user command into the guest: it
/// redirects its own stdout and stderr to the virtio-serial output port,
/// changes into the shared directory when guest and host share a userspace,
/// and then runs the command.
pub open spec fn command_script_chars(should_cd: bool, host_shared: Seq<char>, command: Seq<char>) -> Seq<
    char,
> {
    "exec > /dev/virtio-ports/org.qemu.virtio_serial.0 2>&1\n"@ + (if should_cd {
        "cd "@ + host_shared + "\n"@
    } else {
        Seq::<char>::empty()
    }) + command + "\n"@
}

/// Render the command script from its three inputs.
pub fn render_command_script(should_cd: bool, host_shared: &str, command: &str) -> (r: String)
    ensures
        r@ == command_script_chars(should_cd, host_shared@, command@),
{
    let mut script = String::from_str(
        "exec > /dev/virtio-ports/org.qemu.virtio_serial.0 2>&1\n",
    );
    if should_cd {
        // Only `cd` for kernel targets that share userspace with the host.
        script = script.concat("cd ").concat(host_shared).concat("\n");
    }
    let r = script.concat(command).concat("\n");
    proof {
        assert(r@ =~= command_script_chars(should_cd, host_shared@, command@));
    }
    r
}

// ---------------------------------------------------------------------------
// The per-run plan
// ---------------------------------------------------------------------------

/// The argument block of an image-mode target: the boot drive, and the UEFI
/// firmware selection when requested.
pub open spec fn image_mode_block(image: Seq<char>, uefi: bool, bios: Option<String>, present: Seq<bool>) -> Seq<
    Seq<char>,
> {
    drive_args_spec(image, 1) + (if uefi {
        uefi_firmware_args_spec(bios, present)
    } else {
        Seq::<Seq<char>>::empty()
    })
}

/// The argument block of a kernel-mode target: the host root exported under
/// the tag the kernel finds its root by, then the kernel and its command
/// line.
pub open spec fn kernel_mode_block(kernel: Seq<char>, rootfs: Seq<char>, arch: Seq<char>, init: Seq<char>, kargs: Option<String>) -> Seq<
    Seq<char>,
> {
    plan9_fs_args_spec(rootfs, "root"@, "/dev/root"@, false) + kernel_args_spec(
        kernel,
        arch,
        init,
        kargs,
    )
}

/// The boot-mode argument block of a valid target: exactly one of the image
/// block and the kernel block.
pub open spec fn mode_block_spec(t: Target, present: Seq<bool>, guest_init: Seq<char>) -> Seq<
    Seq<char>,
> {
    match t.image {
        Some(image) => image_mode_block(image@, t.uefi, t.vm.bios, present),
        None => match t.kernel {
            Some(kernel) => kernel_mode_block(
                kernel@,
                t.rootfs@,
                t.arch@,
                guest_init,
                t.kernel_args,
            ),
            None => Seq::empty(),
        },
    }
}

/// The full hypervisor argument vector for a target.
pub open spec fn qemu_args_spec(
    t: Target,
    host: HostEnv,
    host_shared: Seq<char>,
    guest_init: Seq<char>,
    qga_sock: Seq<char>,
    qmp_sock: Seq<char>,
    cmd_sock: Seq<char>,
) -> Seq<Seq<char>> {
    seq!["-nodefaults"@, "-display"@, "none"@, "-serial"@, "stdio"@] + kvm_args_spec(
        t.arch@,
        host,
    ) + machine_args_spec(t.arch@) + machine_protocol_args_spec(qmp_sock) + guest_agent_args_spec(
        qga_sock,
    ) + virtio_serial_args_spec(cmd_sock) + mode_block_spec(t, host.ovmf_present@, guest_init)
        + plan9_fs_args_spec(host_shared, "shared"@, "shared-mount"@, false) + vmconfig_args_spec(
        t.vm,
    )
}

/// The program a target is launched with: the per-target override, or
/// `qemu-system-<arch>`.
pub open spec fn program_chars(t: Target) -> Seq<char> {
    match t.qemu_command {
        Some(c) => c@,
        None => "qemu-system-"@ + t.arch@,
    }
}

/// The guest-path, tag and read-only flag of one extra mount.
pub open spec fn mount_views(ms: Seq<(String, Mount)>) -> Seq<(Seq<char>, Seq<char>, bool)> {
    ms.map_values(|p: (String, Mount)| (p.0@, p.1.host_path@, p.1.writable))
}

pub(crate) fn clone_mounts(ms: &Vec<(String, Mount)>) -> (r: Vec<(String, Mount)>)
    ensures
        mount_views(r@) == mount_views(ms@),
{
    let mut r: Vec<(String, Mount)> = Vec::new();
    let mut i: usize = 0;
    while i < ms.len()
        invariant
            i <= ms@.len(),
            r@.len() == i,
            forall|k: int|
                0 <= k < i ==> (#[trigger] r@[k]).0@ == ms@[k].0@ && r@[k].1.host_path@
                    == ms@[k].1.host_path@ && r@[k].1.writable == ms@[k].1.writable,
        decreases ms@.len() - i,
    {
        let guest_path = ms[i].0.clone();
        let m = Mount { host_path: ms[i].1.host_path.clone(), writable: ms[i].1.writable };
        r.push((guest_path, m));
        i = i + 1;
    }
    proof {
        assert(mount_views(r@) =~= mount_views(ms@));
    }
    r
}

/// Represents a single planned QEMU instance: the program and argument
/// vector to spawn, the sockets it will open, and everything the run state
/// machine needs to drive the guest afterwards.
pub struct Qemu {
    /// The hypervisor binary.
    pub program: String,
    /// Its argument vector.
    pub argv: Vec<String>,
    /// Path of the guest agent socket.
    pub qga_sock: String,
    /// Path of the control socket.
    pub qmp_sock: String,
    /// Path of the virtio-serial socket that streams command output.
    pub command_sock: String,
    /// The user command to run inside the guest.
    pub command: String,
    /// Host directory shared into the guest.
    pub host_shared: String,
    /// Host path the guest uses as its root (kernel mode).
    pub rootfs: String,
    /// Guest architecture tag.
    pub arch: String,
    /// Extra mounts, keyed by guest path.
    pub mounts: Vec<(String, Mount)>,
    /// Path of the init file inside the guest.
    pub guest_init: String,
    /// Whether this is an image target.
    pub image: bool,
    /// Whether hardware acceleration backs the guest.
    pub has_kvm: bool,
}

impl Qemu {
    /// What `new` promises about a plan it returns for a target.
    pub open spec fn fresh_for(
        self,
        t: Target,
        host: HostEnv,
        host_shared: Seq<char>,
        host_tmp: Seq<char>,
        host_init: Seq<char>,
    ) -> bool {
        &&& self.program@ == program_chars(t)
        &&& (exists|id: nat| 100000 <= id < 1000000 && self.qga_sock@ == sock_path_chars("qga"@, id))
        &&& (exists|id: nat| 100000 <= id < 1000000 && self.qmp_sock@ == sock_path_chars("qmp"@, id))
        &&& (exists|id: nat|
            100000 <= id < 1000000 && self.command_sock@ == sock_path_chars("cmdout"@, id))
        &&& self.guest_init@ == gip_result(host_tmp, host_init)
        &&& self.argv.deep_view() == qemu_args_spec(
            t,
            host,
            host_shared,
            self.guest_init@,
            self.qga_sock@,
            self.qmp_sock@,
            self.command_sock@,
        )
        &&& self.command@ == t.command@
        &&& self.host_shared@ == host_shared
        &&& self.rootfs@ == t.rootfs@
        &&& self.arch@ == t.arch@
        &&& mount_views(self.mounts@) == mount_views(t.vm.mounts@)
        &&& self.image == (t.image is Some)
        &&& self.has_kvm == host_supports_kvm_spec(t.arch@, host)
    }

    /// Construct a QEMU plan backing a vmtest target.
    ///
    /// Does not run anything yet.  `host_tmp` is the host tmp directory and
    /// `host_init` the path of the already materialised init file; the call
    /// fails exactly when the guest init path cannot be derived from them.
    pub fn new(
        target: &Target,
        host_shared: &str,
        host_tmp: &str,
        host_init: &str,
        host: &HostEnv,
    ) -> (r: Result<Qemu, VmError>)
        requires
            crate::vmtest::target_valid(*target),
            host.ovmf_present@.len() == 3,
        ensures
            r is Ok <==> gip_ok(host_tmp@, host_init@),
            r matches Ok(q) ==> q.fresh_for(*target, *host, host_shared@, host_tmp@, host_init@),
            r matches Err(e) ==> e.kind == ErrorKind::InitStaging,
    {
        let qga_sock = gen_sock("qga");
        let qmp_sock = gen_sock("qmp");
        let command_sock = gen_sock("cmdout");
        let guest_init = match guest_init_path(host_tmp, host_init) {
            Ok(p) => p,
            Err(e) => {
                return Err(e);
            },
        };
        let program = match &target.qemu_command {
            Some(c) => c.clone(),
            None => String::from_str("qemu-system-").concat(target.arch.as_str()),
        };
        let mut argv: Vec<String> = Vec::new();
        push_str(&mut argv, "-nodefaults");
        push_str(&mut argv, "-display");
        push_str(&mut argv, "none");
        push_str(&mut argv, "-serial");
        push_str(&mut argv, "stdio");
        append_tokens(&mut argv, kvm_args(target.arch.as_str(), host));
        append_tokens(&mut argv, machine_args(target.arch.as_str()));
        append_tokens(&mut argv, machine_protocol_args(qmp_sock.as_str()));
        append_tokens(&mut argv, guest_agent_args(qga_sock.as_str()));
        append_tokens(&mut argv, virtio_serial_args(command_sock.as_str()));
        // Always ensure the root drive or root share comes first.
        if let Some(image) = &target.image {
            append_tokens(&mut argv, drive_args(image.as_str(), 1));
            if target.uefi {
                append_tokens(&mut argv, uefi_firmware_args(&target.vm.bios, &host.ovmf_present));
            }
        } else {
            match &target.kernel {
                Some(kernel) => {
                    append_tokens(
                        &mut argv,
                        plan9_fs_args(target.rootfs.as_str(), "root", "/dev/root", false),
                    );
                    append_tokens(
                        &mut argv,
                        kernel_args(
                            kernel.as_str(),
                            target.arch.as_str(),
                            guest_init.as_str(),
                            &target.kernel_args,
                        ),
                    );
                },
                None => {
                    // Validation enforces image XOR kernel, so this branch
                    // cannot be reached.
                    return Err(staging_error("target has neither image nor kernel"));
                },
            }
        }
        // Now add the shared mount and the other extra mounts.
        append_tokens(
            &mut argv,
            plan9_fs_args(host_shared, "shared", "shared-mount", false),
        );
        append_tokens(&mut argv, vmconfig_args(&target.vm));
        proof {
            assert(argv.deep_view() =~~= qemu_args_spec(
                *target,
                *host,
                host_shared@,
                guest_init@,
                qga_sock@,
                qmp_sock@,
                command_sock@,
            ));
        }
        Ok(
            Qemu {
                program,
                argv,
                qga_sock,
                qmp_sock,
                command_sock,
                command: target.command.clone(),
                host_shared: host_shared.to_owned(),
                rootfs: target.rootfs.clone(),
                arch: target.arch.clone(),
                mounts: clone_mounts(&target.vm.mounts),
                guest_init,
                image: target.image.is_some(),
                has_kvm: host_supports_kvm(target.arch.as_str(), host),
            },
        )
    }

    /// Generates the bash script that runs the user command.
    ///
    /// The script changes into the shared directory first exactly when the
    /// target shares its userspace with the host: a kernel target whose
    /// rootfs is the host root.
    pub fn command_script(&self) -> (r: String)
        ensures
            r@ == command_script_chars(
                !self.image && self.rootfs@ == "/"@,
                self.host_shared@,
                self.command@,
            ),
    {
        let should_cd = !self.image && text::str_eq(self.rootfs.as_str(), "/");
        render_command_script(should_cd, self.host_shared.as_str(), self.command.as_str())
    }
}

/// The determinism law: the argument vector is a function of the target,
/// the host capabilities and the chosen socket paths alone — two plans
/// built for the same target that drew the same socket names carry the same
/// program, the same guest init path and the same token vector.  In
/// particular the drive and mount identifiers, which are derived by
/// hashing, are stable across runs for the same input.
pub proof fn lemma_argbuilder_deterministic(
    q1: Qemu,
    q2: Qemu,
    t: Target,
    host: HostEnv,
    host_shared: Seq<char>,
    host_tmp: Seq<char>,
    host_init: Seq<char>,
)
    requires
        q1.fresh_for(t, host, host_shared, host_tmp, host_init),
        q2.fresh_for(t, host, host_shared, host_tmp, host_init),
        q1.qga_sock@ == q2.qga_sock@,
        q1.qmp_sock@ == q2.qmp_sock@,
        q1.command_sock@ == q2.command_sock@,
    ensures
        q1.program@ == q2.program@,
        q1.guest_init@ == q2.guest_init@,
        q1.argv.deep_view() == q2.argv.deep_view(),
{
}

/// The boot-mode law: a valid target is in exactly one of image mode and
/// kernel mode, and the mode block of the argument vector is the image
/// block exactly in the first case and the kernel block exactly in the
/// second.  The two blocks are distinct: the image block opens with the
/// drive token, the kernel block carries the kernel token at its third
/// position, and no block is both.
pub proof fn lemma_mode_xor(t: Target, present: Seq<bool>, guest_init: Seq<char>)
    requires
        crate::vmtest::target_valid(t),
    ensures
        (t.image is Some) != (t.kernel is Some),
        t.image matches Some(image) ==> mode_block_spec(t, present, guest_init)
            == image_mode_block(image@, t.uefi, t.vm.bios, present),
        t.kernel matches Some(kernel) ==> mode_block_spec(t, present, guest_init)
            == kernel_mode_block(kernel@, t.rootfs@, t.arch@, guest_init, t.kernel_args),
        t.image matches Some(image) ==> image_mode_block(image@, t.uefi, t.vm.bios, present)[0]
            == "-drive"@ && image_mode_block(image@, t.uefi, t.vm.bios, present)[0] != "-kernel"@,
        t.kernel matches Some(kernel) ==> kernel_mode_block(
            kernel@,
            t.rootfs@,
            t.arch@,
            guest_init,
            t.kernel_args,
        )[2] == "-kernel"@ && kernel_mode_block(
            kernel@,
            t.rootfs@,
            t.arch@,
            guest_init,
            t.kernel_args,
        )[2] != "-drive"@,
{
    reveal_strlit("-drive");
    reveal_strlit("-kernel");
    assert("-drive"@.len() == 6);
    assert("-kernel"@.len() == 7);
    match t.image {
        Some(image) => {
            let blk = image_mode_block(image@, t.uefi, t.vm.bios, present);
            assert(blk[0] == drive_args_spec(image@, 1)[0]);
            assert(drive_args_spec(image@, 1)[0] == "-drive"@);
        },
        None => {},
    }
    match t.kernel {
        Some(kernel) => {
            let blk = kernel_mode_block(kernel@, t.rootfs@, t.arch@, guest_init, t.kernel_args);
            let p9 = plan9_fs_args_spec(t.rootfs@, "root"@, "/dev/root"@, false);
            assert(p9.len() == 2);
            assert(blk[2] == kernel_args_spec(kernel@, t.arch@, guest_init, t.kernel_args)[0]);
        },
        None => {},
    }
}

} // verus!
