use vstd::prelude::*;

use crate::config::Config;
use crate::config::Target;
use crate::config::VMConfig;
use crate::errors::ErrorKind;
use crate::errors::VmError;
use crate::qemu::HostEnv;
use crate::qemu::Qemu;
use crate::qemu;
use crate::text;

verus! {

/// What resolving a path against a base directory yields: absolute inputs
/// are kept, relative ones are joined onto the base.
pub open spec fn resolve_chars(base: Seq<char>, input: Seq<char>) -> Seq<char> {
    if text::starts_with_char(input, '/') {
        input
    } else {
        text::join_path_chars(base, input)
    }
}

/// Whether two optional strings agree in content.
pub open spec fn opt_eq(a: Option<String>, b: Option<String>) -> bool {
    match (a, b) {
        (Some(x), Some(y)) => x@ == y@,
        (None, None) => true,
        _ => false,
    }
}

/// Whether `a` is `b` resolved against `base`.
pub open spec fn opt_resolved(a: Option<String>, b: Option<String>, base: Seq<char>) -> bool {
    match (a, b) {
        (Some(x), Some(y)) => x@ == resolve_chars(base, y@),
        (None, None) => true,
        _ => false,
    }
}

/// Whether target `r` is target `t` with every path-valued field resolved
/// against `base`.  Mount host paths are passed to the hypervisor as given.
pub open spec fn resolved_of(r: Target, t: Target, base: Seq<char>) -> bool {
    &&& r.name@ == t.name@
    &&& opt_resolved(r.image, t.image, base)
    &&& r.uefi == t.uefi
    &&& opt_resolved(r.kernel, t.kernel, base)
    &&& opt_eq(r.kernel_args, t.kernel_args)
    &&& r.rootfs@ == resolve_chars(base, t.rootfs@)
    &&& r.arch@ == t.arch@
    &&& opt_eq(r.qemu_command, t.qemu_command)
    &&& r.command@ == t.command@
    &&& r.vm.num_cpus == t.vm.num_cpus
    &&& r.vm.memory@ == t.vm.memory@
    &&& qemu::mount_views(r.vm.mounts@) == qemu::mount_views(t.vm.mounts@)
    &&& opt_resolved(r.vm.bios, t.vm.bios, base)
    &&& r.vm.extra_args.deep_view() == t.vm.extra_args.deep_view()
}

/// The configuration invariants checked before any process is spawned.
///
/// Exactly one of image and kernel is set; UEFI boot needs an image; an
/// explicit firmware path needs UEFI; kernel arguments need a kernel; every
/// path that is set is non-empty; the name and the command are non-empty.
pub open spec fn target_valid(t: Target) -> bool {
    &&& t.name@.len() > 0
    &&& (t.image is Some) != (t.kernel is Some)
    &&& t.uefi ==> t.image is Some
    &&& t.vm.bios is Some ==> t.uefi
    &&& t.kernel_args is Some ==> t.kernel is Some
    &&& t.image matches Some(p) ==> p@.len() > 0
    &&& t.kernel matches Some(p) ==> p@.len() > 0
    &&& t.vm.bios matches Some(p) ==> p@.len() > 0
    &&& t.rootfs@.len() > 0
    &&& t.command@.len() > 0
}

/// Whether every target of a configuration is valid.
pub open spec fn config_valid(c: Config) -> bool {
    forall|i: int| 0 <= i < c.target@.len() ==> target_valid(#[trigger] c.target@[i])
}

fn config_error(name: &str, what: &'static str) -> (r: VmError)
    ensures
        r.kind == ErrorKind::ConfigInvalid,
{
    let msg = String::from_str("Target '").concat(name).concat("' ").concat(what);
    VmError::new(ErrorKind::ConfigInvalid, msg)
}

fn check_target(t: &Target) -> (r: Result<(), VmError>)
    ensures
        r is Ok <==> target_valid(*t),
        r matches Err(e) ==> e.kind == ErrorKind::ConfigInvalid,
{
    if t.name.as_str().unicode_len() == 0 {
        return Err(VmError::new(
            ErrorKind::ConfigInvalid,
            String::from_str("Target with empty name"),
        ));
    }
    // Must choose image XOR kernel.  Images typically rely on their own
    // initramfs to locate the root disk, so a kernel cannot be combined
    // with an image.
    match (&t.image, &t.kernel) {
        (None, None) => {
            return Err(config_error(t.name.as_str(), "must specify 'image' or 'kernel'"));
        },
        (Some(_), Some(_)) => {
            return Err(config_error(t.name.as_str(), "specified both 'image' and 'kernel'"));
        },
        _ => (),
    }
    if t.uefi && t.image.is_none() {
        return Err(config_error(t.name.as_str(), "must specify 'image' with 'uefi'"));
    }
    if !t.uefi && t.vm.bios.is_some() {
        return Err(config_error(t.name.as_str(), "cannot specify a bios without setting 'uefi'"));
    }
    if t.kernel_args.is_some() && t.kernel.is_none() {
        return Err(config_error(t.name.as_str(), "must specify 'kernel' with 'kernel_args'"));
    }
    if let Some(image) = &t.image {
        if image.as_str().unicode_len() == 0 {
            return Err(config_error(t.name.as_str(), "has empty image path"));
        }
    }
    if let Some(kernel) = &t.kernel {
        if kernel.as_str().unicode_len() == 0 {
            return Err(config_error(t.name.as_str(), "has empty kernel path"));
        }
    }
    if let Some(bios) = &t.vm.bios {
        if bios.as_str().unicode_len() == 0 {
            return Err(config_error(t.name.as_str(), "has empty bios path"));
        }
    }
    if t.rootfs.as_str().unicode_len() == 0 {
        return Err(config_error(t.name.as_str(), "has empty rootfs path"));
    }
    if t.command.as_str().unicode_len() == 0 {
        return Err(config_error(t.name.as_str(), "has empty command"));
    }
    Ok(())
}

/// Validate the statically known config parameters.
///
/// Returns an error naming the first offending target; succeeds exactly when
/// every target satisfies the invariants, so that nothing is ever spawned for
/// an invalid configuration.
pub fn validate_config(config: &Config) -> (r: Result<(), VmError>)
    ensures
        r is Ok <==> config_valid(*config),
        r matches Err(e) ==> e.kind == ErrorKind::ConfigInvalid,
{
    let n = config.target.len();
    let mut i: usize = 0;
    while i < n
        invariant
            n == config.target@.len(),
            i <= n,
            forall|k: int| 0 <= k < i ==> target_valid(#[trigger] config.target@[k]),
        decreases n - i,
    {
        match check_target(&config.target[i]) {
            Ok(()) => (),
            Err(e) => {
                return Err(e);
            },
        }
        i = i + 1;
    }
    Ok(())
}

/// Central vmtest data structure.
pub struct Vmtest {
    /// The directory all relative config paths are resolved against.
    pub base: String,
    /// The validated configuration.
    pub config: Config,
}

impl Vmtest {
    /// Construct a new instance.
    ///
    /// `base` is the working directory all relative config paths should be
    /// based off of.  This is typically the directory the configuration file
    /// is found in.  Fails exactly when the configuration is invalid.
    pub fn new(base: String, config: Config) -> (r: Result<Vmtest, VmError>)
        ensures
            r is Ok <==> config_valid(config),
            r matches Ok(v) ==> v.base == base && v.config == config,
            r matches Err(e) ==> e.kind == ErrorKind::ConfigInvalid,
    {
        match validate_config(&config) {
            Ok(()) => Ok(Vmtest { base, config }),
            Err(e) => Err(e),
        }
    }

    /// What resolving a path against the base directory yields: absolute
    /// inputs are kept, relative ones are joined onto the base.
    pub open spec fn resolve_spec(&self, input: Seq<char>) -> Seq<char> {
        if text::starts_with_char(input, '/') {
            input
        } else {
            text::join_path_chars(self.base@, input)
        }
    }

    /// Resolve an input path relative to the base path.
    pub fn resolve_path(&self, input: &str) -> (r: String)
        ensures
            r@ == self.resolve_spec(input@),
    {
        if text::str_starts_with_char(input, '/') {
            input.to_owned()
        } else {
            text::join_path(self.base.as_str(), input)
        }
    }

    /// Returns registered targets.
    pub fn targets(&self) -> (r: &Vec<Target>)
        ensures
            r == &self.config.target,
    {
        &self.config.target
    }

    fn resolve_opt(&self, p: &Option<String>) -> (r: Option<String>)
        ensures
            opt_resolved(r, *p, self.base@),
    {
        match p {
            Some(path) => Some(self.resolve_path(path.as_str())),
            None => None,
        }
    }

    fn clone_opt(p: &Option<String>) -> (r: Option<String>)
        ensures
            opt_eq(r, *p),
    {
        match p {
            Some(s) => Some(s.clone()),
            None => None,
        }
    }

    fn resolve_target(&self, t: &Target) -> (r: Target)
        ensures
            resolved_of(r, *t, self.base@),
            target_valid(*t) ==> target_valid(r),
    {
        let r = Target {
            name: t.name.clone(),
            image: self.resolve_opt(&t.image),
            uefi: t.uefi,
            kernel: self.resolve_opt(&t.kernel),
            kernel_args: Self::clone_opt(&t.kernel_args),
            rootfs: self.resolve_path(t.rootfs.as_str()),
            arch: t.arch.clone(),
            qemu_command: Self::clone_opt(&t.qemu_command),
            command: t.command.clone(),
            vm: VMConfig {
                num_cpus: t.vm.num_cpus,
                memory: t.vm.memory.clone(),
                mounts: qemu::clone_mounts(&t.vm.mounts),
                bios: self.resolve_opt(&t.vm.bios),
                extra_args: clone_strings(&t.vm.extra_args),
            },
        };
        r
    }

    fn setup_qemu(
        &self,
        idx: usize,
        host_tmp: &str,
        host_init: &str,
        host: &HostEnv,
    ) -> (r: Result<Qemu, VmError>)
        requires
            config_valid(self.config),
            host.ovmf_present@.len() == 3,
        ensures
            r is Ok <==> idx < self.config.target@.len() && qemu::gip_ok(host_tmp@, host_init@),
            r matches Ok(q) ==> exists|t2: Target|
                #[trigger] q.fresh_for(t2, *host, self.base@, host_tmp@, host_init@)
                    && resolved_of(t2, self.config.target@[idx as int], self.base@),
            r matches Err(e) ==> if idx >= self.config.target@.len() {
                e.kind == ErrorKind::IndexOutOfRange
            } else {
                e.kind == ErrorKind::InitStaging
            },
    {
        if idx >= self.config.target.len() {
            return Err(
                VmError::new(
                    ErrorKind::IndexOutOfRange,
                    String::from_str("target index out of range"),
                ),
            );
        }
        let target = self.resolve_target(&self.config.target[idx]);
        Qemu::new(&target, self.base.as_str(), host_tmp, host_init, host)
    }

    /// Prepare the run of a single target.
    ///
    /// `idx` is the position of the target in the target list (0-indexed).
    /// The returned plan is handed to the run state machine; on an error
    /// nothing has been spawned, and the caller reports it as the end of
    /// the boot stage.
    pub fn run_one(
        &self,
        idx: usize,
        host_tmp: &str,
        host_init: &str,
        host: &HostEnv,
    ) -> (r: Result<Qemu, VmError>)
        requires
            config_valid(self.config),
            host.ovmf_present@.len() == 3,
        ensures
            r is Ok <==> idx < self.config.target@.len() && qemu::gip_ok(host_tmp@, host_init@),
            r matches Ok(q) ==> exists|t2: Target|
                #[trigger] q.fresh_for(t2, *host, self.base@, host_tmp@, host_init@)
                    && resolved_of(t2, self.config.target@[idx as int], self.base@),
            r matches Err(e) ==> if idx >= self.config.target@.len() {
                e.kind == ErrorKind::IndexOutOfRange
            } else {
                e.kind == ErrorKind::InitStaging
            },
    {
        self.setup_qemu(idx, host_tmp, host_init, host)
    }
}

fn clone_strings(v: &Vec<String>) -> (r: Vec<String>)
    ensures
        r.deep_view() == v.deep_view(),
{
    let mut r: Vec<String> = Vec::new();
    let mut i: usize = 0;
    while i < v.len()
        invariant
            i <= v@.len(),
            r@.len() == i,
            forall|k: int| 0 <= k < i ==> (#[trigger] r@[k])@ == v@[k]@,
        decreases v@.len() - i,
    {
        r.push(v[i].clone());
        i = i + 1;
    }
    proof {
        assert(r.deep_view() =~= v.deep_view());
    }
    r
}

} // verus!
