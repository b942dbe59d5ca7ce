use std::collections::HashMap;
use vstd::prelude::*;

use crate::status::Status;

verus! {

/// Version of the OCI runtime specification that this runtime writes.
pub const OCI_VERSION: &'static str = "1.0.1-dev";

/// Read-only report of a container, as the `state` operation prints it.
#[derive(Clone, Debug)]
pub struct State {
    pub oci_version: String,
    pub id: String,
    pub status: Status,
    pub pid: Option<i32>,
    pub bundle: String,
    pub rootfs: String,
    pub owner: String,
    pub annotation: Option<HashMap<String, String>>,
    pub created: Option<String>,
}

/// The configuration document of a bundle.
#[derive(Clone, Debug)]
pub struct Spec {
    pub oci_version: String,
    pub process: Option<Process>,
    pub root: Root,
    pub hostname: Option<String>,
    pub mounts: Vec<Mount>,
    pub hooks: Option<Hooks>,
    pub annotations: Option<HashMap<String, String>>,
    pub linux: Option<Linux>,
    pub solaris: Option<Solaris>,
    pub windows: Option<Windows>,
    pub vm: Option<VM>,
}

#[derive(Clone, Debug)]
pub struct Process {
    pub terminal: Option<bool>,
    pub console_size: Option<Box>,
    pub user: User,
    pub args: Vec<String>,
    pub env: Option<Vec<String>>,
    pub command_line: Option<String>,
    pub cwd: String,
    pub capabilities: Option<LinuxCapabilities>,
    pub rlimits: Option<Vec<POSIXRlimit>>,
    pub no_new_privileges: Option<bool>,
    pub apparmor_profile: Option<String>,
    pub oom_score_adj: Option<i32>,
    pub selinux_label: Option<String>,
}

#[derive(Clone, Debug)]
pub struct LinuxCapabilities {
    pub bounding: Option<Vec<String>>,
    pub effective: Option<Vec<String>>,
    pub inheritable: Option<Vec<String>>,
    pub permitted: Option<Vec<String>>,
    pub ambient: Option<Vec<String>>,
}

/// Size of a console, in characters.
#[derive(Clone, Debug)]
pub struct Box {
    pub height: u64,
    pub width: u64,
}

#[derive(Clone, Debug)]
pub struct Root {
    pub path: String,
    pub readonly: Option<bool>,
}

#[derive(Clone, Debug)]
pub struct Mount {
    pub destination: String,
    pub type_: String,
    pub source: String,
    pub options: Option<Vec<String>>,
}

#[derive(Clone, Debug)]
pub struct Hook {
    pub path: String,
    pub args: Option<Vec<String>>,
    pub env: Option<Vec<String>>,
    pub timeout: Option<u32>,
}

#[derive(Clone, Debug)]
pub struct Hooks {
    pub prestart: Option<Vec<Hook>>,
    pub create_runtime: Option<Vec<Hook>>,
    pub create_container: Option<Vec<Hook>>,
    pub start_container: Option<Vec<Hook>>,
    pub poststart: Option<Vec<Hook>>,
    pub poststop: Option<Vec<Hook>>,
}

#[derive(Clone, Debug)]
pub struct Linux {
    pub uid_mappings: Option<Vec<LinuxIDMapping>>,
    pub gid_mappings: Option<Vec<LinuxIDMapping>>,
    pub sysctl: Option<HashMap<String, String>>,
    pub resources: Option<LinuxResources>,
    pub cgroups_path: Option<String>,
    pub namespaces: Option<Vec<LinuxNamespace>>,
    pub devices: Option<Vec<LinuxDevice>>,
    pub seccomp: Option<LinuxSeccomp>,
    pub rootfs_propagation: Option<String>,
    pub masked_paths: Option<Vec<String>>,
    pub readonly_paths: Option<Vec<String>>,
    pub mount_label: Option<String>,
    pub intel_rdt: Option<LinuxIntelRdt>,
}

#[derive(Clone, Debug)]
pub struct LinuxIDMapping {
    pub container_id: u32,
    pub host_id: u32,
    pub size: u32,
}

#[derive(Clone, Debug)]
pub struct LinuxResources {
    pub devices: Option<Vec<LinuxDeviceCgroup>>,
    pub memory: Option<LinuxMemory>,
    pub cpu: Option<LinuxCPU>,
    pub pids: Option<LinuxPids>,
    pub block_io: Option<LinuxBlockIO>,
    pub hugepage_limits: Option<Vec<LinuxHugepageLimit>>,
    pub network: Option<LinuxNetwork>,
    pub rdma: Option<HashMap<String, LinuxRdma>>,
}

#[derive(Clone, Debug)]
pub struct LinuxDevice {
    pub path: String,
    pub type_: String,
    pub major: i64,
    pub minor: i64,
    pub uid: Option<u32>,
    pub gid: Option<u32>,
}

#[derive(Clone, Debug)]
pub struct LinuxDeviceCgroup {
    pub allow: bool,
    pub type_: Option<String>,
    pub major: Option<i64>,
    pub minor: Option<i64>,
    pub access: Option<String>,
}

pub type Arch = String;

pub type LinuxSeccompAction = String;

pub type LinuxSeccompOperator = String;

#[derive(Clone, Debug)]
pub struct LinuxSeccomp {
    pub default_action: LinuxSeccompAction,
    pub architectures: Option<Vec<Arch>>,
    pub syscalls: Option<Vec<LinuxSyscall>>,
}

#[derive(Clone, Debug)]
pub struct LinuxSyscall {
    pub names: Vec<String>,
    pub action: LinuxSeccompAction,
    pub args: Option<Vec<LinuxSeccompArg>>,
}

#[derive(Clone, Debug)]
pub struct LinuxSeccompArg {
    pub index: u64,
    pub value: u64,
    pub value_two: Option<u64>,
    pub op: LinuxSeccompOperator,
}

#[derive(Clone, Debug)]
pub struct LinuxMemory {
    pub limit: Option<i64>,
    pub reservation: Option<i64>,
    pub kernel: Option<i64>,
    pub kernel_tcp: Option<i64>,
    pub swappiness: Option<u64>,
    pub disable_oom_killer: Option<bool>,
}

#[derive(Clone, Debug)]
pub struct LinuxCPU {
    pub shares: Option<u64>,
    pub quota: Option<i64>,
    pub period: Option<u64>,
    pub realtime_runtime: Option<i64>,
    pub realtime_period: Option<u64>,
    pub cpus: Option<String>,
    pub mems: Option<String>,
}

#[derive(Clone, Debug)]
pub struct LinuxPids {
    pub limit: i64,
}

#[derive(Clone, Debug)]
pub struct LinuxBlockIO {
    pub weight: Option<u16>,
    pub leaf_weight: Option<u16>,
    pub weight_device: Option<Vec<LinuxWeightDevice>>,
    pub throttle_read_bps_device: Option<Vec<LinuxThrottleDevice>>,
    pub throttle_write_bps_device: Option<Vec<LinuxThrottleDevice>>,
    pub throttle_read_iops_device: Option<Vec<LinuxThrottleDevice>>,
    pub throttle_write_iops_device: Option<Vec<LinuxThrottleDevice>>,
}

#[derive(Clone, Debug)]
pub struct LinuxWeightDevice {
    pub major: i64,
    pub minor: i64,
    pub weight: Option<u16>,
    pub leaf_weight: Option<u16>,
}

#[derive(Clone, Debug)]
pub struct LinuxThrottleDevice {
    pub major: i64,
    pub minor: i64,
    pub rate: u64,
}

#[derive(Clone, Debug)]
pub struct LinuxNetwork {
    pub class_id: Option<u32>,
    pub priorities: Option<Vec<LinuxInterfacePriority>>,
}

#[derive(Clone, Debug)]
pub struct LinuxInterfacePriority {
    pub name: String,
    pub priority: u32,
}

#[derive(Clone, Debug)]
pub struct LinuxRdma {
    pub hca_handles: Option<u32>,
    pub hca_objects: Option<u32>,
}

#[derive(Clone, Debug)]
pub struct LinuxIntelRdt {
    pub clos_id: Option<String>,
    pub l3_cache_schema: Option<String>,
    pub mem_bw_schema: Option<String>,
}

#[derive(Clone, Debug)]
pub struct User {
    pub uid: u32,
    pub gid: u32,
    pub additional_gids: Option<Vec<u32>>,
    pub username: Option<String>,
}

#[derive(Clone, Debug)]
pub struct POSIXRlimit {
    pub type_: String,
    pub hard: u64,
    pub soft: u64,
}

#[derive(Clone, Debug)]
pub struct LinuxHugepageLimit {
    pub page_size: String,
    pub limit: u64,
}

#[derive(Clone, Debug)]
pub struct LinuxNamespace {
    pub type_: LinuxNamespaceType,
    pub path: Option<String>,
}

/// Kind of a Linux namespace.
#[derive(Clone, Copy, PartialEq, Eq, Debug, Structural)]
pub enum LinuxNamespaceType {
    Mount,
    Cgroup,
    Uts,
    Ipc,
    User,
    Pid,
    Network,
}

impl LinuxNamespaceType {
    /// The flag that asks the kernel for a new namespace of this kind when
    /// a process is cloned or unshared.
    pub fn clone_flag(&self) -> (r: i32)
        ensures
            r == match *self {
                LinuxNamespaceType::Mount => 0x0002_0000i32,
                LinuxNamespaceType::Cgroup => 0x0200_0000i32,
                LinuxNamespaceType::Uts => 0x0400_0000i32,
                LinuxNamespaceType::Ipc => 0x0800_0000i32,
                LinuxNamespaceType::User => 0x1000_0000i32,
                LinuxNamespaceType::Pid => 0x2000_0000i32,
                LinuxNamespaceType::Network => 0x4000_0000i32,
            },
    {
        match self {
            LinuxNamespaceType::Mount => 0x0002_0000,
            LinuxNamespaceType::Cgroup => 0x0200_0000,
            LinuxNamespaceType::Uts => 0x0400_0000,
            LinuxNamespaceType::Ipc => 0x0800_0000,
            LinuxNamespaceType::User => 0x1000_0000,
            LinuxNamespaceType::Pid => 0x2000_0000,
            LinuxNamespaceType::Network => 0x4000_0000,
        }
    }
}

#[derive(Clone, Debug)]
pub struct Solaris {}

#[derive(Clone, Debug)]
pub struct Windows {}

#[derive(Clone, Debug)]
pub struct VM {}


/// The text of each string of a sequence.
pub open spec fn string_views(v: Seq<String>) -> Seq<Seq<char>> {
    v.map_values(|s: String| s@)
}

/// Owned copies of string slices, in order.
fn owned_strings(items: Vec<&str>) -> (r: Vec<String>)
    ensures
        string_views(r@) == items@.map_values(|s: &str| s@),
{
    let mut r: Vec<String> = Vec::new();
    let mut i: usize = 0;
    while i < items.len()
        invariant
            i <= items@.len(),
            string_views(r@) == items@.subrange(0, i as int).map_values(|s: &str| s@),
        decreases items@.len() - i,
    {
        let ghost before = r@;
        let item = String::from_str(items[i]);
        r.push(item);
        assert(string_views(r@) =~= string_views(before).push(items@[i as int]@));
        assert(items@.subrange(0, i + 1).map_values(|s: &str| s@) =~= items@.subrange(
            0,
            i as int,
        ).map_values(|s: &str| s@).push(items@[i as int]@));
        i = i + 1;
    }
    assert(items@.subrange(0, i as int) =~= items@);
    r
}

fn mount(destination: &str, type_: &str, source: &str, options: Option<Vec<String>>) -> (r: Mount)
    ensures
        r.destination@ == destination@,
        r.type_@ == type_@,
        r.source@ == source@,
        r.options == options,
{
    Mount {
        destination: String::from_str(destination),
        type_: String::from_str(type_),
        source: String::from_str(source),
        options,
    }
}

fn namespace(type_: LinuxNamespaceType) -> (r: LinuxNamespace)
    ensures
        r.type_ == type_,
        r.path is None,
{
    LinuxNamespace { type_, path: None }
}

/// The text of each string of an optional list.
pub open spec fn opt_strings(v: Option<Vec<String>>) -> Option<Seq<Seq<char>>> {
    match v {
        Some(l) => Some(string_views(l@)),
        None => None,
    }
}

/// The capabilities that a default process keeps, in each of its sets.
pub open spec fn default_capabilities() -> Seq<Seq<char>> {
    seq!["CAP_AUDIT_WRITE"@, "CAP_KILL"@, "CAP_NET_BIND_SERVICE"@]
}

/// The environment of a default process.
pub open spec fn default_env() -> Seq<Seq<char>> {
    seq!["PATH=/usr/local/sbin:/usr/local/bin:/usr/sbin:/usr/bin:/sbin:/bin"@, "TERM=xterm"@]
}

/// A mount as destination, type, source and options.
pub open spec fn mount_view(m: Mount) -> (Seq<char>, Seq<char>, Seq<char>, Option<Seq<Seq<char>>>) {
    (m.destination@, m.type_@, m.source@, opt_strings(m.options))
}

/// The mounts of a default configuration, in order.
pub open spec fn default_mounts_view() -> Seq<(Seq<char>, Seq<char>, Seq<char>, Option<Seq<Seq<char>>>)> {
    seq![
        ("/proc"@, "proc"@, "proc"@, None),
        (
            "/dev"@,
            "tmpfs"@,
            "tmpfs"@,
            Some(seq!["nosuid"@, "strictatime"@, "mode=755"@, "size=65536k"@]),
        ),
        (
            "/dev/pts"@,
            "devpts"@,
            "devpts"@,
            Some(
                seq![
                    "nosuid"@,
                    "noexec"@,
                    "newinstance"@,
                    "ptmxmode=0666"@,
                    "mode=0620"@,
                    "gid=5"@,
                ],
            ),
        ),
        (
            "/dev/shm"@,
            "tmpfs"@,
            "shm"@,
            Some(seq!["nosuid"@, "noexec"@, "nodev"@, "mode=1777"@, "size=65536k"@]),
        ),
        ("/dev/mqueue"@, "mqueue"@, "mqueue"@, Some(seq!["nosuid"@, "noexec"@, "nodev"@, "ro"@])),
    ]
}

/// The namespaces that a default configuration asks for, in order.
pub open spec fn default_namespaces() -> Seq<LinuxNamespaceType> {
    seq![
        LinuxNamespaceType::Ipc,
        LinuxNamespaceType::Mount,
        LinuxNamespaceType::Uts,
        LinuxNamespaceType::Pid,
        LinuxNamespaceType::Network,
    ]
}

/// The paths that a default configuration hides from the container.
pub open spec fn default_masked_paths() -> Seq<Seq<char>> {
    seq![
        "/proc/kcore"@,
        "/proc/latency_stats"@,
        "/proc/timer_list"@,
        "/proc/timer_stats"@,
        "/proc/sched_debug"@,
        "/sys/firmware"@,
        "/proc/scsi"@,
    ]
}

/// The paths that a default configuration makes read-only.
pub open spec fn default_readonly_paths() -> Seq<Seq<char>> {
    seq![
        "/proc/asound"@,
        "/proc/bus"@,
        "/proc/fs"@,
        "/proc/irq"@,
        "/proc/sys"@,
        "/proc/sysrq-trigger"@,
    ]
}

/// The capabilities of a default process: the same three in every set.
pub open spec fn is_default_capabilities(c: LinuxCapabilities) -> bool {
    &&& opt_strings(c.bounding) == Some(default_capabilities())
    &&& opt_strings(c.effective) == Some(default_capabilities())
    &&& opt_strings(c.inheritable) == Some(default_capabilities())
    &&& opt_strings(c.permitted) == Some(default_capabilities())
    &&& opt_strings(c.ambient) == Some(default_capabilities())
}

/// The process of a default configuration: `sh` run as root in `/` on a
/// terminal, with a bounded number of open files and no new privileges.
pub open spec fn is_default_process(p: Process) -> bool {
    &&& string_views(p.args@) == seq!["sh"@]
    &&& opt_strings(p.env) == Some(default_env())
    &&& p.cwd@ == "/"@
    &&& p.terminal == Some(true)
    &&& p.console_size is None
    &&& p.user.uid == 0 && p.user.gid == 0
    &&& p.user.additional_gids is None && p.user.username is None
    &&& p.command_line is None
    &&& p.no_new_privileges == Some(true)
    &&& p.capabilities matches Some(c) && is_default_capabilities(c)
    &&& p.rlimits matches Some(l) && l@.len() == 1 && l@[0].type_@ == "RLIMIT_NOFILE"@
        && l@[0].hard == 1024 && l@[0].soft == 1024
    &&& p.apparmor_profile is None && p.oom_score_adj is None && p.selinux_label is None
}

/// The resources of a default configuration: every device is denied, and
/// nothing else is limited.
pub open spec fn is_default_resources(r: LinuxResources) -> bool {
    &&& r.devices matches Some(d) && d@.len() == 1 && !d@[0].allow && d@[0].type_ is None
        && d@[0].major is None && d@[0].minor is None && (d@[0].access matches Some(a) && a@
        == "rwm"@)
    &&& r.memory is None && r.cpu is None && r.pids is None && r.block_io is None
    &&& r.hugepage_limits is None && r.network is None && r.rdma is None
}

/// The Linux section of a default configuration.
pub open spec fn is_default_linux(l: Linux) -> bool {
    &&& l.namespaces matches Some(n) && n@.map_values(|x: LinuxNamespace| x.type_)
        == default_namespaces() && forall|i: int| 0 <= i < n@.len() ==> (#[trigger] n@[i]).path is None
    &&& opt_strings(l.masked_paths) == Some(default_masked_paths())
    &&& opt_strings(l.readonly_paths) == Some(default_readonly_paths())
    &&& l.resources matches Some(r) && is_default_resources(r)
    &&& l.uid_mappings is None && l.gid_mappings is None && l.sysctl is None
    &&& l.cgroups_path is None && l.devices is None && l.seccomp is None
    &&& l.rootfs_propagation is None && l.mount_label is None && l.intel_rdt is None
}

/// The default configuration, field by field.
pub open spec fn is_default_spec(s: Spec) -> bool {
    &&& s.oci_version@ == OCI_VERSION@
    &&& s.root.path@ == "rootfs"@
    &&& s.root.readonly == Some(true)
    &&& s.process matches Some(p) && is_default_process(p)
    &&& s.hostname matches Some(h) && h@ == "runrs"@
    &&& s.mounts@.map_values(|m: Mount| mount_view(m)) == default_mounts_view()
    &&& s.linux matches Some(l) && is_default_linux(l)
    &&& s.hooks is None
    &&& s.annotations is None
    &&& s.solaris is None
    &&& s.windows is None
    &&& s.vm is None
}

fn strings_of(items: Vec<&str>) -> (r: Option<Vec<String>>)
    ensures
        opt_strings(r) == Some(items@.map_values(|s: &str| s@)),
{
    Some(owned_strings(items))
}

fn default_capability_set() -> (r: Option<Vec<String>>)
    ensures
        opt_strings(r) == Some(default_capabilities()),
{
    let r = strings_of(vec!["CAP_AUDIT_WRITE", "CAP_KILL", "CAP_NET_BIND_SERVICE"]);
    assert(opt_strings(r)->Some_0 =~= default_capabilities());
    r
}

fn default_process() -> (r: Process)
    ensures
        is_default_process(r),
{
    let args = owned_strings(vec!["sh"]);
    assert(string_views(args@) =~= seq!["sh"@]);
    let env = strings_of(
        vec!["PATH=/usr/local/sbin:/usr/local/bin:/usr/sbin:/usr/bin:/sbin:/bin", "TERM=xterm"],
    );
    assert(opt_strings(env)->Some_0 =~= default_env());
    let rlimit = POSIXRlimit { type_: String::from_str("RLIMIT_NOFILE"), hard: 1024, soft: 1024 };
    Process {
        terminal: Some(true),
        console_size: None,
        user: User { uid: 0, gid: 0, additional_gids: None, username: None },
        args,
        env,
        cwd: String::from_str("/"),
        command_line: None,
        no_new_privileges: Some(true),
        capabilities: Some(
            LinuxCapabilities {
                bounding: default_capability_set(),
                permitted: default_capability_set(),
                inheritable: default_capability_set(),
                ambient: default_capability_set(),
                effective: default_capability_set(),
            },
        ),
        rlimits: Some(vec![rlimit]),
        apparmor_profile: None,
        oom_score_adj: None,
        selinux_label: None,
    }
}

fn default_mounts() -> (r: Vec<Mount>)
    ensures
        r@.map_values(|m: Mount| mount_view(m)) == default_mounts_view(),
{
    let dev = strings_of(vec!["nosuid", "strictatime", "mode=755", "size=65536k"]);
    assert(opt_strings(dev)->Some_0 =~= seq![
        "nosuid"@,
        "strictatime"@,
        "mode=755"@,
        "size=65536k"@,
    ]);
    let pts = strings_of(
        vec!["nosuid", "noexec", "newinstance", "ptmxmode=0666", "mode=0620", "gid=5"],
    );
    assert(opt_strings(pts)->Some_0 =~= seq![
        "nosuid"@,
        "noexec"@,
        "newinstance"@,
        "ptmxmode=0666"@,
        "mode=0620"@,
        "gid=5"@,
    ]);
    let shm = strings_of(vec!["nosuid", "noexec", "nodev", "mode=1777", "size=65536k"]);
    assert(opt_strings(shm)->Some_0 =~= seq![
        "nosuid"@,
        "noexec"@,
        "nodev"@,
        "mode=1777"@,
        "size=65536k"@,
    ]);
    let mqueue = strings_of(vec!["nosuid", "noexec", "nodev", "ro"]);
    assert(opt_strings(mqueue)->Some_0 =~= seq!["nosuid"@, "noexec"@, "nodev"@, "ro"@]);
    let r = vec![
        mount("/proc", "proc", "proc", None),
        mount("/dev", "tmpfs", "tmpfs", dev),
        mount("/dev/pts", "devpts", "devpts", pts),
        mount("/dev/shm", "tmpfs", "shm", shm),
        mount("/dev/mqueue", "mqueue", "mqueue", mqueue),
    ];
    assert(r@.map_values(|m: Mount| mount_view(m)) =~= default_mounts_view());
    r
}

fn default_resources() -> (r: LinuxResources)
    ensures
        is_default_resources(r),
{
    LinuxResources {
        devices: Some(
            vec![
                LinuxDeviceCgroup {
                    allow: false,
                    access: Some(String::from_str("rwm")),
                    type_: None,
                    major: None,
                    minor: None,
                },
            ],
        ),
        block_io: None,
        cpu: None,
        memory: None,
        network: None,
        hugepage_limits: None,
        pids: None,
        rdma: None,
    }
}

fn default_linux() -> (r: Linux)
    ensures
        is_default_linux(r),
{
    let namespaces = vec![
        namespace(LinuxNamespaceType::Ipc),
        namespace(LinuxNamespaceType::Mount),
        namespace(LinuxNamespaceType::Uts),
        namespace(LinuxNamespaceType::Pid),
        namespace(LinuxNamespaceType::Network),
    ];
    assert(namespaces@.map_values(|x: LinuxNamespace| x.type_) =~= default_namespaces());
    let masked_paths = strings_of(
        vec![
            "/proc/kcore",
            "/proc/latency_stats",
            "/proc/timer_list",
            "/proc/timer_stats",
            "/proc/sched_debug",
            "/sys/firmware",
            "/proc/scsi",
        ],
    );
    assert(opt_strings(masked_paths)->Some_0 =~= default_masked_paths());
    let readonly_paths = strings_of(
        vec![
            "/proc/asound",
            "/proc/bus",
            "/proc/fs",
            "/proc/irq",
            "/proc/sys",
            "/proc/sysrq-trigger",
        ],
    );
    assert(opt_strings(readonly_paths)->Some_0 =~= default_readonly_paths());
    Linux {
        masked_paths,
        readonly_paths,
        resources: Some(default_resources()),
        namespaces: Some(namespaces),
        cgroups_path: None,
        devices: None,
        uid_mappings: None,
        gid_mappings: None,
        intel_rdt: None,
        mount_label: None,
        seccomp: None,
        rootfs_propagation: None,
        sysctl: None,
    }
}

impl Spec {
    /// The default configuration: version `1.0.1-dev`, a root filesystem
    /// at `rootfs` mounted read-only, and a process that runs `sh` as root
    /// in `/` on a terminal, inside fresh ipc, mount, uts, pid and network
    /// namespaces.
    pub fn new() -> (r: Spec)
        ensures
            is_default_spec(r),
    {
        Spec {
            oci_version: String::from_str(OCI_VERSION),
            root: Root { path: String::from_str("rootfs"), readonly: Some(true) },
            process: Some(default_process()),
            hostname: Some(String::from_str("runrs")),
            mounts: default_mounts(),
            linux: Some(default_linux()),
            hooks: None,
            annotations: None,
            solaris: None,
            windows: None,
            vm: None,
        }
    }
}

impl Default for Spec {
    /// The default configuration of [`Spec::new`].
    fn default() -> (r: Spec)
        ensures
            is_default_spec(r),
    {
        Spec::new()
    }
}

} // verus!
