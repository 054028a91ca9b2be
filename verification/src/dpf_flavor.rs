//! The default DPUFlavor: zero-trust mode, and the configuration files it
//! installs for the HBN container (the ACL tool service, the DHCP ACL
//! rules and the kernel settings).

use vstd::prelude::*;
use crate::text::{decimal, extend_str, push_decimal, string_of};

verus! {

/// Number of host-facing interfaces whose DHCP broadcasts are dropped: the
/// host PF and its sixteen VFs.
pub open spec fn host_interface_count() -> nat {
    17
}

/// The `i`-th host-facing interface: `pf0hpf_if`, then `pf0vf0_if` to `pf0vf15_if`.
pub open spec fn host_interface(i: nat) -> Seq<char> {
    if i == 0 {
        "pf0hpf_if"@
    } else {
        "pf0vf"@ + decimal((i - 1) as nat) + "_if"@
    }
}

/// The iptables rule that drops DHCP broadcasts arriving on `iface`.
pub open spec fn dhcp_drop_rule(iface: Seq<char>) -> Seq<char> {
    "-t filter -A FORWARD -p udp -d 255.255.255.255 --dport 67 -m physdev --physdev-in "@ + iface
        + " -m comment --comment 'offload:0' -j DROP\n"@
}

/// The rules file header followed by the rules of the first `n` host-facing interfaces.
pub open spec fn dhcp_rules_upto(n: nat) -> Seq<char>
    decreases n,
{
    if n == 0 {
        "[iptables]\n"@
    } else {
        dhcp_rules_upto((n - 1) as nat) + dhcp_drop_rule(host_interface((n - 1) as nat))
    }
}

fn push_host_interface(v: &mut Vec<char>, i: u64)
    requires
        i < 17,
    ensures
        final(v)@ == old(v)@ + host_interface(i as nat),
{
    if i == 0 {
        extend_str(v, "pf0hpf_if");
    } else {
        extend_str(v, "pf0vf");
        push_decimal(v, i - 1);
        extend_str(v, "_if");
        assert(final(v)@ =~= old(v)@ + host_interface(i as nat));
    }
}

/// DHCP ACL rules: drop DHCP broadcasts from host-facing interfaces.
pub fn dhcp_acl_rules() -> (r: String)
    ensures
        r@ == dhcp_rules_upto(host_interface_count()),
{
    let mut v: Vec<char> = Vec::new();
    extend_str(&mut v, "[iptables]\n");
    let mut i: u64 = 0;
    while i < 17
        invariant
            i <= 17,
            v@ == dhcp_rules_upto(i as nat),
        decreases 17 - i,
    {
        let ghost before = v@;
        extend_str(&mut v, "-t filter -A FORWARD -p udp -d 255.255.255.255 --dport 67 -m physdev --physdev-in ");
        push_host_interface(&mut v, i);
        extend_str(&mut v, " -m comment --comment 'offload:0' -j DROP\n");
        assert(v@ =~= before + dhcp_drop_rule(host_interface(i as nat)));
        i = i + 1;
    }
    string_of(&v)
}

/// Mode a DPU flavor runs the DPU in.
#[derive(Clone, Copy, Debug, PartialEq, Eq, Structural)]
pub enum DpuFlavorDpuMode {
    DpuMode,
    ZeroTrust,
}

/// How a flavor's configuration file is applied.
#[derive(Clone, Copy, Debug, PartialEq, Eq, Structural)]
pub enum ConfigFileOperation {
    Override,
    Append,
}

/// A configuration file a flavor installs on the DPU.
#[derive(Clone, Debug)]
pub struct FlavorConfigFile {
    pub path: String,
    pub operation: ConfigFileOperation,
    pub permissions: String,
    pub raw: String,
}

/// A DPUFlavor resource.
#[derive(Clone, Debug)]
pub struct FlavorPlan {
    pub name: String,
    pub namespace: String,
    pub dpu_mode: DpuFlavorDpuMode,
    pub config_files: Vec<FlavorConfigFile>,
}

/// The supervisor program that loads the ACL rules.
pub const ACLTOOL_CONF: &'static str = "[program: cl-acltool]\ncommand = bash -c \"sleep 5 && /usr/cumulus/bin/cl-acltool -i\"\nstartsecs = 0\nautorestart = false\npriority = 200\n";

/// The kernel settings HBN needs.
pub const HBN_SYSCTL_CONF: &'static str = "net.ipv6.conf.all.forwarding = 1\nkernel.shmmax = 4294967296\nvm.nr_hugepages=2048\nvm.min_free_kbytes=67584\n";

/// Whether a file is the given overriding, world-readable file.
pub open spec fn config_file_is(f: FlavorConfigFile, path: Seq<char>, raw: Seq<char>) -> bool {
    &&& f.path@ == path
    &&& f.operation == ConfigFileOperation::Override
    &&& f.permissions@ == "0644"@
    &&& f.raw@ == raw
}

fn config_file(path: &str, raw: String) -> (f: FlavorConfigFile)
    ensures
        config_file_is(f, path@, raw@),
{
    FlavorConfigFile {
        path: String::from_str(path),
        operation: ConfigFileOperation::Override,
        permissions: String::from_str("0644"),
        raw,
    }
}

/// The default DPUFlavor named `name` in `namespace`.
pub fn default_flavor(namespace: &str, name: &str) -> (f: FlavorPlan)
    ensures
        f.name@ == name@,
        f.namespace@ == namespace@,
        f.dpu_mode == DpuFlavorDpuMode::ZeroTrust,
        f.config_files@.len() == 3,
        config_file_is(f.config_files@[0], "/var/lib/hbn/etc/supervisor/conf.d/acltool.conf"@, ACLTOOL_CONF@),
        config_file_is(f.config_files@[1], "/var/lib/hbn/etc/cumulus/acl/policy.d/10-dhcp.rules"@,
            dhcp_rules_upto(host_interface_count())),
        config_file_is(f.config_files@[2], "/etc/sysctl.d/98-hbn.conf"@, HBN_SYSCTL_CONF@),
{
    let mut files: Vec<FlavorConfigFile> = Vec::new();
    files.push(config_file("/var/lib/hbn/etc/supervisor/conf.d/acltool.conf", String::from_str(ACLTOOL_CONF)));
    files.push(config_file("/var/lib/hbn/etc/cumulus/acl/policy.d/10-dhcp.rules", dhcp_acl_rules()));
    files.push(config_file("/etc/sysctl.d/98-hbn.conf", String::from_str(HBN_SYSCTL_CONF)));
    FlavorPlan {
        name: String::from_str(name),
        namespace: String::from_str(namespace),
        dpu_mode: DpuFlavorDpuMode::ZeroTrust,
        config_files: files,
    }
}

} // verus!
