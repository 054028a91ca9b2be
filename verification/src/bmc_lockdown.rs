//! Whether a BMC is locked down: each hardware family reads its own
//! settings and reports enabled, disabled or partial lockdown, with a
//! message listing what it read.

use vstd::prelude::*;
use crate::bmc_attrs::{
    Attributes, ExploreError, ExploreErrorView, HwType, append_joined, attr_lookup, bool_text,
    join, not_provided, opt_seq, opt_str_attr, opt_str_debug, push_bool, push_opt_str_debug, str_value,
};
use crate::text::{extend_chars, extend_str, str_eq, string_of};

verus! {

/// Lockdown state of a BMC.
#[derive(Clone, Copy, Debug, PartialEq, Eq, Structural)]
pub enum InternalLockdownStatus {
    Enabled,
    Disabled,
    Partial,
}

/// The lockdown state and the settings it was read from.
#[derive(Clone, Debug)]
pub struct LockdownStatus {
    pub status: InternalLockdownStatus,
    pub message: String,
}

/// A lockdown answer as plain values.
pub open spec fn lockdown_view(r: Result<LockdownStatus, ExploreError>) -> Result<
    (InternalLockdownStatus, Seq<char>),
    ExploreErrorView,
> {
    match r {
        Ok(s) => Ok((s.status, s.message@)),
        Err(e) => Err(e@),
    }
}

/// The error for a resource the BMC did not provide, as plain values.
pub open spec fn missing(what: Seq<char>) -> Result<(InternalLockdownStatus, Seq<char>), ExploreErrorView> {
    Err(ExploreErrorView::BmcNotProvided(what))
}

// ---------------------------------------------------------------- Viking

/// Lockdown of a Viking system from its BIOS settings.
pub open spec fn viking_status(kcs: Option<Seq<char>>, redfish: Option<Seq<char>>) -> InternalLockdownStatus {
    match (kcs, redfish) {
        (None, None) => InternalLockdownStatus::Disabled,
        (Some(k), Some(r)) => if k == "Deny All"@ {
            InternalLockdownStatus::Enabled
        } else if k == "Allow All"@ && r == "Enabled"@ {
            InternalLockdownStatus::Disabled
        } else {
            InternalLockdownStatus::Partial
        },
        _ => InternalLockdownStatus::Partial,
    }
}

/// `key=value` when the value is there, nothing otherwise.
pub open spec fn kv_part(key: Seq<char>, v: Option<Seq<char>>) -> Seq<Seq<char>> {
    match v {
        Some(x) => seq![key + "="@ + x],
        None => Seq::empty(),
    }
}

/// The Viking message: the settings read, joined by commas, and a period.
pub open spec fn viking_message(kcs: Option<Seq<char>>, redfish: Option<Seq<char>>) -> Seq<char> {
    join(kv_part("ipmi_kcs_disable"@, kcs) + kv_part("redfish_enable"@, redfish), ", "@) + "."@
}

/// The Viking answer.
pub open spec fn viking_spec(bios: Option<Attributes>) -> Result<(InternalLockdownStatus, Seq<char>), ExploreErrorView> {
    match bios {
        None => missing("bios"@),
        Some(b) => {
            let kcs = str_value(attr_lookup(b.entries@, "KcsInterfaceDisable"@));
            let rf = str_value(attr_lookup(b.entries@, "RedfishEnable"@));
            Ok((viking_status(kcs, rf), viking_message(kcs, rf)))
        },
    }
}

/// Lockdown of a Viking system.
pub fn viking_lockdown(bios: &Option<Attributes>) -> (r: Result<LockdownStatus, ExploreError>)
    ensures
        lockdown_view(r) == viking_spec(*bios),
{
    if bios.is_none() {
        return Err(not_provided("bios"));
    }
    let kcs = opt_str_attr(bios, "KcsInterfaceDisable");
    let rf = opt_str_attr(bios, "RedfishEnable");
    let ghost kv = opt_seq(kcs);
    let ghost rv = opt_seq(rf);
    let status = match (&kcs, &rf) {
        (None, None) => InternalLockdownStatus::Disabled,
        (Some(k), Some(r)) => if str_eq(k.as_str(), "Deny All") {
            InternalLockdownStatus::Enabled
        } else if str_eq(k.as_str(), "Allow All") && str_eq(r.as_str(), "Enabled") {
            InternalLockdownStatus::Disabled
        } else {
            InternalLockdownStatus::Partial
        },
        _ => InternalLockdownStatus::Partial,
    };
    let mut msg: Vec<char> = Vec::new();
    let ghost parts: Seq<Seq<char>> = Seq::empty();
    let mut nonempty = false;
    if let Some(k) = &kcs {
        let mut p: Vec<char> = Vec::new();
        extend_str(&mut p, "ipmi_kcs_disable");
        extend_str(&mut p, "=");
        extend_str(&mut p, k.as_str());
        append_joined(&mut msg, nonempty, ", ", &p, Ghost(parts));
        proof {
            parts = parts.push(p@);
        }
        nonempty = true;
    }
    assert(parts =~= kv_part("ipmi_kcs_disable"@, kv));
    if let Some(x) = &rf {
        let mut p: Vec<char> = Vec::new();
        extend_str(&mut p, "redfish_enable");
        extend_str(&mut p, "=");
        extend_str(&mut p, x.as_str());
        append_joined(&mut msg, nonempty, ", ", &p, Ghost(parts));
        proof {
            parts = parts.push(p@);
        }
    }
    assert(parts =~= kv_part("ipmi_kcs_disable"@, kv) + kv_part("redfish_enable"@, rv));
    extend_str(&mut msg, ".");
    Ok(LockdownStatus { status, message: string_of(&msg) })
}

/// Law: a Viking system is locked down exactly when its BIOS denies all
/// KCS access and reports a Redfish setting; it is unlocked exactly when
/// neither setting is there, or KCS allows all and Redfish is enabled; any
/// other combination is partial.
pub proof fn lemma_viking_lockdown_status(b: Attributes)
    ensures
        ({
            let kcs = str_value(attr_lookup(b.entries@, "KcsInterfaceDisable"@));
            let rf = str_value(attr_lookup(b.entries@, "RedfishEnable"@));
            viking_spec(Some(b)) matches Ok((st, _)) && (st == InternalLockdownStatus::Enabled <==> (kcs == Some(
                "Deny All"@,
            ) && rf is Some)) && (st == InternalLockdownStatus::Disabled <==> ((kcs is None && rf is None) || (kcs
                == Some("Allow All"@) && rf == Some("Enabled"@)))) && (st == InternalLockdownStatus::Partial <==> !((
            kcs == Some("Deny All"@) && rf is Some) || (kcs is None && rf is None) || (kcs == Some("Allow All"@) && rf
                == Some("Enabled"@))))
        }),
{
    reveal_strlit("Deny All");
    reveal_strlit("Allow All");
    assert("Deny All"@ != "Allow All"@) by {
        assert("Deny All"@[0] != "Allow All"@[0]);
    }
}

// ---------------------------------------------------------------- AMI

/// Whether any host interface is enabled (an interface that does not say
/// counts as enabled).
pub open spec fn any_host_interface_enabled(ifaces: Seq<Option<bool>>) -> bool {
    exists|i: int| 0 <= i < ifaces.len() && ifaces[i] != Some(false)
}

/// Lockdown of an AMI system from its BIOS settings and host interfaces.
pub open spec fn ami_status(kcsacp: Seq<char>, usb000: Seq<char>, hi: bool) -> InternalLockdownStatus {
    if kcsacp == "Deny All"@ && usb000 == "Disabled"@ && !hi {
        InternalLockdownStatus::Enabled
    } else if kcsacp == "Allow All"@ && usb000 == "Enabled"@ && hi {
        InternalLockdownStatus::Disabled
    } else {
        InternalLockdownStatus::Partial
    }
}

/// The AMI message.
pub open spec fn ami_message(kcsacp: Option<Seq<char>>, usb000: Option<Seq<char>>, hi: bool) -> Seq<char> {
    "kcsacp: "@ + opt_str_debug(kcsacp) + "; usb000: "@ + opt_str_debug(usb000) + "; host_interfaces: "@
        + bool_text(hi)
}

/// The AMI answer: both BIOS settings must be there.
pub open spec fn ami_spec(bios: Option<Attributes>, host_interfaces: Option<Seq<Option<bool>>>) -> Result<
    (InternalLockdownStatus, Seq<char>),
    ExploreErrorView,
> {
    match bios {
        None => missing("bios"@),
        Some(b) => match host_interfaces {
            None => missing("host interfaces"@),
            Some(h) => {
                let k = str_value(attr_lookup(b.entries@, "KCSACP"@));
                let u = str_value(attr_lookup(b.entries@, "USB000"@));
                let hi = any_host_interface_enabled(h);
                let msg = ami_message(k, u, hi);
                match (k, u) {
                    (Some(kk), Some(uu)) => Ok((ami_status(kk, uu, hi), msg)),
                    _ => Err(ExploreErrorView::InvalidValue("AMI lockdown status: "@ + msg)),
                }
            },
        },
    }
}

/// Law: an AMI system with both BIOS settings is locked down exactly when
/// KCS denies all, USB is disabled and no host interface is enabled, and
/// unlocked exactly when KCS allows all, USB is enabled and some host
/// interface is enabled; anything else is partial. Without either setting
/// the answer is an invalid value.
pub proof fn lemma_ami_lockdown_status(b: Attributes, h: Seq<Option<bool>>)
    ensures
        ({
            let k = str_value(attr_lookup(b.entries@, "KCSACP"@));
            let u = str_value(attr_lookup(b.entries@, "USB000"@));
            let hi = exists|i: int| 0 <= i < h.len() && h[i] != Some(false);
            &&& (k is None || u is None) ==> ami_spec(Some(b), Some(h)) is Err
            &&& (k is Some && u is Some) ==> (ami_spec(Some(b), Some(h)) matches Ok((st, _)) && (st
                == InternalLockdownStatus::Enabled <==> (k == Some("Deny All"@) && u == Some("Disabled"@) && !hi)) && (
            st == InternalLockdownStatus::Disabled <==> (k == Some("Allow All"@) && u == Some("Enabled"@) && hi)) && (
            st == InternalLockdownStatus::Partial <==> !((k == Some("Deny All"@) && u == Some("Disabled"@) && !hi) || (
            k == Some("Allow All"@) && u == Some("Enabled"@) && hi))))
        }),
{
    reveal_strlit("Deny All");
    reveal_strlit("Allow All");
    assert("Deny All"@ != "Allow All"@) by {
        assert("Deny All"@[0] != "Allow All"@[0]);
    }
}

/// Whether any host interface is enabled.
pub fn host_interface_enabled(ifaces: &Vec<Option<bool>>) -> (r: bool)
    ensures
        r == any_host_interface_enabled(ifaces@),
{
    let mut i: usize = 0;
    while i < ifaces.len()
        invariant
            i <= ifaces@.len(),
            forall|j: int| 0 <= j < i ==> ifaces@[j] == Some(false),
        decreases ifaces.len() - i,
    {
        if ifaces[i] != Some(false) {
            return true;
        }
        i = i + 1;
    }
    false
}

/// Lockdown of an AMI system.
pub fn ami_lockdown(bios: &Option<Attributes>, host_interfaces: &Option<Vec<Option<bool>>>) -> (r: Result<
    LockdownStatus,
    ExploreError,
>)
    ensures
        lockdown_view(r) == ami_spec(
            *bios,
            match host_interfaces {
                Some(h) => Some(h@),
                None => None,
            },
        ),
{
    if bios.is_none() {
        return Err(not_provided("bios"));
    }
    let hi = match host_interfaces {
        None => {
            return Err(not_provided("host interfaces"));
        },
        Some(h) => host_interface_enabled(h),
    };
    let k = opt_str_attr(bios, "KCSACP");
    let u = opt_str_attr(bios, "USB000");
    let mut msg: Vec<char> = Vec::new();
    extend_str(&mut msg, "kcsacp: ");
    push_opt_str_debug(&mut msg, &k);
    extend_str(&mut msg, "; usb000: ");
    push_opt_str_debug(&mut msg, &u);
    extend_str(&mut msg, "; host_interfaces: ");
    push_bool(&mut msg, hi);
    match (&k, &u) {
        (Some(kk), Some(uu)) => {
            let status = if str_eq(kk.as_str(), "Deny All") && str_eq(uu.as_str(), "Disabled") && !hi {
                InternalLockdownStatus::Enabled
            } else if str_eq(kk.as_str(), "Allow All") && str_eq(uu.as_str(), "Enabled") && hi {
                InternalLockdownStatus::Disabled
            } else {
                InternalLockdownStatus::Partial
            };
            Ok(LockdownStatus { status, message: string_of(&msg) })
        },
        _ => {
            let mut e: Vec<char> = Vec::new();
            extend_str(&mut e, "AMI lockdown status: ");
            extend_chars(&mut e, &msg);
            Err(ExploreError::InvalidValue(string_of(&e)))
        },
    }
}

// ---------------------------------------------------------------- Dell

/// Lockdown of a Dell system from its iDRAC attributes.
pub open spec fn dell_status(lockdown: Seq<char>, racadm: Seq<char>) -> InternalLockdownStatus {
    if lockdown == "Enabled"@ && racadm == "Disabled"@ {
        InternalLockdownStatus::Enabled
    } else if lockdown == "Disabled"@ && racadm == "Enabled"@ {
        InternalLockdownStatus::Disabled
    } else {
        InternalLockdownStatus::Partial
    }
}

/// The Dell answer: both attributes must be there, as strings.
pub open spec fn dell_spec(attrs: Option<Attributes>) -> Result<(InternalLockdownStatus, Seq<char>), ExploreErrorView> {
    match attrs {
        None => missing("Dell OEM Attributes"@),
        Some(a) => match str_value(attr_lookup(a.entries@, "Lockdown.1.SystemLockdown"@)) {
            None => missing("Dell OEM Attributes: SystemLockdown"@),
            Some(sl) => match str_value(attr_lookup(a.entries@, "Racadm.1.Enable"@)) {
                None => missing("Dell OEM Attributes: Racadm"@),
                Some(rc) => Ok(
                    (
                        dell_status(sl, rc),
                        "BMC: system_lockdown="@ + sl + ", racadm="@ + rc + "."@,
                    ),
                ),
            },
        },
    }
}

/// Lockdown of a Dell system.
pub fn dell_lockdown(attrs: &Option<Attributes>) -> (r: Result<LockdownStatus, ExploreError>)
    ensures
        lockdown_view(r) == dell_spec(*attrs),
{
    if attrs.is_none() {
        return Err(not_provided("Dell OEM Attributes"));
    }
    let sl = match opt_str_attr(attrs, "Lockdown.1.SystemLockdown") {
        None => {
            return Err(not_provided("Dell OEM Attributes: SystemLockdown"));
        },
        Some(s) => s,
    };
    let rc = match opt_str_attr(attrs, "Racadm.1.Enable") {
        None => {
            return Err(not_provided("Dell OEM Attributes: Racadm"));
        },
        Some(s) => s,
    };
    let status = if str_eq(sl.as_str(), "Enabled") && str_eq(rc.as_str(), "Disabled") {
        InternalLockdownStatus::Enabled
    } else if str_eq(sl.as_str(), "Disabled") && str_eq(rc.as_str(), "Enabled") {
        InternalLockdownStatus::Disabled
    } else {
        InternalLockdownStatus::Partial
    };
    let mut msg: Vec<char> = Vec::new();
    extend_str(&mut msg, "BMC: system_lockdown=");
    extend_str(&mut msg, sl.as_str());
    extend_str(&mut msg, ", racadm=");
    extend_str(&mut msg, rc.as_str());
    extend_str(&mut msg, ".");
    Ok(LockdownStatus { status, message: string_of(&msg) })
}

/// Law: a Dell system whose iDRAC reports both attributes as strings has a
/// lockdown status, and the status is Enabled exactly when system lockdown
/// is "Enabled" and racadm is "Disabled", Disabled exactly when system
/// lockdown is "Disabled" and racadm is "Enabled", and Partial in every
/// other case; the message names both values.
pub proof fn lemma_dell_lockdown_status(a: Attributes, sl: Seq<char>, rc: Seq<char>)
    requires
        str_value(attr_lookup(a.entries@, "Lockdown.1.SystemLockdown"@)) == Some(sl),
        str_value(attr_lookup(a.entries@, "Racadm.1.Enable"@)) == Some(rc),
    ensures
        dell_spec(Some(a)) matches Ok((st, msg)) && msg == "BMC: system_lockdown="@ + sl + ", racadm="@ + rc
            + "."@ && (st == InternalLockdownStatus::Enabled <==> (sl == "Enabled"@ && rc == "Disabled"@)) && (st
            == InternalLockdownStatus::Disabled <==> (sl == "Disabled"@ && rc == "Enabled"@)) && (st
            == InternalLockdownStatus::Partial <==> !((sl == "Enabled"@ && rc == "Disabled"@) || (sl == "Disabled"@
            && rc == "Enabled"@))),
{
    reveal_strlit("Enabled");
    reveal_strlit("Disabled");
    assert("Enabled"@ != "Disabled"@) by {
        assert("Enabled"@[0] != "Disabled"@[0]);
    }
}

// ---------------------------------------------------------------- Lenovo (AMI firmware)

/// The lockout and lockdown switches of an AMI BMC configuration; each is
/// `Some(true)` when set to enable, `Some(false)` otherwise, `None` when
/// the BMC does not report it.
#[derive(Clone, Copy, Debug)]
pub struct AmiConfigBmc {
    pub lockout_host_control: Option<bool>,
    pub lockout_bios_variable_write_mode: Option<bool>,
    pub lockdown_bios_settings_change: Option<bool>,
    pub lockdown_bios_upgrade_downgrade: Option<bool>,
}

/// `name=Enable` or `name=Disable` for a reported switch.
pub open spec fn switch_part(name: Seq<char>, v: Option<bool>) -> Seq<Seq<char>> {
    match v {
        Some(e) => seq![name + "="@ + (if e { "Enable"@ } else { "Disable"@ })],
        None => Seq::empty(),
    }
}

/// The reported switches, in a fixed order.
pub open spec fn config_bmc_parts(c: AmiConfigBmc) -> Seq<Seq<char>> {
    switch_part("LockoutHostControl"@, c.lockout_host_control) + switch_part(
        "LockoutBiosVariableWriteMode"@,
        c.lockout_bios_variable_write_mode,
    ) + switch_part("LockdownBiosSettingsChange"@, c.lockdown_bios_settings_change) + switch_part(
        "LockdownBiosUpgradeDowngrade"@,
        c.lockdown_bios_upgrade_downgrade,
    )
}

/// Whether every reported switch equals `e` (true when none is reported).
pub open spec fn all_reported(c: AmiConfigBmc, e: bool) -> bool {
    &&& c.lockout_host_control != Some(!e)
    &&& c.lockout_bios_variable_write_mode != Some(!e)
    &&& c.lockdown_bios_settings_change != Some(!e)
    &&& c.lockdown_bios_upgrade_downgrade != Some(!e)
}

/// The Lenovo-on-AMI answer.
pub open spec fn lenovo_ami_spec(cfg: Option<AmiConfigBmc>) -> Result<(InternalLockdownStatus, Seq<char>), ExploreErrorView> {
    match cfg {
        None => missing("AMI Manager ConfigBMC"@),
        Some(c) => Ok(
            (
                if all_reported(c, true) {
                    InternalLockdownStatus::Enabled
                } else if all_reported(c, false) {
                    InternalLockdownStatus::Disabled
                } else {
                    InternalLockdownStatus::Partial
                },
                join(config_bmc_parts(c), ", "@),
            ),
        ),
    }
}

fn push_switch(
    msg: &mut Vec<char>,
    nonempty: bool,
    name: &str,
    v: Option<bool>,
    Ghost(parts): Ghost<Seq<Seq<char>>>,
) -> (r: bool)
    requires
        old(msg)@ == join(parts, ", "@),
        nonempty == (parts.len() > 0),
    ensures
        final(msg)@ == join(parts + switch_part(name@, v), ", "@),
        r == (parts.len() + switch_part(name@, v).len() > 0),
{
    match v {
        None => {
            assert(parts + switch_part(name@, v) =~= parts);
            nonempty
        },
        Some(e) => {
            let mut p: Vec<char> = Vec::new();
            extend_str(&mut p, name);
            extend_str(&mut p, "=");
            if e {
                extend_str(&mut p, "Enable");
            } else {
                extend_str(&mut p, "Disable");
            }
            append_joined(msg, nonempty, ", ", &p, Ghost(parts));
            assert(parts + switch_part(name@, v) =~= parts.push(p@));
            true
        },
    }
}

/// Lockdown of a Lenovo system with AMI firmware.
pub fn lenovo_ami_lockdown(cfg: &Option<AmiConfigBmc>) -> (r: Result<LockdownStatus, ExploreError>)
    ensures
        lockdown_view(r) == lenovo_ami_spec(*cfg),
{
    let c = match cfg {
        None => {
            return Err(not_provided("AMI Manager ConfigBMC"));
        },
        Some(c) => *c,
    };
    let all_enabled = c.lockout_host_control != Some(false) && c.lockout_bios_variable_write_mode
        != Some(false) && c.lockdown_bios_settings_change != Some(false)
        && c.lockdown_bios_upgrade_downgrade != Some(false);
    let all_disabled = c.lockout_host_control != Some(true) && c.lockout_bios_variable_write_mode
        != Some(true) && c.lockdown_bios_settings_change != Some(true)
        && c.lockdown_bios_upgrade_downgrade != Some(true);
    let status = if all_enabled {
        InternalLockdownStatus::Enabled
    } else if all_disabled {
        InternalLockdownStatus::Disabled
    } else {
        InternalLockdownStatus::Partial
    };
    let mut msg: Vec<char> = Vec::new();
    let ghost p0: Seq<Seq<char>> = Seq::empty();
    let n1 = push_switch(&mut msg, false, "LockoutHostControl", c.lockout_host_control, Ghost(p0));
    let ghost p1 = p0 + switch_part("LockoutHostControl"@, c.lockout_host_control);
    let n2 = push_switch(
        &mut msg,
        n1,
        "LockoutBiosVariableWriteMode",
        c.lockout_bios_variable_write_mode,
        Ghost(p1),
    );
    let ghost p2 = p1 + switch_part(
        "LockoutBiosVariableWriteMode"@,
        c.lockout_bios_variable_write_mode,
    );
    let n3 = push_switch(
        &mut msg,
        n2,
        "LockdownBiosSettingsChange",
        c.lockdown_bios_settings_change,
        Ghost(p2),
    );
    let ghost p3 = p2 + switch_part("LockdownBiosSettingsChange"@, c.lockdown_bios_settings_change);
    let _ = push_switch(
        &mut msg,
        n3,
        "LockdownBiosUpgradeDowngrade",
        c.lockdown_bios_upgrade_downgrade,
        Ghost(p3),
    );
    assert(p3 + switch_part("LockdownBiosUpgradeDowngrade"@, c.lockdown_bios_upgrade_downgrade)
        =~= config_bmc_parts(c));
    Ok(LockdownStatus { status, message: string_of(&msg) })
}

// ---------------------------------------------------------------- Lenovo (XCC)

/// Whether the BMC's KCS interface is on.
#[derive(Clone, Copy, Debug, PartialEq, Eq, Structural)]
pub enum KcsState {
    Enabled,
    Disabled,
}

/// Whether firmware rollback is allowed.
#[derive(Clone, Copy, Debug, PartialEq, Eq, Structural)]
pub enum FwRollbackState {
    Enabled,
    Disabled,
}

/// Who owns the front-panel USB port.
#[derive(Clone, Copy, Debug, PartialEq, Eq, Structural)]
pub enum FpMode {
    Server,
    Bmc,
    Shared,
}

/// Where a shared front-panel USB port is switched to.
#[derive(Clone, Copy, Debug, PartialEq, Eq, Structural)]
pub enum PortSwitchingTo {
    Server,
    Bmc,
}

/// The name `Debug` gives a rollback state.
pub open spec fn rollback_name(s: FwRollbackState) -> Seq<char> {
    match s {
        FwRollbackState::Enabled => "Enabled"@,
        FwRollbackState::Disabled => "Disabled"@,
    }
}

/// The name `Debug` gives a front-panel mode.
pub open spec fn fp_mode_name(m: FpMode) -> Seq<char> {
    match m {
        FpMode::Server => "Server"@,
        FpMode::Bmc => "Bmc"@,
        FpMode::Shared => "Shared"@,
    }
}

/// The name `Debug` gives a port switching target.
pub open spec fn port_name(p: PortSwitchingTo) -> Seq<char> {
    match p {
        PortSwitchingTo::Server => "Server"@,
        PortSwitchingTo::Bmc => "Bmc"@,
    }
}

/// One Ethernet interface of a BMC or system, as reported.
#[derive(Clone, Debug)]
pub struct EthInterfaceFacts {
    pub id: String,
    pub interface_enabled: Option<bool>,
    pub mac_address: Option<String>,
    pub uefi_device_path: Option<String>,
}

/// The `enabled` property of the first interface from position `i` on
/// whose id is `id` (`None` when there is none or it does not say).
pub open spec fn enabled_of_first(ifaces: Seq<EthInterfaceFacts>, id: Seq<char>, i: int) -> Option<bool>
    decreases ifaces.len() - i,
{
    if i < 0 || i >= ifaces.len() {
        None
    } else if ifaces[i].id@ == id {
        ifaces[i].interface_enabled
    } else {
        enabled_of_first(ifaces, id, i + 1)
    }
}

/// The `enabled` property of the first interface named `ToHost`.
pub fn to_host_enabled(ifaces: &Vec<EthInterfaceFacts>) -> (r: Option<bool>)
    ensures
        r == enabled_of_first(ifaces@, "ToHost"@, 0),
{
    let mut i: usize = 0;
    while i < ifaces.len()
        invariant
            i <= ifaces@.len(),
            enabled_of_first(ifaces@, "ToHost"@, 0) == enabled_of_first(ifaces@, "ToHost"@, i as int),
        decreases ifaces.len() - i,
    {
        if str_eq(ifaces[i].id.as_str(), "ToHost") {
            return ifaces[i].interface_enabled;
        }
        i = i + 1;
    }
    None
}

/// What a Lenovo XCC reports for lockdown; each layer is `None` when the
/// BMC does not provide it.
#[derive(Clone, Debug)]
pub struct LenovoFacts {
    /// The manager's Lenovo extension, with its KCS state.
    pub manager_oem: Option<Option<KcsState>>,
    /// The security service, with its firmware rollback state.
    pub security_service: Option<Option<FwRollbackState>>,
    pub manager_eth_interfaces: Vec<EthInterfaceFacts>,
    /// The computer system's Lenovo extension, with the front-panel mode
    /// and where the port is switched to.
    pub system_oem: Option<(Option<FpMode>, Option<PortSwitchingTo>)>,
}

/// Lockdown of a Lenovo system from its settings.
pub open spec fn lenovo_status(
    kcs: KcsState,
    rollback: FwRollbackState,
    eth_usb: bool,
    fp: FpMode,
    port: PortSwitchingTo,
) -> InternalLockdownStatus {
    if kcs == KcsState::Disabled && rollback == FwRollbackState::Disabled && !eth_usb && fp
        == FpMode::Server {
        InternalLockdownStatus::Enabled
    } else if kcs == KcsState::Enabled && rollback == FwRollbackState::Enabled && eth_usb && fp
        == FpMode::Shared && port == PortSwitchingTo::Server {
        InternalLockdownStatus::Disabled
    } else {
        InternalLockdownStatus::Partial
    }
}

/// The Lenovo message.
pub open spec fn lenovo_message(
    kcs: KcsState,
    rollback: FwRollbackState,
    eth_usb: bool,
    fp: FpMode,
    port: PortSwitchingTo,
) -> Seq<char> {
    "kcs="@ + bool_text(kcs == KcsState::Enabled) + ", firmware_rollback="@ + rollback_name(rollback)
        + ", ethernet_over_usb="@ + bool_text(eth_usb) + ", front_panel_usb="@ + fp_mode_name(fp)
        + "/"@ + port_name(port)
}

/// The Lenovo answer: every setting must be reported.
pub open spec fn lenovo_spec(f: LenovoFacts) -> Result<(InternalLockdownStatus, Seq<char>), ExploreErrorView> {
    match f.manager_oem {
        None => missing("Lenovo manager OEM"@),
        Some(None) => missing("Lenovo manager: KCS state"@),
        Some(Some(kcs)) => match f.security_service {
            None => missing("Lenovo security service"@),
            Some(None) => missing("Lenovo security service: firmware rollback status"@),
            Some(Some(rb)) => match enabled_of_first(f.manager_eth_interfaces@, "ToHost"@, 0) {
                None => missing("Lenovo manager ethernet interfaces: enabled property"@),
                Some(eth) => match f.system_oem {
                    None => missing("Lenovo computer system"@),
                    Some((None, _)) => missing("Lenovo computer system: front panel mode"@),
                    Some((Some(_), None)) => missing("Lenovo computer system: port switching to"@),
                    Some((Some(fp), Some(port))) => Ok(
                        (
                            lenovo_status(kcs, rb, eth, fp, port),
                            lenovo_message(kcs, rb, eth, fp, port),
                        ),
                    ),
                },
            },
        },
    }
}

/// Lockdown of a Lenovo system.
pub fn lenovo_lockdown(f: &LenovoFacts) -> (r: Result<LockdownStatus, ExploreError>)
    ensures
        lockdown_view(r) == lenovo_spec(*f),
{
    let kcs = match f.manager_oem {
        None => {
            return Err(not_provided("Lenovo manager OEM"));
        },
        Some(None) => {
            return Err(not_provided("Lenovo manager: KCS state"));
        },
        Some(Some(k)) => k,
    };
    let rb = match f.security_service {
        None => {
            return Err(not_provided("Lenovo security service"));
        },
        Some(None) => {
            return Err(not_provided("Lenovo security service: firmware rollback status"));
        },
        Some(Some(r)) => r,
    };
    let eth = match to_host_enabled(&f.manager_eth_interfaces) {
        None => {
            return Err(not_provided("Lenovo manager ethernet interfaces: enabled property"));
        },
        Some(e) => e,
    };
    let (fp, port) = match f.system_oem {
        None => {
            return Err(not_provided("Lenovo computer system"));
        },
        Some((None, _)) => {
            return Err(not_provided("Lenovo computer system: front panel mode"));
        },
        Some((Some(_), None)) => {
            return Err(not_provided("Lenovo computer system: port switching to"));
        },
        Some((Some(fp), Some(port))) => (fp, port),
    };
    let status = if kcs == KcsState::Disabled && rb == FwRollbackState::Disabled && !eth && fp
        == FpMode::Server {
        InternalLockdownStatus::Enabled
    } else if kcs == KcsState::Enabled && rb == FwRollbackState::Enabled && eth && fp
        == FpMode::Shared && port == PortSwitchingTo::Server {
        InternalLockdownStatus::Disabled
    } else {
        InternalLockdownStatus::Partial
    };
    let mut msg: Vec<char> = Vec::new();
    extend_str(&mut msg, "kcs=");
    push_bool(&mut msg, kcs == KcsState::Enabled);
    extend_str(&mut msg, ", firmware_rollback=");
    match rb {
        FwRollbackState::Enabled => extend_str(&mut msg, "Enabled"),
        FwRollbackState::Disabled => extend_str(&mut msg, "Disabled"),
    }
    extend_str(&mut msg, ", ethernet_over_usb=");
    push_bool(&mut msg, eth);
    extend_str(&mut msg, ", front_panel_usb=");
    match fp {
        FpMode::Server => extend_str(&mut msg, "Server"),
        FpMode::Bmc => extend_str(&mut msg, "Bmc"),
        FpMode::Shared => extend_str(&mut msg, "Shared"),
    }
    extend_str(&mut msg, "/");
    match port {
        PortSwitchingTo::Server => extend_str(&mut msg, "Server"),
        PortSwitchingTo::Bmc => extend_str(&mut msg, "Bmc"),
    }
    Ok(LockdownStatus { status, message: string_of(&msg) })
}

// ---------------------------------------------------------------- Supermicro

/// Privilege of the KCS interface of a Supermicro BMC.
#[derive(Clone, Copy, Debug, PartialEq, Eq, Structural)]
pub enum SupermicroPrivilege {
    Administrator,
    Operator,
    User,
    Callback,
}

/// The name `Debug` gives a privilege.
pub open spec fn privilege_name(p: SupermicroPrivilege) -> Seq<char> {
    match p {
        SupermicroPrivilege::Administrator => "Administrator"@,
        SupermicroPrivilege::Operator => "Operator"@,
        SupermicroPrivilege::User => "User"@,
        SupermicroPrivilege::Callback => "Callback"@,
    }
}

/// What the alternate `Debug` form writes for an optional privilege.
pub open spec fn privilege_pretty(p: Option<SupermicroPrivilege>) -> Seq<char> {
    match p {
        None => "None"@,
        Some(x) => "Some(\n    "@ + privilege_name(x) + ",\n)"@,
    }
}

/// The model of the Grace-Grace Supermicro system, which keeps its host
/// interface on under lockdown and has no KCS interface.
pub const GRACE_GRACE_MODEL: &'static str = "ARS-121L-DNR";

/// Lockdown of a Supermicro system.
pub open spec fn supermicro_status(
    hi: bool,
    kcs: Option<SupermicroPrivilege>,
    sys_lockdown: bool,
    model: Option<Seq<char>>,
) -> InternalLockdownStatus {
    if model == Some(GRACE_GRACE_MODEL@) {
        if hi && sys_lockdown {
            InternalLockdownStatus::Enabled
        } else if hi && !sys_lockdown {
            InternalLockdownStatus::Disabled
        } else {
            InternalLockdownStatus::Partial
        }
    } else if !hi && kcs == Some(SupermicroPrivilege::Callback) && sys_lockdown {
        InternalLockdownStatus::Enabled
    } else if hi && kcs == Some(SupermicroPrivilege::Administrator) && !sys_lockdown {
        InternalLockdownStatus::Disabled
    } else if hi && kcs is None && !sys_lockdown {
        InternalLockdownStatus::Disabled
    } else {
        InternalLockdownStatus::Partial
    }
}

/// The Supermicro answer.
pub open spec fn supermicro_spec(
    host_interfaces: Option<Seq<Option<bool>>>,
    kcs: Option<SupermicroPrivilege>,
    sys_lockdown: Option<bool>,
    model: Option<Seq<char>>,
) -> Result<(InternalLockdownStatus, Seq<char>), ExploreErrorView> {
    match host_interfaces {
        None => missing("host interfaces"@),
        Some(h) => match sys_lockdown {
            None => missing("Supermicro lockdown status"@),
            Some(sl) => {
                let hi = any_host_interface_enabled(h);
                Ok(
                    (
                        supermicro_status(hi, kcs, sl, model),
                        "SysLockdownEnabled="@ + bool_text(sl) + ", kcs_privilege="@
                            + privilege_pretty(kcs) + ", host_interface_enabled="@ + bool_text(hi),
                    ),
                )
            },
        },
    }
}

fn supermicro_status_of(hi: bool, kcs: Option<SupermicroPrivilege>, sl: bool, model: &Option<String>) -> (st: InternalLockdownStatus)
    ensures
        st == supermicro_status(hi, kcs, sl, opt_seq(*model)),
{
    let grace = match model {
        Some(m) => str_eq(m.as_str(), GRACE_GRACE_MODEL),
        None => false,
    };
    if grace {
        if hi && sl {
            InternalLockdownStatus::Enabled
        } else if hi && !sl {
            InternalLockdownStatus::Disabled
        } else {
            InternalLockdownStatus::Partial
        }
    } else if !hi && matches!(kcs, Some(SupermicroPrivilege::Callback)) && sl {
        InternalLockdownStatus::Enabled
    } else if hi && matches!(kcs, Some(SupermicroPrivilege::Administrator)) && !sl {
        InternalLockdownStatus::Disabled
    } else if hi && kcs.is_none() && !sl {
        InternalLockdownStatus::Disabled
    } else {
        InternalLockdownStatus::Partial
    }
}

fn supermicro_message(hi: bool, kcs: Option<SupermicroPrivilege>, sl: bool) -> (msg: Vec<char>)
    ensures
        msg@ == "SysLockdownEnabled="@ + bool_text(sl) + ", kcs_privilege="@ + privilege_pretty(kcs)
            + ", host_interface_enabled="@ + bool_text(hi),
{
    let mut msg: Vec<char> = Vec::new();
    extend_str(&mut msg, "SysLockdownEnabled=");
    push_bool(&mut msg, sl);
    extend_str(&mut msg, ", kcs_privilege=");
    match kcs {
        None => extend_str(&mut msg, "None"),
        Some(p) => {
            extend_str(&mut msg, "Some(\n    ");
            match p {
                SupermicroPrivilege::Administrator => extend_str(&mut msg, "Administrator"),
                SupermicroPrivilege::Operator => extend_str(&mut msg, "Operator"),
                SupermicroPrivilege::User => extend_str(&mut msg, "User"),
                SupermicroPrivilege::Callback => extend_str(&mut msg, "Callback"),
            }
            extend_str(&mut msg, ",\n)");
        },
    }
    extend_str(&mut msg, ", host_interface_enabled=");
    push_bool(&mut msg, hi);
    msg
}

/// Lockdown of a Supermicro system.
pub fn supermicro_lockdown(
    host_interfaces: &Option<Vec<Option<bool>>>,
    kcs: Option<SupermicroPrivilege>,
    sys_lockdown: Option<bool>,
    model: &Option<String>,
) -> (r: Result<LockdownStatus, ExploreError>)
    ensures
        lockdown_view(r) == supermicro_spec(
            match host_interfaces {
                Some(h) => Some(h@),
                None => None,
            },
            kcs,
            sys_lockdown,
            opt_seq(*model),
        ),
{
    let hi = match host_interfaces {
        None => {
            return Err(not_provided("host interfaces"));
        },
        Some(h) => host_interface_enabled(h),
    };
    let sl = match sys_lockdown {
        None => {
            return Err(not_provided("Supermicro lockdown status"));
        },
        Some(s) => s,
    };
    let status = supermicro_status_of(hi, kcs, sl, model);
    let msg = supermicro_message(hi, kcs, sl);
    Ok(LockdownStatus { status, message: string_of(&msg) })
}

// ---------------------------------------------------------------- HPE

/// The HPE answer.
pub open spec fn hpe_spec(bios: Option<Attributes>, virtual_nic: Option<bool>) -> Result<(InternalLockdownStatus, Seq<char>), ExploreErrorView> {
    match bios {
        None => missing("bios"@),
        Some(b) => match virtual_nic {
            None => missing("HPE manager virtual NIC state"@),
            Some(v) => {
                let usb = str_value(attr_lookup(b.entries@, "UsbBoot"@));
                let status = if usb == Some("Disabled"@) && !v {
                    InternalLockdownStatus::Enabled
                } else if usb == Some("Enabled"@) && v {
                    InternalLockdownStatus::Disabled
                } else {
                    InternalLockdownStatus::Partial
                };
                let usb_text = match usb {
                    Some(u) => u,
                    None => "Unknown"@,
                };
                Ok((status, "usb_boot="@ + usb_text + ", virtual_nic_enabled="@ + bool_text(v)))
            },
        },
    }
}

/// Lockdown of an HPE system.
pub fn hpe_lockdown(bios: &Option<Attributes>, virtual_nic: Option<bool>) -> (r: Result<LockdownStatus, ExploreError>)
    ensures
        lockdown_view(r) == hpe_spec(*bios, virtual_nic),
{
    if bios.is_none() {
        return Err(not_provided("bios"));
    }
    let usb = opt_str_attr(bios, "UsbBoot");
    let v = match virtual_nic {
        None => {
            return Err(not_provided("HPE manager virtual NIC state"));
        },
        Some(v) => v,
    };
    let (dis, en) = match &usb {
        Some(u) => (str_eq(u.as_str(), "Disabled"), str_eq(u.as_str(), "Enabled")),
        None => (false, false),
    };
    let status = if dis && !v {
        InternalLockdownStatus::Enabled
    } else if en && v {
        InternalLockdownStatus::Disabled
    } else {
        InternalLockdownStatus::Partial
    };
    let mut msg: Vec<char> = Vec::new();
    extend_str(&mut msg, "usb_boot=");
    match &usb {
        Some(u) => extend_str(&mut msg, u.as_str()),
        None => extend_str(&mut msg, "Unknown"),
    }
    extend_str(&mut msg, ", virtual_nic_enabled=");
    push_bool(&mut msg, v);
    Ok(LockdownStatus { status, message: string_of(&msg) })
}

// ---------------------------------------------------------------- dispatch

/// Everything lockdown is read from, as the exploration found it; each
/// field is `None` where the BMC did not provide it.
#[derive(Clone, Debug)]
pub struct LockdownFacts {
    pub bios: Option<Attributes>,
    /// Whether each host interface says it is enabled.
    pub host_interfaces: Option<Vec<Option<bool>>>,
    pub dell_attributes: Option<Attributes>,
    pub ami_config_bmc: Option<AmiConfigBmc>,
    pub lenovo: LenovoFacts,
    pub supermicro_kcs_privilege: Option<SupermicroPrivilege>,
    pub supermicro_sys_lockdown: Option<bool>,
    pub system_model: Option<String>,
    pub hpe_virtual_nic_enabled: Option<bool>,
}

/// The host interface flags as plain values.
pub open spec fn host_ifaces_view(h: Option<Vec<Option<bool>>>) -> Option<Seq<Option<bool>>> {
    match h {
        Some(v) => Some(v@),
        None => None,
    }
}

/// The lockdown answer for a hardware family: `None` for families that
/// have no lockdown.
pub open spec fn lockdown_spec(hw: HwType, f: LockdownFacts) -> Result<
    Option<(InternalLockdownStatus, Seq<char>)>,
    ExploreErrorView,
> {
    let r = match hw {
        HwType::Viking => viking_spec(f.bios),
        HwType::Ami => ami_spec(f.bios, host_ifaces_view(f.host_interfaces)),
        HwType::Dell => dell_spec(f.dell_attributes),
        HwType::LenovoAmi => lenovo_ami_spec(f.ami_config_bmc),
        HwType::Lenovo => lenovo_spec(f.lenovo),
        HwType::Supermicro => supermicro_spec(
            host_ifaces_view(f.host_interfaces),
            f.supermicro_kcs_privilege,
            f.supermicro_sys_lockdown,
            opt_seq(f.system_model),
        ),
        HwType::Hpe => hpe_spec(f.bios, f.hpe_virtual_nic_enabled),
        _ => Ok((InternalLockdownStatus::Partial, Seq::empty())),
    };
    if has_lockdown(hw) {
        match r {
            Ok(x) => Ok(Some(x)),
            Err(e) => Err(e),
        }
    } else {
        Ok(None)
    }
}

/// Whether the family reports lockdown at all.
pub open spec fn has_lockdown(hw: HwType) -> bool {
    match hw {
        HwType::Viking | HwType::Ami | HwType::Dell | HwType::LenovoAmi | HwType::Lenovo
        | HwType::Supermicro | HwType::Hpe => true,
        _ => false,
    }
}

/// An optional lockdown answer as plain values.
pub open spec fn opt_lockdown_view(r: Result<Option<LockdownStatus>, ExploreError>) -> Result<
    Option<(InternalLockdownStatus, Seq<char>)>,
    ExploreErrorView,
> {
    match r {
        Ok(Some(s)) => Ok(Some((s.status, s.message@))),
        Ok(None) => Ok(None),
        Err(e) => Err(e@),
    }
}

/// The lockdown state of an explored BMC of family `hw`.
pub fn lockdown_status(hw: HwType, f: &LockdownFacts) -> (r: Result<Option<LockdownStatus>, ExploreError>)
    ensures
        opt_lockdown_view(r) == lockdown_spec(hw, *f),
{
    let r = match hw {
        HwType::Viking => viking_lockdown(&f.bios),
        HwType::Ami => ami_lockdown(&f.bios, &f.host_interfaces),
        HwType::Dell => dell_lockdown(&f.dell_attributes),
        HwType::LenovoAmi => lenovo_ami_lockdown(&f.ami_config_bmc),
        HwType::Lenovo => lenovo_lockdown(&f.lenovo),
        HwType::Supermicro => supermicro_lockdown(
            &f.host_interfaces,
            f.supermicro_kcs_privilege,
            f.supermicro_sys_lockdown,
            &f.system_model,
        ),
        HwType::Hpe => hpe_lockdown(&f.bios, f.hpe_virtual_nic_enabled),
        _ => {
            return Ok(None);
        },
    };
    match r {
        Ok(s) => Ok(Some(s)),
        Err(e) => Err(e),
    }
}

} // verus!
