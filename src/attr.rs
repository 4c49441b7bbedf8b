use vstd::prelude::*;
use vstd::string::StringSliceAdditionalSpecFns;

use crate::bytes::{copy_bytes, has_nul, nul_free};
use crate::error::{SpawnError, EINVAL};

verus! {

/// Memory-pressure limits: the fatal-on-exceed flags, a relative priority,
/// and the active and inactive footprint limits in megabytes.
#[derive(Debug, Clone, Copy, PartialEq, Eq, Structural)]
pub struct JetsamLimits {
    pub flags: i16,
    pub priority: i32,
    pub memlimit_active: i32,
    pub memlimit_inactive: i32,
}

/// A platform identity code and its (unused) flags.
#[derive(Debug, Clone, Copy, PartialEq, Eq, Structural)]
pub struct PlatformIdentity {
    pub platform: i32,
    pub flags: u32,
}

/// The facets requested of a spawn-attribute set. `None` (or `false`) is a
/// facet that was never set and keeps the native default.
pub struct AttrState {
    pub flags: Option<i16>,
    pub cpu_monitor_default: bool,
    pub jetsam: Option<JetsamLimits>,
    pub ptr_auth_a_keys_disabled: Option<u32>,
    pub disclaim: Option<bool>,
    pub subsystem_root_path: Option<Seq<u8>>,
    pub platform: Option<PlatformIdentity>,
}

/// One setter call, with its argument.
pub enum AttrChange {
    Flags(i16),
    CpuMonitorDefault,
    Jetsam(JetsamLimits),
    PtrAuthAKeysDisabled(u32),
    Disclaim(bool),
    SubsystemRootPath(Seq<u8>),
    Platform(PlatformIdentity),
}

/// The facet a setter call addresses; distinct setters address distinct facets.
pub open spec fn facet(c: AttrChange) -> nat {
    match c {
        AttrChange::Flags(_) => 0,
        AttrChange::CpuMonitorDefault => 1,
        AttrChange::Jetsam(_) => 2,
        AttrChange::PtrAuthAKeysDisabled(_) => 3,
        AttrChange::Disclaim(_) => 4,
        AttrChange::SubsystemRootPath(_) => 5,
        AttrChange::Platform(_) => 6,
    }
}

/// The state after one setter call: its facet takes the new value, every
/// other facet is kept.
pub open spec fn apply_change(s: AttrState, c: AttrChange) -> AttrState {
    match c {
        AttrChange::Flags(f) => AttrState { flags: Some(f), ..s },
        AttrChange::CpuMonitorDefault => AttrState { cpu_monitor_default: true, ..s },
        AttrChange::Jetsam(j) => AttrState { jetsam: Some(j), ..s },
        AttrChange::PtrAuthAKeysDisabled(f) => AttrState { ptr_auth_a_keys_disabled: Some(f), ..s },
        AttrChange::Disclaim(d) => AttrState { disclaim: Some(d), ..s },
        AttrChange::SubsystemRootPath(p) => AttrState { subsystem_root_path: Some(p), ..s },
        AttrChange::Platform(p) => AttrState { platform: Some(p), ..s },
    }
}

/// The state after the setter calls `cs`, made in order.
pub open spec fn apply_changes(s: AttrState, cs: Seq<AttrChange>) -> AttrState
    decreases cs.len(),
{
    if cs.len() == 0 {
        s
    } else {
        apply_changes(apply_change(s, cs[0]), cs.drop_first())
    }
}

/// No two of the setter calls `cs` address the same facet.
pub open spec fn distinct_facets(cs: Seq<AttrChange>) -> bool {
    forall|i: int, j: int|
        0 <= i < j < cs.len() ==> #[trigger] facet(cs[i]) != #[trigger] facet(cs[j])
}

/// Two setter calls on distinct facets give the same state in either order.
pub proof fn lemma_setters_commute(s: AttrState, a: AttrChange, b: AttrChange)
    requires
        facet(a) != facet(b),
    ensures
        apply_change(apply_change(s, a), b) == apply_change(apply_change(s, b), a),
{
}

proof fn lemma_apply_last(s: AttrState, cs: Seq<AttrChange>, c: AttrChange)
    ensures
        apply_changes(s, cs.push(c)) == apply_change(apply_changes(s, cs), c),
    decreases cs.len(),
{
    if cs.len() > 0 {
        assert(cs.push(c)[0] == cs[0]);
        assert(cs.push(c).drop_first() =~= cs.drop_first().push(c));
        lemma_apply_last(apply_change(s, cs[0]), cs.drop_first(), c);
    } else {
        assert(cs.push(c)[0] == c);
        assert(cs.push(c).drop_first() =~= Seq::<AttrChange>::empty());
        assert(apply_changes(apply_change(s, c), Seq::<AttrChange>::empty()) == apply_change(s, c));
    }
}

proof fn lemma_apply_first_late(s: AttrState, c: AttrChange, cs: Seq<AttrChange>)
    requires
        forall|i: int| 0 <= i < cs.len() ==> facet(#[trigger] cs[i]) != facet(c),
    ensures
        apply_changes(apply_change(s, c), cs) == apply_change(apply_changes(s, cs), c),
    decreases cs.len(),
{
    if cs.len() > 0 {
        lemma_setters_commute(s, c, cs[0]);
        let rest = cs.drop_first();
        assert forall|i: int| 0 <= i < rest.len() implies facet(#[trigger] rest[i]) != facet(c) by {
            assert(rest[i] == cs[i + 1]);
        }
        lemma_apply_first_late(apply_change(s, cs[0]), c, rest);
    }
}

/// Setter calls on pairwise distinct facets give the same attribute state
/// when they are made in reverse order.
pub proof fn lemma_setter_order_reversible(s: AttrState, cs: Seq<AttrChange>)
    requires
        distinct_facets(cs),
    ensures
        apply_changes(s, cs) == apply_changes(s, cs.reverse()),
    decreases cs.len(),
{
    if cs.len() > 0 {
        let c = cs[0];
        let rest = cs.drop_first();
        assert forall|i: int, j: int| 0 <= i < j < rest.len() implies #[trigger] facet(rest[i])
            != #[trigger] facet(rest[j]) by {
            assert(rest[i] == cs[i + 1] && rest[j] == cs[j + 1]);
        }
        assert forall|i: int| 0 <= i < rest.len() implies facet(#[trigger] rest[i]) != facet(c) by {
            assert(rest[i] == cs[i + 1]);
            assert(facet(cs[0]) != facet(cs[i + 1]));
        }
        lemma_apply_first_late(s, c, rest);
        lemma_setter_order_reversible(s, rest);
        lemma_apply_last(s, rest.reverse(), c);
        assert(cs.reverse() =~= rest.reverse().push(c));
    }
}

/// A spawn-attribute set: the facets that the native attribute handle will
/// be given before the process is created.
pub struct PosixSpawnAttr {
    flags: Option<i16>,
    cpu_monitor_default: bool,
    jetsam: Option<JetsamLimits>,
    ptr_auth_a_keys_disabled: Option<u32>,
    disclaim: Option<bool>,
    subsystem_root_path: Option<Vec<u8>>,
    platform: Option<PlatformIdentity>,
}

/// The state in which no facet is set.
pub open spec fn empty_attr_state() -> AttrState {
    AttrState {
        flags: None,
        cpu_monitor_default: false,
        jetsam: None,
        ptr_auth_a_keys_disabled: None,
        disclaim: None,
        subsystem_root_path: None,
        platform: None,
    }
}

impl View for PosixSpawnAttr {
    type V = AttrState;

    closed spec fn view(&self) -> AttrState {
        AttrState {
            flags: self.flags,
            cpu_monitor_default: self.cpu_monitor_default,
            jetsam: self.jetsam,
            ptr_auth_a_keys_disabled: self.ptr_auth_a_keys_disabled,
            disclaim: self.disclaim,
            subsystem_root_path: match self.subsystem_root_path {
                Some(p) => Some(p@),
                None => None,
            },
            platform: self.platform,
        }
    }
}

impl PosixSpawnAttr {
    /// The subsystem root path, if set, holds no embedded terminator.
    pub closed spec fn wf(&self) -> bool {
        match self.subsystem_root_path {
            Some(p) => nul_free(p@),
            None => true,
        }
    }

    /// An attribute set with no facet requested.
    pub fn new() -> (r: Result<PosixSpawnAttr, SpawnError>)
        ensures
            r is Ok,
            r->Ok_0@ == empty_attr_state(),
            r->Ok_0.wf(),
    {
        Ok(PosixSpawnAttr {
            flags: None,
            cpu_monitor_default: false,
            jetsam: None,
            ptr_auth_a_keys_disabled: None,
            disclaim: None,
            subsystem_root_path: None,
            platform: None,
        })
    }

    /// Requests the spawn flags bitmask.
    pub fn setflags(&mut self, flags: i16) -> (r: Result<(), SpawnError>)
        ensures
            r == Ok::<(), SpawnError>(()),
            final(self)@ == apply_change(old(self)@, AttrChange::Flags(flags)),
            old(self).wf() ==> final(self).wf(),
    {
        self.flags = Some(flags);
        Ok(())
    }

    /// Requests the default CPU-usage monitor.
    pub fn setcpumonitor_default(&mut self) -> (r: Result<(), SpawnError>)
        ensures
            r == Ok::<(), SpawnError>(()),
            final(self)@ == apply_change(old(self)@, AttrChange::CpuMonitorDefault),
            old(self).wf() ==> final(self).wf(),
    {
        self.cpu_monitor_default = true;
        Ok(())
    }

    /// Requests memory-pressure limits: fatal-on-exceed flags, relative
    /// priority, and active and inactive limits in megabytes.
    pub fn setjetsam_ext(
        &mut self,
        flags: i16,
        priority: i32,
        memlimit_active: i32,
        memlimit_inactive: i32,
    ) -> (r: Result<(), SpawnError>)
        ensures
            r == Ok::<(), SpawnError>(()),
            final(self)@ == apply_change(
                old(self)@,
                AttrChange::Jetsam(JetsamLimits { flags, priority, memlimit_active, memlimit_inactive }),
            ),
            old(self).wf() ==> final(self).wf(),
    {
        self.jetsam = Some(JetsamLimits { flags, priority, memlimit_active, memlimit_inactive });
        Ok(())
    }

    /// Requests that the pointer-authentication A keys named by `flags` be
    /// disabled.
    pub fn disable_ptr_auth_a_keys_np(&mut self, flags: u32) -> (r: Result<(), SpawnError>)
        ensures
            r == Ok::<(), SpawnError>(()),
            final(self)@ == apply_change(old(self)@, AttrChange::PtrAuthAKeysDisabled(flags)),
            old(self).wf() ==> final(self).wf(),
    {
        self.ptr_auth_a_keys_disabled = Some(flags);
        Ok(())
    }

    /// Requests that the child disclaim (or keep) responsibility.
    pub fn responsibility_spawnattrs_setdisclaim(&mut self, disclaim: bool) -> (r: Result<
        (),
        SpawnError,
    >)
        ensures
            r == Ok::<(), SpawnError>(()),
            final(self)@ == apply_change(old(self)@, AttrChange::Disclaim(disclaim)),
            old(self).wf() ==> final(self).wf(),
    {
        self.disclaim = Some(disclaim);
        Ok(())
    }

    /// Requests a subsystem root path. A path with an embedded terminator is
    /// refused and leaves the set unchanged.
    pub fn set_subsystem_root_path_np(&mut self, path: &str) -> (r: Result<(), SpawnError>)
        ensures
            nul_free(path.spec_bytes()) ==> r == Ok::<(), SpawnError>(()) && final(self)@
                == apply_change(old(self)@, AttrChange::SubsystemRootPath(path.spec_bytes())),
            !nul_free(path.spec_bytes()) ==> r == Err::<(), SpawnError>(
                SpawnError::InvalidArgument(EINVAL),
            ) && final(self)@ == old(self)@,
            old(self).wf() ==> final(self).wf(),
    {
        let b = path.as_bytes();
        if has_nul(b) {
            return Err(SpawnError::InvalidArgument(EINVAL));
        }
        self.subsystem_root_path = Some(copy_bytes(b));
        Ok(())
    }

    /// Requests a platform identity code.
    pub fn set_platform_np(&mut self, platform: i32, flags: u32) -> (r: Result<(), SpawnError>)
        ensures
            r == Ok::<(), SpawnError>(()),
            final(self)@ == apply_change(
                old(self)@,
                AttrChange::Platform(PlatformIdentity { platform, flags }),
            ),
            old(self).wf() ==> final(self).wf(),
    {
        self.platform = Some(PlatformIdentity { platform, flags });
        Ok(())
    }

    /// The requested spawn flags.
    pub fn flags(&self) -> (r: Option<i16>)
        ensures
            r == self@.flags,
    {
        self.flags
    }

    /// Whether the default CPU-usage monitor is requested.
    pub fn cpu_monitor_default(&self) -> (r: bool)
        ensures
            r == self@.cpu_monitor_default,
    {
        self.cpu_monitor_default
    }

    /// The requested memory-pressure limits.
    pub fn jetsam(&self) -> (r: Option<JetsamLimits>)
        ensures
            r == self@.jetsam,
    {
        self.jetsam
    }

    /// The requested pointer-authentication A keys to disable.
    pub fn ptr_auth_a_keys_disabled(&self) -> (r: Option<u32>)
        ensures
            r == self@.ptr_auth_a_keys_disabled,
    {
        self.ptr_auth_a_keys_disabled
    }

    /// The requested responsibility disclaim.
    pub fn disclaim(&self) -> (r: Option<bool>)
        ensures
            r == self@.disclaim,
    {
        self.disclaim
    }

    /// The requested subsystem root path, without terminator.
    pub fn subsystem_root_path(&self) -> (r: Option<Vec<u8>>)
        ensures
            match r {
                Some(p) => self@.subsystem_root_path == Some(p@),
                None => self@.subsystem_root_path is None,
            },
    {
        match &self.subsystem_root_path {
            Some(p) => Some(copy_bytes(p.as_slice())),
            None => None,
        }
    }

    /// The requested platform identity.
    pub fn platform(&self) -> (r: Option<PlatformIdentity>)
        ensures
            r == self@.platform,
    {
        self.platform
    }
}

} // verus!
