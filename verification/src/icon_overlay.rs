//! The icon-overlay provider: membership decisions, icon-info resolution,
//! and the registrar's configuration entries.
//!
//! The host shell constructs one provider per activation through the
//! factory, then repeatedly asks it whether a path is a "member" (should
//! carry the synced badge).  The authoritative answer comes from the status
//! daemon over RPC; the unverified shell performs the call and hands the
//! outcome back as a plain value, and this module makes every decision:
//! whether a call is issued at all, how the daemon's tag maps to membership,
//! what the icon buffer must hold, and which configuration entries
//! registration writes.

use vstd::prelude::*;

use crate::registry::{format_guid, guid_chars, RegistryStore};

verus! {

/// The extension identifier under which the host knows this provider.
pub const OVERLAY_CLSID: u128 = 0x172d5af2_6916_48d3_a611_368273076434;

/// Icon addressing flag: the overlay icon is given by a file path.
pub const ISIOI_ICONFILE: u32 = 1;

/// The daemon tag that alone means "path is in sync".
pub open spec fn in_sync_tag() -> Seq<char> {
    "in_sync"@
}

/// The two-valued outcome of a membership test.
#[derive(Debug, Clone, Copy, PartialEq, Eq)]
pub enum MembershipResult {
    Member,
    NotMember,
}

/// What one query round against the daemon yielded: the status tag of a
/// completed reply, or a failure anywhere in the RPC layer (transport error,
/// non-OK status, malformed response).
#[derive(Debug)]
pub enum RpcOutcome {
    Reply(String),
    Failure,
}

/// The membership answer for a provider in connection state `connected`
/// whose query round yielded `outcome` (`None`: no round was run).
pub open spec fn membership_of(connected: bool, outcome: Option<RpcOutcome>) -> MembershipResult {
    if connected {
        match outcome {
            Option::Some(RpcOutcome::Reply(tag)) => if tag@ == in_sync_tag() {
                MembershipResult::Member
            } else {
                MembershipResult::NotMember
            },
            _ => MembershipResult::NotMember,
        }
    } else {
        MembershipResult::NotMember
    }
}

/// True for the code units that separate path components.
pub open spec fn is_path_sep(u: u16) -> bool {
    u == 92 || u == 47
}

/// Length of the directory prefix of `p`, terminating separator included;
/// `0` when `p` holds no separator.
pub open spec fn dir_prefix_len(p: Seq<u16>) -> int
    decreases p.len(),
{
    if p.len() == 0 {
        0
    } else if is_path_sep(p.last()) {
        p.len() as int
    } else {
        dir_prefix_len(p.drop_last())
    }
}

/// The fixed icon file name, `icon.ico`, as wide code units.
pub open spec fn icon_file_units() -> Seq<u16> {
    seq![105u16, 99u16, 111u16, 110u16, 46u16, 105u16, 99u16, 111u16]
}

/// The icon file path: the module's directory with `icon.ico` substituted
/// for the module's own file name.
pub open spec fn icon_path_units(module: Seq<u16>) -> Seq<u16> {
    module.take(dir_prefix_len(module)) + icon_file_units()
}

/// What a successful icon-info resolution writes: the icon path followed by
/// a single nul terminator.
pub open spec fn icon_buffer_units(module: Seq<u16>) -> Seq<u16> {
    icon_path_units(module) + seq![0u16]
}

/// What icon-info resolution hands the host on success.
pub struct OverlayInfo {
    /// The nul-terminated icon file path, ready for the host's wide buffer.
    pub icon_file: Vec<u16>,
    /// Index of the icon within the file.
    pub icon_index: i32,
    /// Icon addressing flags.
    pub flags: u32,
}

/// The one failure icon-info resolution surfaces to the host.
#[derive(Debug, Clone, Copy, PartialEq, Eq)]
pub enum OverlayError {
    /// The caller's buffer cannot hold the icon path and its terminator.
    InsufficientBuffer,
}

/// One overlay provider instance.  Its connection state is fixed at
/// construction: a provider built without a working daemon connection stays
/// disconnected for its whole lifetime and answers every membership query
/// with `NotMember`.
pub struct WatchedOverlay {
    connected: bool,
}

impl WatchedOverlay {
    /// Whether this instance holds a live daemon connection.
    pub closed spec fn is_connected(&self) -> bool {
        self.connected
    }

    /// Builds an instance in the given connection state.
    pub fn new(connected: bool) -> (r: WatchedOverlay)
        ensures
            r.is_connected() == connected,
    {
        WatchedOverlay { connected }
    }

    /// Whether a membership query on this instance issues an RPC round at
    /// all: only a connected instance ever queries the daemon.
    pub fn needs_rpc(&self) -> (b: bool)
        ensures
            b == self.is_connected(),
    {
        self.connected
    }

    /// The membership test for `path`.  The host's attribute bits are
    /// ignored, and the path itself only rides along to the daemon:
    /// `outcome` is what the RPC round for it yielded (`None` when none was
    /// run, in particular on a disconnected instance).  Exactly a reply
    /// bearing the in-sync tag makes the path a member; a missing
    /// connection, a failed call and every other tag all map to
    /// `NotMember`, and no failure ever reaches the host.
    pub fn is_member_of(
        &self,
        _path: &str,
        _attrib: u32,
        outcome: &Option<RpcOutcome>,
    ) -> (m: MembershipResult)
        ensures
            m == membership_of(self.is_connected(), *outcome),
            !self.is_connected() ==> m == MembershipResult::NotMember,
            (m == MembershipResult::Member) <==> (self.is_connected() && (*outcome matches Option::Some(
                RpcOutcome::Reply(tag),
            ) && tag@ == in_sync_tag())),
    {
        if !self.connected {
            return MembershipResult::NotMember;
        }
        match outcome {
            Option::Some(RpcOutcome::Reply(tag)) => {
                if *tag == String::from_str("in_sync") {
                    MembershipResult::Member
                } else {
                    MembershipResult::NotMember
                }
            },
            _ => MembershipResult::NotMember,
        }
    }

    /// Icon-info resolution.  `module` is the wide path of the
    /// extension's own installed binary; `cch_max` the capacity of the
    /// host's buffer in code units.  Fails exactly when the capacity cannot
    /// hold the icon path plus its terminator, and writes nothing then; on
    /// success the descriptor holds exactly the nul-terminated icon path,
    /// icon index `0` and the icon-from-file flag.
    pub fn get_overlay_info(&self, module: &Vec<u16>, cch_max: i32) -> (r: Result<
        OverlayInfo,
        OverlayError,
    >)
        ensures
            match r {
                Result::Ok(info) => cch_max >= icon_buffer_units(module@).len()
                    && info.icon_file@ == icon_buffer_units(module@) && info.icon_index == 0
                    && info.flags == ISIOI_ICONFILE,
                Result::Err(e) => e == OverlayError::InsufficientBuffer && cch_max
                    < icon_buffer_units(module@).len(),
            },
    {
        let icon = icon_wide_path(module);
        if cch_max < 0 {
            return Result::Err(OverlayError::InsufficientBuffer);
        }
        if (cch_max as usize) <= icon.len() {
            return Result::Err(OverlayError::InsufficientBuffer);
        }
        let mut buffer = icon;
        buffer.push(0);
        proof {
            assert(buffer@ =~= icon_buffer_units(module@));
        }
        Result::Ok(OverlayInfo { icon_file: buffer, icon_index: 0, flags: ISIOI_ICONFILE })
    }

    /// Priority query: the fixed low-priority constant, whatever the
    /// instance's state.
    pub fn get_priority(&self) -> (p: i32)
        ensures
            p == 0,
    {
        0
    }
}

fn is_sep_at(module: &Vec<u16>, j: usize) -> (b: bool)
    requires
        j < module.len(),
    ensures
        b == is_path_sep(module@[j as int]),
{
    let u = module[j];
    u == 92 || u == 47
}

/// Computes the icon file path (without terminator) from the module path.
fn icon_wide_path(module: &Vec<u16>) -> (r: Vec<u16>)
    ensures
        r@ == icon_path_units(module@),
{
    let mut i: usize = module.len();
    proof {
        assert(module@.take(i as int) =~= module@);
    }
    while i > 0 && !is_sep_at(module, i - 1)
        invariant
            i <= module.len(),
            dir_prefix_len(module@) == dir_prefix_len(module@.take(i as int)),
        decreases i,
    {
        proof {
            assert(module@.take(i as int).drop_last() =~= module@.take(i - 1));
            assert(module@.take(i as int).last() == module@[i - 1]);
        }
        i = i - 1;
    }
    proof {
        if i > 0 {
            assert(module@.take(i as int).last() == module@[i - 1]);
            assert(dir_prefix_len(module@.take(i as int)) == i);
        }
        assert(dir_prefix_len(module@) == i);
    }
    let mut r: Vec<u16> = Vec::new();
    let mut j: usize = 0;
    while j < i
        invariant
            j <= i <= module.len(),
            r@ == module@.take(j as int),
        decreases i - j,
    {
        r.push(module[j]);
        proof {
            assert(module@.take(j as int).push(module@[j as int]) =~= module@.take(j + 1));
        }
        j = j + 1;
    }
    r.push(105);
    r.push(99);
    r.push(111);
    r.push(110);
    r.push(46);
    r.push(105);
    r.push(99);
    r.push(111);
    proof {
        assert(r@ =~= icon_path_units(module@));
    }
    r
}

/// The class-factory object the host's activation mechanism drives.
/// Activation never fails: when the daemon cannot be reached, it yields a
/// provider that is permanently disconnected rather than failing the host's
/// enumeration.
pub struct WatchedOverlayFactory;

impl WatchedOverlayFactory {
    /// CreateInstance: builds the per-activation provider.  `connected`
    /// reports whether the connection the shell opened at the well-known
    /// daemon address (one attempt, no retry) succeeded; either way an
    /// instance is returned, fixed in that state for its lifetime.
    pub fn create_instance(&self, connected: bool) -> (r: WatchedOverlay)
        ensures
            r.is_connected() == connected,
    {
        WatchedOverlay::new(connected)
    }
}

/// Key path of the class association entry: the class namespace followed by
/// the identifier's canonical text.
pub open spec fn class_key_chars() -> Seq<char> {
    "Software\\Classes\\CLSID\\"@ + guid_chars(OVERLAY_CLSID)
}

/// Key path of the provider's slot entry under the host's overlay-provider
/// enumeration namespace.
pub open spec fn slot_key_chars() -> Seq<char> {
    "Software\\Microsoft\\Windows\\CurrentVersion\\Explorer\\ShellIconOverlayIdentifiers\\ LastWatched"@
}

/// The configuration store after registration: the class association maps
/// to the module path, and the slot entry to the identifier's text.
pub open spec fn register_effect(m: Map<Seq<char>, Seq<char>>, install_path: Seq<char>) -> Map<
    Seq<char>,
    Seq<char>,
> {
    m.insert(class_key_chars(), install_path).insert(slot_key_chars(), guid_chars(OVERLAY_CLSID))
}

/// The configuration store after unregistration: both entries removed.
pub open spec fn unregister_effect(m: Map<Seq<char>, Seq<char>>) -> Map<Seq<char>, Seq<char>> {
    m.remove(class_key_chars()).remove(slot_key_chars())
}

/// The class association key as a string.
pub fn class_key() -> (r: String)
    ensures
        r@ == class_key_chars(),
{
    let mut s = String::from_str("Software\\Classes\\CLSID\\");
    let g = format_guid(OVERLAY_CLSID);
    s.append(g.as_str());
    s
}

/// The slot entry key as a string.
pub fn slot_key() -> (r: String)
    ensures
        r@ == slot_key_chars(),
{
    String::from_str(
        "Software\\Microsoft\\Windows\\CurrentVersion\\Explorer\\ShellIconOverlayIdentifiers\\ LastWatched",
    )
}

/// Registers the provider: writes the class association for the installed
/// module and the overlay slot entry.  After the write the shell broadcasts
/// a host-wide "associations changed" notification; unregistration, by
/// design, does not.
pub fn register(store: &mut RegistryStore, install_path: &str)
    ensures
        final(store)@ == register_effect(old(store)@, install_path@),
{
    store.set_value(class_key(), String::from_str(install_path));
    store.set_value(slot_key(), format_guid(OVERLAY_CLSID));
}

/// Unregisters the provider: removes the class association and the slot
/// entry.
pub fn unregister(store: &mut RegistryStore)
    ensures
        final(store)@ == unregister_effect(old(store)@),
{
    let ck = class_key();
    store.delete_value(&ck);
    let sk = slot_key();
    store.delete_value(&sk);
}

/// Registering and then immediately unregistering returns the host-global
/// configuration to its prior state, provided neither of the provider's two
/// entries was present before; only the change-notification broadcast,
/// which lives outside the store, distinguishes the two runs.
pub proof fn lemma_register_unregister_round_trip(
    m: Map<Seq<char>, Seq<char>>,
    install_path: Seq<char>,
)
    requires
        !m.contains_key(class_key_chars()),
        !m.contains_key(slot_key_chars()),
    ensures
        unregister_effect(register_effect(m, install_path)) == m,
{
    assert(unregister_effect(register_effect(m, install_path)) =~= m);
}

} // verus!
