//! Raw keyboard input: which packets describe a key event, and which
//! keyboard a packet came from.

use std::collections::HashMap;

use vstd::prelude::*;

use crate::input::devices::RIM_TYPEKEYBOARD;
use crate::model::keys::{name_for_vk, spec_name_for_vk};
use crate::model::KeyboardDevice;

verus! {

/// `RI_KEY_BREAK`: the key went up.
pub const RI_KEY_BREAK: u16 = 1;

/// Virtual key code meaning "no virtual key" (e.g. some modifier releases).
pub const NO_VIRTUAL_KEY: u16 = 0xFF;

/// What the capture side does with one raw input packet.
pub enum RawKeyAction {
    /// Not a key event of a keyboard.
    Ignore,
    /// The packet's device is not known yet (its arrival raced the packet):
    /// refresh the device list instead.
    Refresh,
    /// Key `key` went down (`down`) or up on keyboard `device`.
    Key { device: String, key: String, down: bool },
}

/// A packet of `written` bytes can be read as a keyboard packet: the read
/// succeeded, and it holds at least `needed` bytes (header and keyboard
/// data) without exceeding the `buf_len` bytes of the buffer.
pub open spec fn spec_packet_fits(written: u32, buf_len: usize, needed: usize) -> bool {
    &&& written != u32::MAX
    &&& written != 0
    &&& needed <= written
    &&& written <= buf_len
}

pub fn packet_fits(written: u32, buf_len: usize, needed: usize) -> (r: bool)
    ensures
        r == spec_packet_fits(written, buf_len, needed),
{
    if written == u32::MAX || written == 0 {
        return false;
    }
    let w = written as usize;
    !(w < needed || w > buf_len)
}

/// Device id of each raw input handle of an enumeration (handle and
/// device pairs); a later entry for the same handle wins.
pub open spec fn handle_ids(entries: Seq<(usize, KeyboardDevice)>) -> Map<usize, Seq<char>>
    decreases entries.len(),
{
    if entries.len() == 0 {
        Map::empty()
    } else {
        handle_ids(entries.drop_last()).insert(entries.last().0, entries.last().1.id@)
    }
}

/// The handle cache seen as device ids.
pub open spec fn cache_ids(cache: Map<usize, String>) -> Map<usize, Seq<char>> {
    Map::new(|h: usize| cache.contains_key(h), |h: usize| cache[h]@)
}

/// The key event a keyboard packet stands for: header type, virtual key
/// and flags of the packet, the raw handle of its device and the capture
/// side's handle cache.
pub fn key_action(header_type: u32, vkey: u16, flags: u16, handle: usize, cache: &HashMap<usize, String>) -> (r: RawKeyAction)
    ensures
        header_type != RIM_TYPEKEYBOARD || vkey == NO_VIRTUAL_KEY ==> r is Ignore,
        header_type == RIM_TYPEKEYBOARD && vkey != NO_VIRTUAL_KEY ==> (if cache@.contains_key(handle) {
            &&& r is Key
            &&& r->device@ == cache@[handle]@
            &&& r->key@ == spec_name_for_vk(vkey)
            &&& r->down == (flags & RI_KEY_BREAK == 0)
        } else {
            r is Refresh
        }),
{
    broadcast use vstd::std_specs::hash::group_hash_axioms;
    if header_type != RIM_TYPEKEYBOARD || vkey == NO_VIRTUAL_KEY {
        return RawKeyAction::Ignore;
    }
    let down = flags & RI_KEY_BREAK == 0;
    let key = name_for_vk(vkey);
    match cache.get(&handle) {
        None => RawKeyAction::Refresh,
        Some(device) => RawKeyAction::Key { device: device.clone(), key, down },
    }
}

/// The handle cache and device list of a fresh enumeration (handle and
/// device pairs): each handle maps to its device's id.
pub fn device_cache(entries: &[(usize, KeyboardDevice)]) -> (r: (HashMap<usize, String>, Vec<KeyboardDevice>))
    ensures
        cache_ids(r.0@) == handle_ids(entries@),
        r.1@.len() == entries@.len(),
        forall|i: int| 0 <= i < entries@.len() ==> (#[trigger] r.1@[i])@ == entries@[i].1@,
{
    broadcast use vstd::std_specs::hash::group_hash_axioms;
    let mut cache: HashMap<usize, String> = HashMap::new();
    let mut list: Vec<KeyboardDevice> = Vec::new();
    let mut i: usize = 0;
    proof {
        assert(cache_ids(cache@) =~= handle_ids(entries@.take(0)));
    }
    while i < entries.len()
        invariant
            i <= entries@.len(),
            list@.len() == i,
            cache_ids(cache@) == handle_ids(entries@.take(i as int)),
            forall|j: int| 0 <= j < i ==> (#[trigger] list@[j])@ == entries@[j].1@,
        decreases entries@.len() - i,
    {
        let ghost before = cache@;
        let id = entries[i].1.id.clone();
        cache.insert(entries[i].0, id);
        list.push(entries[i].1.duplicate());
        proof {
            assert(entries@.take(i + 1).drop_last() =~= entries@.take(i as int));
            assert(cache_ids(cache@) =~= cache_ids(before).insert(entries@[i as int].0, entries@[i as int].1.id@));
        }
        i = i + 1;
    }
    proof {
        assert(entries@.take(entries@.len() as int) =~= entries@);
    }
    (cache, list)
}

} // verus!
