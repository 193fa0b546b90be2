use vstd::prelude::*;
use crate::errors::WmError;
use crate::geometry::{Geometry, wire_geometry};

verus! {

/// One entry per client window the manager has decided to manage.
#[derive(Clone, Copy, Debug, PartialEq, Eq, Structural)]
pub struct ManagedWindow {
    /// Identifier of the application's original window.  Immutable once the
    /// entry exists.
    pub client_id: u32,
    /// Identifier of the manager-created container window that is the
    /// client's new parent.  Created with the entry, destroyed with it.
    pub frame_id: u32,
    /// Frame origin and client interior size.
    pub geometry: Geometry,
    /// Whether the client advertised cooperative-close support; set once at
    /// registration.
    pub supports_delete: bool,
    /// Whether the client window is currently displayed.
    pub mapped: bool,
}

/// Some entry of `s` has this client identifier.
pub open spec fn contains_client(s: Seq<ManagedWindow>, client_id: u32) -> bool {
    exists|i: int| 0 <= i < s.len() && s[i].client_id == client_id
}

/// Some entry of `s` has this frame identifier.
pub open spec fn contains_frame(s: Seq<ManagedWindow>, frame_id: u32) -> bool {
    exists|i: int| 0 <= i < s.len() && s[i].frame_id == frame_id
}

/// The registry's invariant: no two entries share a client identifier, no
/// two entries share a frame identifier, and every stored geometry is well
/// formed.
pub open spec fn registry_wf(s: Seq<ManagedWindow>) -> bool {
    &&& forall|i: int, j: int|
            0 <= i < j < s.len() ==> s[i].client_id != s[j].client_id
    &&& forall|i: int, j: int|
            0 <= i < j < s.len() ==> s[i].frame_id != s[j].frame_id
    &&& forall|i: int| 0 <= i < s.len() ==> (#[trigger] s[i]).geometry.wf()
}

/// The source-of-truth table mapping client windows to their manager-tracked
/// state.
pub struct WindowRegistry {
    entries: Vec<ManagedWindow>,
}

impl View for WindowRegistry {
    type V = Seq<ManagedWindow>;

    closed spec fn view(&self) -> Seq<ManagedWindow> {
        self.entries@
    }
}

impl WindowRegistry {
    /// The registry's invariant, over its view.
    pub open spec fn wf(&self) -> bool {
        registry_wf(self@)
    }

    /// An empty registry.
    pub fn new() -> (r: WindowRegistry)
        ensures
            r@ == Seq::<ManagedWindow>::empty(),
            r.wf(),
    {
        WindowRegistry { entries: Vec::new() }
    }

    /// How many windows are currently managed.
    pub fn len(&self) -> (n: usize)
        ensures
            n == self@.len(),
    {
        self.entries.len()
    }

    /// Records a new entry for `client_id`, framed by the fresh window
    /// `frame_id`, with the given initial wire geometry.
    ///
    /// Fails with `DuplicateWindow`, leaving the registry unchanged, exactly
    /// when `client_id` is already registered or `frame_id` already names a
    /// live frame; otherwise appends the one new entry, initially unmapped.
    pub fn register(
        &mut self,
        client_id: u32,
        frame_id: u32,
        x: i16,
        y: i16,
        width: u16,
        height: u16,
        supports_delete: bool,
    ) -> (r: Result<(), WmError>)
        requires
            old(self).wf(),
        ensures
            final(self).wf(),
            contains_client(old(self)@, client_id) || contains_frame(old(self)@, frame_id)
                ==> r == Err::<(), WmError>(WmError::DuplicateWindow)
                    && final(self)@ == old(self)@,
            !(contains_client(old(self)@, client_id) || contains_frame(old(self)@, frame_id))
                ==> r == Ok::<(), WmError>(())
                    && final(self)@ == old(self)@.push(ManagedWindow {
                        client_id,
                        frame_id,
                        geometry: wire_geometry(x, y, width, height),
                        supports_delete,
                        mapped: false,
                    }),
    {
        let n = self.entries.len();
        let mut i: usize = 0;
        while i < n
            invariant
                old(self)@ == self@,
                self.wf(),
                n == self.entries.len(),
                i <= n,
                forall|k: int|
                    0 <= k < i ==> (#[trigger] self.entries@[k]).client_id != client_id
                        && self.entries@[k].frame_id != frame_id,
            decreases n - i,
        {
            if self.entries[i].client_id == client_id || self.entries[i].frame_id == frame_id {
                return Err(WmError::DuplicateWindow);
            }
            i += 1;
        }
        let entry = ManagedWindow {
            client_id,
            frame_id,
            geometry: Geometry::from_wire(x, y, width, height),
            supports_delete,
            mapped: false,
        };
        self.entries.push(entry);
        Ok(())
    }

    /// Removes the entry for `client_id` and reports the frame that must now
    /// be destroyed.
    ///
    /// Unregistering an unknown client is a no-op: it returns
    /// `UnknownWindow` and alters no entry.
    pub fn unregister(&mut self, client_id: u32) -> (r: Result<u32, WmError>)
        requires
            old(self).wf(),
        ensures
            final(self).wf(),
            contains_client(old(self)@, client_id)
                ==> exists|i: int|
                        0 <= i < old(self)@.len()
                        && (#[trigger] old(self)@[i]).client_id == client_id
                        && final(self)@ == old(self)@.remove(i)
                        && r == Ok::<u32, WmError>(old(self)@[i].frame_id),
            !contains_client(old(self)@, client_id)
                ==> r == Err::<u32, WmError>(WmError::UnknownWindow)
                    && final(self)@ == old(self)@,
    {
        let n = self.entries.len();
        let mut i: usize = 0;
        while i < n
            invariant
                old(self)@ == self@,
                self.wf(),
                n == self.entries.len(),
                i <= n,
                forall|k: int|
                    0 <= k < i ==> (#[trigger] self.entries@[k]).client_id != client_id,
            decreases n - i,
        {
            if self.entries[i].client_id == client_id {
                let frame_id = self.entries[i].frame_id;
                self.entries.remove(i);
                proof {
                    assert(registry_wf(old(self)@));
                    assert forall|a: int, b: int|
                        0 <= a < b < self@.len() implies self@[a].client_id != self@[b].client_id
                            && self@[a].frame_id != self@[b].frame_id by {
                        if a < i {
                            if b < i {
                                assert(old(self)@[a] == self@[a] && old(self)@[b] == self@[b]);
                            } else {
                                assert(old(self)@[a] == self@[a] && old(self)@[b + 1] == self@[b]);
                            }
                        } else {
                            assert(old(self)@[a + 1] == self@[a] && old(self)@[b + 1] == self@[b]);
                        }
                    }
                }
                return Ok(frame_id);
            }
            i += 1;
        }
        Err(WmError::UnknownWindow)
    }

    /// Looks up the entry for a client window.
    pub fn lookup(&self, client_id: u32) -> (r: Option<ManagedWindow>)
        requires
            self.wf(),
        ensures
            r matches Some(w)
                ==> w.client_id == client_id && self@.contains(w) && w.geometry.wf(),
            r is None <==> !contains_client(self@, client_id),
    {
        let n = self.entries.len();
        let mut i: usize = 0;
        while i < n
            invariant
                self.wf(),
                n == self.entries.len(),
                i <= n,
                forall|k: int|
                    0 <= k < i ==> (#[trigger] self.entries@[k]).client_id != client_id,
            decreases n - i,
        {
            if self.entries[i].client_id == client_id {
                return Some(self.entries[i]);
            }
            i += 1;
        }
        None
    }

    /// Looks up the entry whose frame is `frame_id`; some notifications
    /// reference the frame rather than the client.
    pub fn lookup_by_frame(&self, frame_id: u32) -> (r: Option<ManagedWindow>)
        requires
            self.wf(),
        ensures
            r matches Some(w)
                ==> w.frame_id == frame_id && self@.contains(w) && w.geometry.wf(),
            r is None <==> !contains_frame(self@, frame_id),
    {
        let n = self.entries.len();
        let mut i: usize = 0;
        while i < n
            invariant
                self.wf(),
                n == self.entries.len(),
                i <= n,
                forall|k: int|
                    0 <= k < i ==> (#[trigger] self.entries@[k]).frame_id != frame_id,
            decreases n - i,
        {
            if self.entries[i].frame_id == frame_id {
                return Some(self.entries[i]);
            }
            i += 1;
        }
        None
    }

    /// Sets the `mapped` flag of `client_id`'s entry; reports whether the
    /// entry exists.  No other entry and no other field changes.
    pub fn set_mapped(&mut self, client_id: u32, mapped: bool) -> (found: bool)
        requires
            old(self).wf(),
        ensures
            final(self).wf(),
            found == contains_client(old(self)@, client_id),
            found ==> exists|i: int|
                    0 <= i < old(self)@.len()
                    && (#[trigger] old(self)@[i]).client_id == client_id
                    && final(self)@ == old(self)@.update(i, ManagedWindow {
                        mapped,
                        ..old(self)@[i]
                    }),
            !found ==> final(self)@ == old(self)@,
    {
        let n = self.entries.len();
        let mut i: usize = 0;
        while i < n
            invariant
                old(self)@ == self@,
                self.wf(),
                n == self.entries.len(),
                i <= n,
                forall|k: int|
                    0 <= k < i ==> (#[trigger] self.entries@[k]).client_id != client_id,
            decreases n - i,
        {
            if self.entries[i].client_id == client_id {
                let mut entry = self.entries[i];
                entry.mapped = mapped;
                self.entries.set(i, entry);
                proof {
                    assert(old(self)@[i as int].geometry.wf());
                    lemma_update_same_ids(old(self)@, self@, i as int);
                }
                return true;
            }
            i += 1;
        }
        false
    }

    /// Replaces the stored geometry of `client_id`'s entry; reports whether
    /// the entry exists.  No other entry and no other field changes.
    pub fn set_geometry(&mut self, client_id: u32, geometry: Geometry) -> (found: bool)
        requires
            old(self).wf(),
            geometry.wf(),
        ensures
            final(self).wf(),
            found == contains_client(old(self)@, client_id),
            found ==> exists|i: int|
                    0 <= i < old(self)@.len()
                    && (#[trigger] old(self)@[i]).client_id == client_id
                    && final(self)@ == old(self)@.update(i, ManagedWindow {
                        geometry,
                        ..old(self)@[i]
                    }),
            !found ==> final(self)@ == old(self)@,
    {
        let n = self.entries.len();
        let mut i: usize = 0;
        while i < n
            invariant
                old(self)@ == self@,
                self.wf(),
                geometry.wf(),
                n == self.entries.len(),
                i <= n,
                forall|k: int|
                    0 <= k < i ==> (#[trigger] self.entries@[k]).client_id != client_id,
            decreases n - i,
        {
            if self.entries[i].client_id == client_id {
                let mut entry = self.entries[i];
                entry.geometry = geometry;
                self.entries.set(i, entry);
                proof {
                    lemma_update_same_ids(old(self)@, self@, i as int);
                }
                return true;
            }
            i += 1;
        }
        false
    }
}

/// In a well-formed registry the entry holding a given client identifier is
/// unique: an entry `w` with `client_id` equal to that of position `i` is
/// the entry at position `i`.
pub proof fn lemma_client_entry_unique(s: Seq<ManagedWindow>, w: ManagedWindow, i: int)
    requires
        registry_wf(s),
        s.contains(w),
        0 <= i < s.len(),
        s[i].client_id == w.client_id,
    ensures
        s[i] == w,
{
    let j = choose|j: int| 0 <= j < s.len() && s[j] == w;
    if i < j {
        assert(s[i].client_id != s[j].client_id);
    }
    if j < i {
        assert(s[j].client_id != s[i].client_id);
    }
}

/// The frame-identifier counterpart of `lemma_client_entry_unique`.
pub proof fn lemma_frame_entry_unique(s: Seq<ManagedWindow>, w: ManagedWindow, i: int)
    requires
        registry_wf(s),
        s.contains(w),
        0 <= i < s.len(),
        s[i].frame_id == w.frame_id,
    ensures
        s[i] == w,
{
    let j = choose|j: int| 0 <= j < s.len() && s[j] == w;
    if i < j {
        assert(s[i].frame_id != s[j].frame_id);
    }
    if j < i {
        assert(s[j].frame_id != s[i].frame_id);
    }
}

/// Removing one entry keeps every other client registered.
pub proof fn lemma_remove_keeps_other_client(s: Seq<ManagedWindow>, i: int, t: u32)
    requires
        0 <= i < s.len(),
        contains_client(s, t),
        s[i].client_id != t,
    ensures
        contains_client(s.remove(i), t),
{
    let j = choose|j: int| 0 <= j < s.len() && s[j].client_id == t;
    if j < i {
        assert(s.remove(i)[j] == s[j]);
    } else {
        assert(s.remove(i)[j - 1] == s[j]);
    }
}

/// Replacing an entry with one of the same client identifier keeps every
/// registered client registered.
pub proof fn lemma_update_keeps_clients(s: Seq<ManagedWindow>, i: int, e: ManagedWindow, t: u32)
    requires
        0 <= i < s.len(),
        e.client_id == s[i].client_id,
        contains_client(s, t),
    ensures
        contains_client(s.update(i, e), t),
{
    let j = choose|j: int| 0 <= j < s.len() && s[j].client_id == t;
    if j == i {
        assert(s.update(i, e)[i].client_id == t);
    } else {
        assert(s.update(i, e)[j] == s[j]);
    }
}

/// Appending an entry keeps every registered client registered.
pub proof fn lemma_push_keeps_clients(s: Seq<ManagedWindow>, e: ManagedWindow, t: u32)
    requires
        contains_client(s, t),
    ensures
        contains_client(s.push(e), t),
{
    let j = choose|j: int| 0 <= j < s.len() && s[j].client_id == t;
    assert(s.push(e)[j] == s[j]);
}

/// Updating one entry without touching its identifiers preserves the
/// registry invariant, provided the new geometry is well formed.
proof fn lemma_update_same_ids(pre: Seq<ManagedWindow>, post: Seq<ManagedWindow>, i: int)
    requires
        registry_wf(pre),
        0 <= i < pre.len(),
        post.len() == pre.len(),
        post[i].client_id == pre[i].client_id,
        post[i].frame_id == pre[i].frame_id,
        post[i].geometry.wf(),
        forall|k: int| 0 <= k < pre.len() && k != i ==> post[k] == pre[k],
    ensures
        registry_wf(post),
{
    assert forall|a: int, b: int|
        0 <= a < b < post.len() implies post[a].client_id != post[b].client_id
            && post[a].frame_id != post[b].frame_id by {
        assert(pre[a].client_id != pre[b].client_id && pre[a].frame_id != pre[b].frame_id);
    }
}

} // verus!
