//! Out-of-band changes to a virtual device's backing directories: a file or
//! folder created or removed there, bypassing MTP, becomes an object of the
//! device (or stops being one) and queues the events a real device sends.
//!
//! A path is handled as its components, relative to the storage's backing
//! directory.

use vstd::prelude::*;
use crate::ptp::codes::EventCode;
use crate::ptp::container::EventContainer;
use crate::ptp::{ObjectHandle, StorageId};

verus! {

/// A filesystem change waiting to be processed.
pub struct FsEvent {
    /// Path relative to the storage's backing directory, as its components.
    pub rel_path: Vec<String>,
    /// Which storage the change belongs to.
    pub storage_id: StorageId,
    /// `true` for a creation, `false` for a removal.
    pub is_create: bool,
}

/// An object of a virtual device.
pub struct VirtualObject {
    /// Path relative to the storage's backing directory, as its components.
    pub rel_path: Vec<String>,
    /// Storage holding the object.
    pub storage_id: StorageId,
    /// Parent folder (0 for the storage root).
    pub parent: ObjectHandle,
}

/// What a `VirtualObject` denotes.
pub struct VirtualObjectView {
    /// Path components, as their characters.
    pub rel_path: Seq<Seq<char>>,
    /// Storage holding the object.
    pub storage_id: StorageId,
    /// Parent folder.
    pub parent: ObjectHandle,
}

/// The characters of each component of a path.
pub open spec fn path_view(p: Seq<String>) -> Seq<Seq<char>> {
    p.map_values(|c: String| c@)
}

impl View for VirtualObject {
    type V = VirtualObjectView;

    open spec fn view(&self) -> VirtualObjectView {
        VirtualObjectView {
            rel_path: path_view(self.rel_path@),
            storage_id: self.storage_id,
            parent: self.parent,
        }
    }
}

/// The objects of a virtual device, by handle, and the handle the next new
/// object gets.
pub struct VirtualObjects {
    /// Handle and object, for each object.
    pub objects: Vec<(u32, VirtualObject)>,
    /// Handle of the next object created.
    pub next_handle: u32,
}

/// What `VirtualObjects` denotes.
pub struct VirtualObjectsView {
    /// Handle and object, for each object.
    pub objects: Seq<(u32, VirtualObjectView)>,
    /// Handle of the next object created.
    pub next_handle: u32,
}

/// Handles with the views of their objects.
pub open spec fn objects_view(objs: Seq<(u32, VirtualObject)>) -> Seq<(u32, VirtualObjectView)> {
    objs.map_values(|e: (u32, VirtualObject)| (e.0, e.1@))
}

impl View for VirtualObjects {
    type V = VirtualObjectsView;

    open spec fn view(&self) -> VirtualObjectsView {
        VirtualObjectsView {
            objects: objects_view(self.objects@),
            next_handle: self.next_handle,
        }
    }
}

/// Well-formedness: handles are below the next handle and distinct, and no
/// two objects of one storage have the same path.
pub open spec fn objects_wf(s: VirtualObjectsView) -> bool {
    &&& forall|i: int| 0 <= i < s.objects.len() ==> (#[trigger] s.objects[i]).0 < s.next_handle
    &&& forall|i: int, j: int|
        0 <= i < j < s.objects.len() ==> (#[trigger] s.objects[i]).0 != (#[trigger] s.objects[j]).0
    &&& forall|i: int, j: int|
        0 <= i < j < s.objects.len() ==> !((#[trigger] s.objects[i]).1.storage_id == (
        #[trigger] s.objects[j]).1.storage_id && s.objects[i].1.rel_path == s.objects[j].1.rel_path)
}

impl VirtualObjects {
    /// Whether the objects are well formed.
    pub open spec fn wf(&self) -> bool {
        objects_wf(self@)
    }
}

/// The index of the first object from `i` on with this storage and path.
pub open spec fn object_index_from(
    objs: Seq<(u32, VirtualObjectView)>,
    i: int,
    storage_id: StorageId,
    path: Seq<Seq<char>>,
) -> Option<int>
    decreases objs.len() - i,
{
    if i < 0 || i >= objs.len() {
        None
    } else if objs[i].1.storage_id == storage_id && objs[i].1.rel_path == path {
        Some(i)
    } else {
        object_index_from(objs, i + 1, storage_id, path)
    }
}

/// The index of the object with this storage and path, if there is one.
pub open spec fn object_index(
    objs: Seq<(u32, VirtualObjectView)>,
    storage_id: StorageId,
    path: Seq<Seq<char>>,
) -> Option<int> {
    object_index_from(objs, 0, storage_id, path)
}

/// The parent of a new object at `path`: the storage root for a path of at
/// most one component, else the object at the path without its last
/// component, or the root when there is none.
pub open spec fn new_parent(s: VirtualObjectsView, storage_id: StorageId, path: Seq<Seq<char>>) -> ObjectHandle {
    if path.len() <= 1 {
        ObjectHandle(0)
    } else {
        match object_index(s.objects, storage_id, path.drop_last()) {
            Some(i) => ObjectHandle(s.objects[i].0),
            None => ObjectHandle(0),
        }
    }
}

/// A filesystem change applied to the objects, with the events it queues
/// (code and parameter, in order):
/// - a creation of a path that is already an object changes nothing (the MTP
///   operation that made it already recorded it); otherwise a new object gets
///   the next handle, under its parent folder, and ObjectAdded(handle) then
///   StorageInfoChanged(storage) are queued;
/// - a removal of an object's path removes it and queues ObjectRemoved(handle)
///   then StorageInfoChanged(storage); a removal of an unknown path changes
///   nothing.
pub open spec fn fs_event_step(
    s: VirtualObjectsView,
    rel_path: Seq<Seq<char>>,
    storage_id: StorageId,
    is_create: bool,
) -> (VirtualObjectsView, Seq<(EventCode, u32)>) {
    let found = object_index(s.objects, storage_id, rel_path);
    if is_create {
        if found is Some {
            (s, Seq::empty())
        } else {
            let h = s.next_handle;
            let obj = VirtualObjectView { rel_path, storage_id, parent: new_parent(s, storage_id, rel_path) };
            (
                VirtualObjectsView { objects: s.objects.push((h, obj)), next_handle: (h + 1) as u32 },
                seq![(EventCode::ObjectAdded, h), (EventCode::StorageInfoChanged, storage_id.0)],
            )
        }
    } else {
        match found {
            Some(i) => (
                VirtualObjectsView { objects: s.objects.remove(i), ..s },
                seq![(EventCode::ObjectRemoved, s.objects[i].0), (EventCode::StorageInfoChanged, storage_id.0)],
            ),
            None => (s, Seq::empty()),
        }
    }
}

/// Whether event containers are the events of the given codes and single
/// parameters, in order (transaction id 0, unused parameters 0).
pub open spec fn events_are(r: Seq<EventContainer>, events: Seq<(EventCode, u32)>) -> bool {
    &&& r.len() == events.len()
    &&& forall|i: int|
        0 <= i < r.len() ==> (#[trigger] r[i]).code == events[i].0 && r[i].transaction_id == 0
            && r[i].params@ == seq![events[i].1, 0u32, 0u32]
}

/// An event with one parameter.
fn event(code: EventCode, param: u32) -> (r: EventContainer)
    ensures
        r.code == code,
        r.transaction_id == 0,
        r.params@ == seq![param, 0u32, 0u32],
{
    let params = [param, 0, 0];
    assert(params@ =~= seq![param, 0u32, 0u32]);
    EventContainer { code, transaction_id: 0, params }
}

/// Whether the first `n` components of `b` are the path `a`.
fn same_path_prefix(a: &Vec<String>, b: &Vec<String>, n: usize) -> (r: bool)
    requires
        n <= b@.len(),
    ensures
        r == (path_view(a@) == path_view(b@).take(n as int)),
{
    if a.len() != n {
        assert(path_view(a@).len() != path_view(b@).take(n as int).len());
        return false;
    }
    let mut i: usize = 0;
    while i < n
        invariant
            a@.len() == n,
            n <= b@.len(),
            i <= n,
            forall|j: int| 0 <= j < i ==> a@[j]@ == b@[j]@,
        decreases n - i,
    {
        if a[i] != b[i] {
            assert(path_view(a@)[i as int] != path_view(b@).take(n as int)[i as int]);
            return false;
        }
        i = i + 1;
    }
    assert(path_view(a@) =~= path_view(b@).take(n as int));
    true
}

/// The index of the object with this storage and the first `n` components of
/// `path`, if there is one.
fn find_object(objs: &Vec<(u32, VirtualObject)>, storage_id: StorageId, path: &Vec<String>, n: usize) -> (r: Option<usize>)
    requires
        n <= path@.len(),
    ensures
        r matches Some(i) ==> i < objs@.len(),
        object_index(objects_view(objs@), storage_id, path_view(path@).take(n as int)) == match r {
            Some(i) => Some(i as int),
            None => None::<int>,
        },
{
    let ghost v = objects_view(objs@);
    let ghost p = path_view(path@).take(n as int);
    let mut i: usize = 0;
    while i < objs.len()
        invariant
            i <= objs@.len(),
            n <= path@.len(),
            v == objects_view(objs@),
            p == path_view(path@).take(n as int),
            object_index(v, storage_id, p) == object_index_from(v, i as int, storage_id, p),
        decreases objs@.len() - i,
    {
        let e = &objs[i];
        assert(v[i as int] == (e.0, e.1@));
        if e.1.storage_id == storage_id && same_path_prefix(&e.1.rel_path, path, n) {
            return Some(i);
        }
        i = i + 1;
    }
    None
}

/// Apply a filesystem change to the objects of a virtual device, as
/// `fs_event_step` describes, and return the events it queues, in order.
pub fn apply_fs_event(objs: &mut VirtualObjects, ev: FsEvent) -> (events: Vec<EventContainer>)
    requires
        old(objs).wf(),
        old(objs).next_handle < u32::MAX,
    ensures
        final(objs).wf(),
        ({
            let (t, evs) = fs_event_step(old(objs)@, path_view(ev.rel_path@), ev.storage_id, ev.is_create);
            final(objs)@ == t && events_are(events@, evs)
        }),
{
    let ghost s = objs@;
    let ghost path = path_view(ev.rel_path@);
    let n = ev.rel_path.len();
    let found = find_object(&objs.objects, ev.storage_id, &ev.rel_path, n);
    assert(path_view(ev.rel_path@).take(n as int) =~= path);
    let mut events: Vec<EventContainer> = Vec::new();
    if ev.is_create {
        if found.is_some() {
            return events;
        }
        let parent = if n <= 1 {
            ObjectHandle(0)
        } else {
            assert(path_view(ev.rel_path@).take(n - 1) =~= path.drop_last());
            let q = find_object(&objs.objects, ev.storage_id, &ev.rel_path, n - 1);
            match q {
                Some(i) => {
                    assert(s.objects[i as int] == (objs.objects@[i as int].0, objs.objects@[i as int].1@));
                    ObjectHandle(objs.objects[i].0)
                },
                None => ObjectHandle(0),
            }
        };
        assert(parent == new_parent(s, ev.storage_id, path));
        let h = objs.next_handle;
        let storage_id = ev.storage_id;
        let obj = VirtualObject { rel_path: ev.rel_path, storage_id, parent };
        objs.objects.push((h, obj));
        objs.next_handle = h + 1;
        proof {
            let o = objs@.objects;
            assert(o =~= s.objects.push((h, obj@)));
            assert forall|i: int, j: int|
                0 <= i < j < o.len() implies !((#[trigger] o[i]).1.storage_id == (#[trigger] o[j]).1.storage_id
                && o[i].1.rel_path == o[j].1.rel_path) by {
                if j == o.len() - 1 && o[i].1.storage_id == storage_id && o[i].1.rel_path == path {
                    lemma_index_found(s.objects, 0, i, storage_id, path);
                }
            }
        }
        events.push(event(EventCode::ObjectAdded, h));
        events.push(event(EventCode::StorageInfoChanged, storage_id.0));
        events
    } else {
        match found {
            Some(i) => {
                let (h, _obj) = objs.objects.remove(i);
                proof {
                    assert(objs@.objects =~= s.objects.remove(i as int));
                    let o = objs@.objects;
                    assert forall|a: int, b: int| 0 <= a < b < o.len() implies (#[trigger] o[a]).0 != (
                    #[trigger] o[b]).0 by {
                        let a2 = if a < i { a } else { a + 1 };
                        let b2 = if b < i { b } else { b + 1 };
                        assert(o[a] == s.objects[a2] && o[b] == s.objects[b2]);
                    }
                    assert forall|a: int, b: int|
                        0 <= a < b < o.len() implies !((#[trigger] o[a]).1.storage_id == (
                        #[trigger] o[b]).1.storage_id && o[a].1.rel_path == o[b].1.rel_path) by {
                        let a2 = if a < i { a } else { a + 1 };
                        let b2 = if b < i { b } else { b + 1 };
                        assert(o[a] == s.objects[a2] && o[b] == s.objects[b2]);
                    }
                    assert forall|a: int| 0 <= a < o.len() implies (#[trigger] o[a]).0 < objs@.next_handle by {
                        let a2 = if a < i { a } else { a + 1 };
                        assert(o[a] == s.objects[a2]);
                    }
                }
                events.push(event(EventCode::ObjectRemoved, h));
                events.push(event(EventCode::StorageInfoChanged, ev.storage_id.0));
                events
            },
            None => events,
        }
    }
}

/// An object with this storage and path from index `k` on is found, at an
/// index no later than its own.
proof fn lemma_index_found(
    objs: Seq<(u32, VirtualObjectView)>,
    k: int,
    i: int,
    storage_id: StorageId,
    path: Seq<Seq<char>>,
)
    requires
        0 <= k <= i < objs.len(),
        objs[i].1.storage_id == storage_id,
        objs[i].1.rel_path == path,
    ensures
        object_index_from(objs, k, storage_id, path) is Some,
    decreases i - k,
{
    if k < i && !(objs[k].1.storage_id == storage_id && objs[k].1.rel_path == path) {
        lemma_index_found(objs, k + 1, i, storage_id, path);
    }
}

} // verus!
