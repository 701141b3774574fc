//! Rules for listing the objects of a storage, with the quirks of real
//! devices:
//! - Android devices: parent=0 returns ALL objects, so parent=0xFFFFFFFF is
//!   asked for instead, and both 0 and 0xFFFFFFFF count as root parents;
//! - Samsung devices: answer InvalidObjectHandle for parent=0, so a recursive
//!   listing filtered to root items is used;
//! - Fuji devices: return all objects for root, so listings are filtered by
//!   parent handle.

use vstd::prelude::*;
use crate::error::Error;
use crate::ptp::codes::ResponseCode;
use crate::ptp::codes::ObjectFormatCode;
use crate::ptp::types::{AssociationType, ObjectInfo};
use crate::ptp::ObjectHandle;

verus! {

/// Which listed objects belong to the folder that was asked for.
#[derive(Debug, Clone, Copy, PartialEq, Eq, Structural)]
pub enum ListingFilter {
    /// Objects whose parent is this handle.
    Parent(ObjectHandle),
    /// Root-level objects: parent 0 or 0xFFFFFFFF (depending on device).
    Root,
    /// Every object: a recursive listing keeps all that it finds.
    Any,
}

/// Whether a parent handle marks a root-level object: 0 or 0xFFFFFFFF.
pub open spec fn is_root_parent(h: ObjectHandle) -> bool {
    h.0 == 0 || h.0 == 0xFFFF_FFFF
}

/// Whether an object with the given parent passes a filter.
pub open spec fn filter_accepts(f: ListingFilter, object_parent: ObjectHandle) -> bool {
    match f {
        ListingFilter::Parent(p) => object_parent == p,
        ListingFilter::Root => is_root_parent(object_parent),
        ListingFilter::Any => true,
    }
}

/// Whether an object is a folder: format Association or association type
/// GenericFolder.
pub open spec fn object_is_folder(o: ObjectInfo) -> bool {
    o.format == ObjectFormatCode::Association || o.association_type == AssociationType::GenericFolder
}

/// The parent handle to ask the device for when listing `parent` (`None`
/// for the root): an Android device is asked for 0xFFFFFFFF when the root is
/// listed, since parent 0 returns every object there.
pub fn effective_list_parent(parent: Option<ObjectHandle>, android: bool) -> (r: Option<ObjectHandle>)
    ensures
        r == (if parent is None && android { Some(ObjectHandle(0xFFFF_FFFF)) } else { parent }),
{
    match parent {
        None => if android {
            Some(ObjectHandle::all())
        } else {
            None
        },
        Some(p) => Some(p),
    }
}

/// The filter for a listing of `parent` (`None` for the root): on Android
/// the root listing keeps root-level objects; otherwise objects whose parent
/// is the requested folder (the root handle 0 for `None`).
pub fn listing_filter(parent: Option<ObjectHandle>, android: bool) -> (r: ListingFilter)
    ensures
        r == (if parent is None && android {
            ListingFilter::Root
        } else {
            ListingFilter::Parent(
                match parent {
                    Some(p) => p,
                    None => ObjectHandle(0),
                },
            )
        }),
{
    match parent {
        None => if android {
            ListingFilter::Root
        } else {
            ListingFilter::Parent(ObjectHandle::root())
        },
        Some(p) => ListingFilter::Parent(p),
    }
}

/// Whether an object with parent `object_parent` passes the filter.
pub fn accepts(f: ListingFilter, object_parent: ObjectHandle) -> (r: bool)
    ensures
        r == filter_accepts(f, object_parent),
{
    match f {
        ListingFilter::Parent(p) => object_parent.0 == p.0,
        ListingFilter::Root => object_parent.0 == 0 || object_parent.0 == 0xFFFF_FFFF,
        ListingFilter::Any => true,
    }
}

/// Whether a failed listing of `parent` is answered with the recursive
/// fallback: the root was listed and the device answered InvalidObjectHandle.
pub fn use_root_fallback(parent: Option<ObjectHandle>, err: &Error) -> (r: bool)
    ensures
        r == (parent is None && err matches Error::Protocol { code: ResponseCode::InvalidObjectHandle, .. }),
{
    match err {
        Error::Protocol { code: ResponseCode::InvalidObjectHandle, .. } => parent.is_none(),
        _ => false,
    }
}

/// The objects of a listing that pass the filter, in their order.
pub fn filter_listing(objects: Vec<ObjectInfo>, f: ListingFilter) -> (r: Vec<ObjectInfo>)
    ensures
        r@ == objects@.filter(|o: ObjectInfo| filter_accepts(f, o.parent)),
{
    let ghost all = objects@;
    let mut rest = objects;
    let mut out: Vec<ObjectInfo> = Vec::new();
    while rest.len() > 0
        invariant
            rest@.len() <= all.len(),
            rest@ == all.subrange(all.len() - rest@.len(), all.len() as int),
            out@ == all.subrange(0, all.len() - rest@.len()).filter(|o: ObjectInfo| filter_accepts(f, o.parent)),
        decreases rest@.len(),
    {
        let ghost done = all.len() - rest@.len();
        let ghost before = rest@;
        let o = rest.remove(0);
        proof {
            assert(before[0] == all[done]);
            let pred = |o: ObjectInfo| filter_accepts(f, o.parent);
            let prefix = all.subrange(0, done + 1);
            assert(prefix.drop_last() =~= all.subrange(0, done));
            assert(prefix.last() == o);
            reveal(Seq::filter);
            assert(rest@ =~= all.subrange(all.len() - rest@.len(), all.len() as int));
        }
        if accepts(f, o.parent) {
            out.push(o);
        }
    }
    assert(all.subrange(0, all.len() as int) =~= all);
    out
}

/// The outcome of a listing from the handles the device listed and the
/// answers to the info requests made for them, in order: the first failed
/// request's error, or the objects that pass the filter, each with the
/// handle it was requested by.
pub open spec fn listing_result(
    handles: Seq<ObjectHandle>,
    infos: Seq<Result<ObjectInfo, Error>>,
    f: ListingFilter,
) -> Result<Seq<ObjectInfo>, Error>
    decreases infos.len(),
{
    if infos.len() == 0 {
        Ok(Seq::empty())
    } else {
        match listing_result(handles, infos.drop_last(), f) {
            Err(e) => Err(e),
            Ok(v) => match infos.last() {
                Err(e) => Err(e),
                Ok(o) => {
                    let o2 = ObjectInfo { handle: handles[infos.len() - 1], ..o };
                    Ok(if filter_accepts(f, o2.parent) { v.push(o2) } else { v })
                },
            },
        }
    }
}

/// Build a listing from the handles the device listed and the answers to the
/// info requests made for them, in order (the requests stop at the first
/// failure): that failure's error, or the objects that pass the filter, in
/// order, each with the handle it was requested by.
pub fn collect_listing(handles: &Vec<ObjectHandle>, infos: Vec<Result<ObjectInfo, Error>>, f: ListingFilter) -> (r: Result<Vec<ObjectInfo>, Error>)
    requires
        infos@.len() <= handles@.len(),
    ensures
        r matches Ok(v) ==> listing_result(handles@, infos@, f) == Ok::<Seq<ObjectInfo>, Error>(v@),
        r matches Err(e) ==> listing_result(handles@, infos@, f) == Err::<Seq<ObjectInfo>, Error>(e),
{
    let ghost all = infos@;
    let mut rest = infos;
    let mut out: Vec<ObjectInfo> = Vec::new();
    let mut i: usize = 0;
    while rest.len() > 0
        invariant
            all == infos@,
            all.len() <= handles@.len(),
            i + rest@.len() == all.len(),
            rest@ == all.subrange(i as int, all.len() as int),
            listing_result(handles@, all.subrange(0, i as int), f) == Ok::<Seq<ObjectInfo>, Error>(out@),
        decreases rest@.len(),
    {
        let ghost before = rest@;
        assert(i < handles.len());
        let item = rest.remove(0);
        proof {
            assert(before[0] == all[i as int]);
            let prefix = all.subrange(0, i + 1);
            assert(prefix.drop_last() =~= all.subrange(0, i as int));
            assert(prefix.last() == item);
            assert(rest@ =~= all.subrange(i + 1, all.len() as int));
        }
        match item {
            Err(e) => {
                proof {
                    assert(listing_result(handles@, all.subrange(0, i as int + 1), f) == Err::<
                        Seq<ObjectInfo>,
                        Error,
                    >(e));
                    lemma_listing_error_stays(handles@, all, f, i as int + 1);
                }
                return Err(e);
            },
            Ok(o) => {
                let o2 = ObjectInfo { handle: handles[i], ..o };
                if accepts(f, o2.parent) {
                    out.push(o2);
                }
            },
        }
        i = i + 1;
    }
    assert(all.subrange(0, i as int) =~= all);
    Ok(out)
}

/// Once a listing has failed, answers to further requests do not change its
/// error.
proof fn lemma_listing_error_stays(
    handles: Seq<ObjectHandle>,
    infos: Seq<Result<ObjectInfo, Error>>,
    f: ListingFilter,
    k: int,
)
    requires
        0 <= k <= infos.len(),
        listing_result(handles, infos.subrange(0, k), f) is Err,
    ensures
        listing_result(handles, infos, f) == listing_result(handles, infos.subrange(0, k), f),
    decreases infos.len() - k,
{
    if k < infos.len() {
        let p = infos.subrange(0, k + 1);
        assert(p.drop_last() =~= infos.subrange(0, k));
        lemma_listing_error_stays(handles, infos, f, k + 1);
    } else {
        assert(infos.subrange(0, k) =~= infos);
    }
}

/// The parent handle for a native recursive listing of `parent`: the root is
/// listed recursively by asking for 0xFFFFFFFF.
pub fn recursive_list_parent(parent: Option<ObjectHandle>) -> (r: Option<ObjectHandle>)
    ensures
        r == (if parent is None { Some(ObjectHandle(0xFFFF_FFFF)) } else { parent }),
{
    match parent {
        None => Some(ObjectHandle::all()),
        Some(p) => Some(p),
    }
}

/// Whether a native recursive listing looks incomplete, so that manual
/// traversal is used instead: it found objects, but only folders.
pub fn native_listing_incomplete(objects: &Vec<ObjectInfo>) -> (r: bool)
    ensures
        r == (objects@.len() > 0 && forall|i: int| 0 <= i < objects@.len() ==> object_is_folder(#[trigger] objects@[i])),
{
    if objects.len() == 0 {
        return false;
    }
    let mut i: usize = 0;
    while i < objects.len()
        invariant
            i <= objects@.len(),
            forall|j: int| 0 <= j < i ==> object_is_folder(#[trigger] objects@[j]),
        decreases objects@.len() - i,
    {
        if objects[i].is_file() {
            return false;
        }
        i = i + 1;
    }
    true
}

/// Manual recursive traversal: a stack of folders still to list, and the
/// objects found so far.
pub struct ManualTraversal {
    /// Folders still to list (`None` for the root), the next on top.
    pub pending: Vec<Option<ObjectHandle>>,
    /// Objects found so far, in the order they were listed.
    pub found: Vec<ObjectInfo>,
}

/// The folders of a listing, as handles to list next, in order.
pub open spec fn folder_handles(objects: Seq<ObjectInfo>) -> Seq<Option<ObjectHandle>> {
    objects.filter(|o: ObjectInfo| object_is_folder(o)).map_values(|o: ObjectInfo| Some(o.handle))
}

impl ManualTraversal {
    /// Start a traversal of `parent` (`None` for the root).
    pub fn new(parent: Option<ObjectHandle>) -> (r: Self)
        ensures
            r.pending@ == seq![parent],
            r.found@ == Seq::<ObjectInfo>::empty(),
    {
        let mut pending: Vec<Option<ObjectHandle>> = Vec::new();
        pending.push(parent);
        ManualTraversal { pending, found: Vec::new() }
    }

    /// The next folder to list: the one on top of the stack, taken off it.
    pub fn next_folder(&mut self) -> (r: Option<Option<ObjectHandle>>)
        ensures
            old(self).pending@.len() == 0 ==> r is None && final(self).pending@ == old(self).pending@,
            old(self).pending@.len() > 0 ==> r == Some(old(self).pending@.last())
                && final(self).pending@ == old(self).pending@.drop_last(),
            final(self).found@ == old(self).found@,
    {
        self.pending.pop()
    }

    /// Record the listing of a folder: every object is found, and each folder
    /// among them is pushed to be listed, in listing order.
    pub fn add_listing(&mut self, objects: Vec<ObjectInfo>)
        ensures
            final(self).found@ == old(self).found@ + objects@,
            final(self).pending@ == old(self).pending@ + folder_handles(objects@),
    {
        let ghost all = objects@;
        let mut rest = objects;
        while rest.len() > 0
            invariant
                rest@.len() <= all.len(),
                rest@ == all.subrange(all.len() - rest@.len(), all.len() as int),
                self.found@ == old(self).found@ + all.subrange(0, all.len() - rest@.len()),
                self.pending@ == old(self).pending@ + folder_handles(all.subrange(0, all.len() - rest@.len())),
            decreases rest@.len(),
        {
            let ghost done = all.len() - rest@.len();
            let ghost before = rest@;
            let o = rest.remove(0);
            proof {
                assert(before[0] == all[done]);
                let prefix = all.subrange(0, done + 1);
                assert(prefix.drop_last() =~= all.subrange(0, done));
                assert(prefix.last() == o);
                reveal(Seq::filter);
                assert(rest@ =~= all.subrange(all.len() - rest@.len(), all.len() as int));
            }
            if o.is_folder() {
                self.pending.push(Some(o.handle));
            }
            self.found.push(o);
            proof {
                let prefix = all.subrange(0, done + 1);
                assert(self.found@ =~= old(self).found@ + prefix);
                let pred = |o: ObjectInfo| object_is_folder(o);
                assert(folder_handles(prefix) =~= if object_is_folder(o) {
                    folder_handles(all.subrange(0, done)).push(Some(o.handle))
                } else {
                    folder_handles(all.subrange(0, done))
                });
                assert(self.pending@ =~= old(self).pending@ + folder_handles(prefix));
            }
        }
        assert(all.subrange(0, all.len() as int) =~= all);
    }
}

} // verus!
