//! A pasteboard shared by the threads of a process, behind one guard.
//!
//! Every operation, reads included, takes the guard exclusively and holds it
//! for its whole sequence of steps (clear, then write; look up the item, then
//! read its data), so no other thread of the process sees a half-done
//! operation. The guard says nothing about other processes, which may change a
//! system pasteboard at any moment.
use crate::content_type::{ContentType, NativeFormats};
use crate::error::{ClipboardError, Result};
use crate::pasteboard::{
    bytes_result_is, data_spec, text_result_is, text_spec, types_result_is, types_spec, valid_state,
    EntryModel, Pasteboard,
};
use crate::provider::ClipboardProvider;
use vstd::prelude::*;
use vstd::rwlock::{RwLock, RwLockPredicate};

verus! {

/// What holds of the pasteboard whenever the guard is free.
pub struct WellFormed;

impl RwLockPredicate<Pasteboard> for WellFormed {
    open spec fn inv(self, v: Pasteboard) -> bool {
        v.wf()
    }
}

/// A clipboard over a pasteboard that the threads of a process share.
pub struct SharedClipboard {
    guard: RwLock<Pasteboard, WellFormed>,
}

impl SharedClipboard {
    /// A shared clipboard over an empty pasteboard.
    pub fn new() -> (r: SharedClipboard) {
        SharedClipboard { guard: RwLock::new(Pasteboard::new(), Ghost(WellFormed)) }
    }
}

impl ClipboardProvider for SharedClipboard {
    /// The text of the pasteboard as it stood while the guard was held.
    fn get_contents(&self) -> (r: Result<String>)
        ensures
            exists|p: Option<Seq<EntryModel>>| #[trigger]
                valid_state(p) && text_result_is(r, text_spec(p)),
    {
        let (pb, handle) = self.guard.acquire_write();
        let r = pb.get_contents();
        let ghost p = pb@;
        proof {
            pb.lemma_valid_state();
            assert(valid_state(p) && text_result_is(r, text_spec(p)));
        }
        handle.release_write(pb);
        r
    }

    fn set_contents(&self, data: String) -> (r: Result<()>)
        ensures
            r == Ok::<(), ClipboardError>(()),
    {
        let (mut pb, handle) = self.guard.acquire_write();
        let r = pb.set_contents(data);
        handle.release_write(pb);
        r
    }

    /// The content types of the pasteboard as it stood while the guard was held.
    fn get_content_types(&self) -> (r: Result<Vec<ContentType>>)
        ensures
            exists|p: Option<Seq<EntryModel>>| #[trigger]
                valid_state(p) && types_result_is(r, types_spec(p)),
    {
        let (pb, handle) = self.guard.acquire_write();
        let r = pb.get_content_types();
        let ghost p = pb@;
        proof {
            pb.lemma_valid_state();
            assert(valid_state(p) && types_result_is(r, types_spec(p)));
        }
        handle.release_write(pb);
        r
    }

    /// The bytes for a content type of the pasteboard as it stood while the
    /// guard was held.
    fn get_content_for_type(&self, ct: &ContentType) -> (r: Result<Vec<u8>>)
        ensures
            exists|p: Option<Seq<EntryModel>>| #[trigger]
                valid_state(p) && bytes_result_is(r, data_spec(p, ct@)),
    {
        let (pb, handle) = self.guard.acquire_write();
        let r = pb.get_content_for_type(ct);
        let ghost p = pb@;
        proof {
            pb.lemma_valid_state();
            assert(valid_state(p) && bytes_result_is(r, data_spec(p, ct@)));
        }
        handle.release_write(pb);
        r
    }

    fn set_content_types(&self, entries: Vec<(ContentType, Vec<u8>)>) -> (r: Result<()>)
        ensures
            r == Ok::<(), ClipboardError>(()),
    {
        let (mut pb, handle) = self.guard.acquire_write();
        let r = pb.set_content_types(entries);
        handle.release_write(pb);
        r
    }

    fn normalize_content_type(ct: ContentType) -> (r: ContentType)
        ensures
            r@ == NativeFormats::Pasteboard.normalize_spec(ct@),
    {
        NativeFormats::Pasteboard.normalize(ct)
    }

    fn denormalize_content_type(ct: ContentType) -> (r: String)
        ensures
            r@ == NativeFormats::Pasteboard.name_spec(ct@),
    {
        NativeFormats::Pasteboard.denormalize(ct)
    }
}

} // verus!
