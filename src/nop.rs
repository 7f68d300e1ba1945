use crate::content_type::{ContentType, NativeFormats};
use crate::error::{ClipboardError, Result};
use crate::provider::ClipboardProvider;
use vstd::prelude::*;

verus! {

/// A clipboard for platforms without one: reading and writing report
/// [`ClipboardError::Unsupported`]. Content types are named as X11 names them.
pub struct NopClipboardContext;

impl NopClipboardContext {
    /// A placeholder clipboard; creating it always succeeds.
    pub fn new() -> (r: Result<NopClipboardContext>)
        ensures
            r is Ok,
    {
        Ok(NopClipboardContext)
    }
}

impl ClipboardProvider for NopClipboardContext {
    fn get_contents(&self) -> (r: Result<String>)
        ensures
            r == Err::<String, ClipboardError>(ClipboardError::Unsupported),
    {
        Err(ClipboardError::Unsupported)
    }

    fn set_contents(&self, data: String) -> (r: Result<()>)
        ensures
            r == Err::<(), ClipboardError>(ClipboardError::Unsupported),
    {
        Err(ClipboardError::Unsupported)
    }

    fn normalize_content_type(ct: ContentType) -> (r: ContentType)
        ensures
            r@ == NativeFormats::X11.normalize_spec(ct@),
    {
        NativeFormats::X11.normalize(ct)
    }

    fn denormalize_content_type(ct: ContentType) -> (r: String)
        ensures
            r@ == NativeFormats::X11.name_spec(ct@),
    {
        NativeFormats::X11.denormalize(ct)
    }
}

} // verus!
