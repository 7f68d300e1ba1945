use crate::content_type::ContentType;
use crate::error::{ClipboardError, Result};
use vstd::prelude::*;

verus! {

/// Access to a clipboard. A backend implements the capabilities it offers;
/// the others report [`ClipboardError::Unsupported`].
pub trait ClipboardProvider: Sized {
    /// The clipboard's contents as text.
    fn get_contents(&self) -> Result<String>;

    /// Replaces the clipboard's contents with a text.
    fn set_contents(&self, data: String) -> Result<()>;

    /// The content types the current clipboard item is offered in, normalized
    /// and each once.
    fn get_content_types(&self) -> (r: Result<Vec<ContentType>>)
        default_ensures
            r == Err::<Vec<ContentType>, ClipboardError>(ClipboardError::Unsupported),
    {
        Err(ClipboardError::Unsupported)
    }

    /// The bytes the current clipboard item holds for one content type.
    fn get_content_for_type(&self, ct: &ContentType) -> (r: Result<Vec<u8>>)
        default_ensures
            r == Err::<Vec<u8>, ClipboardError>(ClipboardError::Unsupported),
    {
        Err(ClipboardError::Unsupported)
    }

    /// Replaces the clipboard item with one offering each given content type
    /// with its bytes; a later pair for the same type replaces an earlier one.
    fn set_content_types(&self, entries: Vec<(ContentType, Vec<u8>)>) -> (r: Result<()>)
        default_ensures
            r == Err::<(), ClipboardError>(ClipboardError::Unsupported),
    {
        Err(ClipboardError::Unsupported)
    }

    /// Replaces a custom content type by the well-known one it denotes on this
    /// backend, if any.
    fn normalize_content_type(ct: ContentType) -> ContentType;

    /// The backend's native name of a content type.
    fn denormalize_content_type(ct: ContentType) -> String;
}

} // verus!
