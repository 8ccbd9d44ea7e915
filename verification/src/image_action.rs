//! The actions that consume a finished selection, and what they carry.

use vstd::prelude::*;

verus! {

/// Action to take with the captured image once a region is accepted.
#[derive(Clone, Copy, Debug, PartialEq, Eq, Structural)]
pub enum Command {
    /// Upload the image to the internet.
    UploadScreenshot,
    /// Copy the image to the clipboard.
    CopyToClipboard,
    /// Save the image to a file.
    SaveScreenshot,
}

/// Pixel dimensions of an image.
#[derive(Clone, Copy, Debug, PartialEq, Eq, Structural)]
pub struct ImageData {
    /// Height of the image in pixels.
    pub height: u32,
    /// Width of the image in pixels.
    pub width: u32,
}

impl Command {
    /// This action as a dispatchable key action.
    pub fn into_key_action(self) -> (r: crate::commands::Command)
        ensures
            r == crate::commands::Command::ImageUpload(self),
    {
        match self {
            Command::CopyToClipboard => crate::commands::Command::ImageUpload(
                Command::CopyToClipboard,
            ),
            Command::SaveScreenshot => crate::commands::Command::ImageUpload(
                Command::SaveScreenshot,
            ),
            Command::UploadScreenshot => crate::commands::Command::ImageUpload(
                Command::UploadScreenshot,
            ),
        }
    }
}

} // verus!
