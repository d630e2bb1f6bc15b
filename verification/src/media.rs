use vstd::prelude::*;

verus! {

/// The kind of media a provider delivers.
#[derive(Debug, Clone, Copy, PartialEq, Eq, Structural)]
pub enum MediaType {
    Video,
    Audio,
    Image,
}

impl MediaType {
    /// The label of the media type, as the history records it.
    pub open spec fn spec_label(self) -> Seq<char> {
        match self {
            MediaType::Video => "Video"@,
            MediaType::Audio => "Audio"@,
            MediaType::Image => "Image"@,
        }
    }

    pub fn label(&self) -> (r: &'static str)
        ensures
            r@ == self.spec_label(),
    {
        match self {
            MediaType::Video => "Video",
            MediaType::Audio => "Audio",
            MediaType::Image => "Image",
        }
    }
}

} // verus!

verus! {

/// What a provider reports about a piece of media before downloading it.
#[derive(Debug, Clone)]
pub struct MediaInfo {
    pub title: String,
    pub duration: String,
    pub size: String,
    pub provider: String,
}

impl MediaInfo {
    /// Whether the duration is known (anything but `Unknown`).
    pub fn has_duration(&self) -> (r: bool)
        ensures
            r == (self.duration@ != "Unknown"@),
    {
        !crate::text::str_eq(self.duration.as_str(), "Unknown")
    }
}

} // verus!
