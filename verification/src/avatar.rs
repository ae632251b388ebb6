//! Avatar: the loading status of its image, and which of image and fallback
//! is shown.

use vstd::prelude::*;

verus! {

/// How far the avatar image has got.
#[derive(Clone, Copy, Debug, PartialEq, Eq, Structural)]
pub enum ImageLoadingStatus {
    Idle,
    Loaded,
    Loading,
    Error,
}

impl ImageLoadingStatus {
    /// The status's name.
    pub open spec fn spec_name(self) -> Seq<char> {
        match self {
            ImageLoadingStatus::Idle => "Idle"@,
            ImageLoadingStatus::Loaded => "Loaded"@,
            ImageLoadingStatus::Loading => "Loading"@,
            ImageLoadingStatus::Error => "Error"@,
        }
    }

    /// `"Idle"`, `"Loaded"`, `"Loading"` or `"Error"`.
    pub fn name(&self) -> (r: &'static str)
        ensures
            r@ == self.spec_name(),
    {
        match self {
            ImageLoadingStatus::Idle => "Idle",
            ImageLoadingStatus::Loaded => "Loaded",
            ImageLoadingStatus::Loading => "Loading",
            ImageLoadingStatus::Error => "Error",
        }
    }
}

/// What happens to the image being loaded.
#[derive(Clone, Copy, Debug, PartialEq, Eq, Structural)]
pub enum ImageEvent {
    /// The image has no `src`.
    NoSource,
    /// No image element could be made to load it.
    NoElement,
    /// The image loaded.
    Load,
    /// The image failed to load.
    Fail,
}

/// The status after an event: a missing source or element is an error at
/// once; load and failure count only while the avatar is still mounted.
pub open spec fn spec_next_status(
    current: ImageLoadingStatus,
    event: ImageEvent,
    mounted: bool,
) -> ImageLoadingStatus {
    match event {
        ImageEvent::NoSource | ImageEvent::NoElement => ImageLoadingStatus::Error,
        ImageEvent::Load => if mounted {
            ImageLoadingStatus::Loaded
        } else {
            current
        },
        ImageEvent::Fail => if mounted {
            ImageLoadingStatus::Error
        } else {
            current
        },
    }
}

/// The loading status after `event`.
pub fn next_status(current: ImageLoadingStatus, event: ImageEvent, mounted: bool) -> (r:
    ImageLoadingStatus)
    ensures
        r == spec_next_status(current, event, mounted),
{
    match event {
        ImageEvent::NoSource | ImageEvent::NoElement => ImageLoadingStatus::Error,
        ImageEvent::Load => if mounted {
            ImageLoadingStatus::Loaded
        } else {
            current
        },
        ImageEvent::Fail => if mounted {
            ImageLoadingStatus::Error
        } else {
            current
        },
    }
}

/// The image is shown only once it has loaded.
pub fn image_is_shown(status: ImageLoadingStatus) -> (r: bool)
    ensures
        r == (status == ImageLoadingStatus::Loaded),
{
    matches!(status, ImageLoadingStatus::Loaded)
}

/// The root hears of every status but the idle one.
pub fn reports_status(status: ImageLoadingStatus) -> (r: bool)
    ensures
        r == (status != ImageLoadingStatus::Idle),
{
    !matches!(status, ImageLoadingStatus::Idle)
}

/// The fallback is shown once its delay is over, as long as the image has not
/// loaded.
pub fn fallback_is_shown(delay_over: bool, status: ImageLoadingStatus) -> (r: bool)
    ensures
        r == (delay_over && status != ImageLoadingStatus::Loaded),
{
    delay_over && !image_is_shown(status)
}

/// Events that reach an unmounted avatar change nothing but a missing source
/// or element.
pub proof fn lemma_unmounted_keeps_status(current: ImageLoadingStatus, event: ImageEvent)
    requires
        event == ImageEvent::Load || event == ImageEvent::Fail,
    ensures
        spec_next_status(current, event, false) == current,
{
}

/// A missing source or image element is an error at once; while mounted a
/// load means loaded and a failure means error, whatever came before.
pub proof fn lemma_status_after_events(current: ImageLoadingStatus, mounted: bool)
    ensures
        spec_next_status(current, ImageEvent::NoSource, mounted) == ImageLoadingStatus::Error,
        spec_next_status(current, ImageEvent::NoElement, mounted) == ImageLoadingStatus::Error,
        spec_next_status(current, ImageEvent::Load, true) == ImageLoadingStatus::Loaded,
        spec_next_status(current, ImageEvent::Fail, true) == ImageLoadingStatus::Error,
{
}

} // verus!
