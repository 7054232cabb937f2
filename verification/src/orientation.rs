//! Orientation of an image

use crate::api_loader::ImageDetails;
use gufo_common::orientation::{Orientation, UnknownOrientationValueError};
use gufo_exif::Exif;
use vstd::prelude::*;

verus! {

#[verifier::external_type_specification]
pub struct ExOrientation(Orientation);

#[verifier::external_type_specification]
pub struct ExUnknownOrientationValueError(UnknownOrientationValueError);

#[verifier::external_type_specification]
#[verifier::external_body]
pub struct ExExif(Exif);

#[verifier::external_type_specification]
#[verifier::external_body]
pub struct ExExifError(gufo_exif::error::Error);

/// The orientation that an Exif orientation value stands for
pub open spec fn orientation_of_value(value: u16) -> Option<Orientation> {
    match value {
        1u16 => Some(Orientation::Id),
        2u16 => Some(Orientation::Mirrored),
        3u16 => Some(Orientation::Rotation180),
        4u16 => Some(Orientation::MirroredRotation180),
        5u16 => Some(Orientation::MirroredRotation90),
        6u16 => Some(Orientation::Rotation270),
        7u16 => Some(Orientation::MirroredRotation270),
        8u16 => Some(Orientation::Rotation90),
        _ => None,
    }
}

/// `Orientation::try_from`: the variant whose discriminant is the value, or an
/// error that holds the value if there is none.
#[verifier::external_body]
fn orientation_try_from(value: u16) -> (r: Result<Orientation, UnknownOrientationValueError>)
    ensures
        match r {
            Ok(orientation) => orientation_of_value(value) == Some(orientation),
            Err(error) => orientation_of_value(value) is None && error.0 == value,
        },
{
    Orientation::try_from(value)
}

/// What `Exif::new` returns for the bytes of Exif data
pub uninterp spec fn parsed_exif(data: Seq<u8>) -> Result<Exif, gufo_exif::error::Error>;

/// `Exif::new`: parses Exif data. What it returns depends on the data alone.
/// Positions in the data are 32-bit numbers, and one that does not fit panics.
pub assume_specification[ Exif::new ](data: Vec<u8>) -> (r: Result<Exif, gufo_exif::error::Error>)
    requires
        data@.len() <= u32::MAX,
    ensures
        r == parsed_exif(data@),
;

/// What `Exif::orientation` returns for parsed Exif data
pub uninterp spec fn exif_orientation(exif: Exif) -> Option<Orientation>;

/// `Exif::orientation`: the orientation that the Exif data give, if they give
/// a known one. It depends on the Exif data alone.
pub assume_specification[ Exif::orientation ](exif: &Exif) -> (r: Option<Orientation>)
    ensures
        r == exif_orientation(*exif),
;

/// The orientation that Exif data give, `None` if they are broken or say
/// nothing about it
pub open spec fn orientation_of_exif(
    exif: Result<Exif, gufo_exif::error::Error>,
) -> Option<Orientation> {
    match exif {
        Ok(exif) => exif_orientation(exif),
        Err(_) => None,
    }
}

/// The change that brings an image into the orientation in which it is to be
/// shown, given what its Exif data say
///
/// The loader can ask not to look at the Exif data at all. An orientation that
/// the loader gives itself comes before the one in the Exif data, unless it is
/// not a known one.
pub open spec fn orientation_change(
    image_info: ImageDetails,
    exif: Option<Result<Exif, gufo_exif::error::Error>>,
) -> Option<Orientation> {
    let given = match image_info.inner.metadata_orientation {
        Some(value) => orientation_of_value(value),
        None => None,
    };
    if image_info.inner.transformation_ignore_exif {
        None
    } else if given is Some {
        given
    } else {
        match exif {
            Some(exif) => orientation_of_exif(exif),
            None => None,
        }
    }
}

/// The Exif data of an image, if it has any that can be read
pub open spec fn readable_exif(image_info: ImageDetails) -> Option<Seq<u8>> {
    match image_info.inner.metadata_exif {
        Some(exif) => exif@,
        None => None,
    }
}

/// Whether it is up to the Exif data how an image is to be shown
pub open spec fn depends_on_exif(image_info: ImageDetails) -> bool {
    &&& !image_info.inner.transformation_ignore_exif
    &&& image_info.inner.metadata_orientation matches Some(value) ==> orientation_of_value(
        value,
    ) is None
}

/// The change that brings an image into the orientation in which it is to be
/// shown, given how its Exif data are parsed
pub open spec fn change_for_image(image_info: ImageDetails) -> Option<Orientation> {
    orientation_change(
        image_info,
        match readable_exif(image_info) {
            Some(data) => Some(parsed_exif(data)),
            None => None,
        },
    )
}

/// Whether Exif data that are needed are small enough to be parsed
pub open spec fn has_parsable_exif(image_info: ImageDetails) -> bool {
    depends_on_exif(image_info) ==> match readable_exif(image_info) {
        Some(data) => data.len() <= u32::MAX,
        None => true,
    }
}

/// Bring an image into the orientation in which it is to be shown
///
/// `change_orientation` changes the pixels and the description of the frame
/// that go with them. It is not called if the image is to be shown as it is.
pub fn apply_exif_orientation<B, F, C: FnOnce(B, F, Orientation) -> (B, F)>(
    img_buf: B,
    frame: F,
    image_info: &ImageDetails,
    change_orientation: C,
) -> (r: (B, F))
    requires
        has_parsable_exif(*image_info),
        forall|orientation: Orientation| #[trigger]
            call_requires(change_orientation, (img_buf, frame, orientation)),
    ensures
        match change_for_image(*image_info) {
            Some(orientation) => call_ensures(
                change_orientation,
                (img_buf, frame, orientation),
                r,
            ),
            None => r == (img_buf, frame),
        },
{
    match needed_change(image_info) {
        Some(orientation) => change_orientation(img_buf, frame, orientation),
        None => (img_buf, frame),
    }
}

/// The change that brings an image into the orientation in which it is to be
/// shown, or `None` if it is to be shown as it is
pub fn needed_change(image_info: &ImageDetails) -> (r: Option<Orientation>)
    requires
        has_parsable_exif(*image_info),
    ensures
        r == change_for_image(*image_info),
{
    if image_info.transformation_ignore_exif() {
        return None;
    }
    if let Some(orientation) = image_info.metadata_orientation() {
        if let Ok(orientation) = orientation_try_from(orientation) {
            return Some(orientation);
        }
    }
    let exif_data = match image_info.metadata_exif() {
        Some(exif) => exif.get_full(),
        None => None,
    };
    match exif_data {
        Some(exif_data) => change_for_exif(Exif::new(exif_data)),
        None => None,
    }
}

/// The change that Exif data ask for
pub fn change_for_exif(exif: Result<Exif, gufo_exif::error::Error>) -> (r: Option<Orientation>)
    ensures
        r == orientation_of_exif(exif),
{
    match exif {
        Err(_) => None,
        Ok(data) => data.orientation(),
    }
}

/// Nothing is changed for a loader that asks to ignore Exif data, whatever the
/// image says about its orientation.
pub proof fn ignored_exif_changes_nothing(
    image_info: ImageDetails,
    exif: Option<Result<Exif, gufo_exif::error::Error>>,
)
    requires
        image_info.inner.transformation_ignore_exif,
    ensures
        orientation_change(image_info, exif) is None,
{
}

/// A known orientation that the loader gives is used whatever the Exif data
/// say.
pub proof fn given_orientation_comes_first(
    image_info: ImageDetails,
    value: u16,
    exif: Option<Result<Exif, gufo_exif::error::Error>>,
)
    requires
        !image_info.inner.transformation_ignore_exif,
        image_info.inner.metadata_orientation == Some(value),
        1 <= value <= 8,
    ensures
        orientation_change(image_info, exif) is Some,
        orientation_change(image_info, exif) == orientation_of_value(value),
{
}

/// The eight known values, each for one of the eight orientations.
pub proof fn orientation_values(value: u16)
    ensures
        match orientation_of_value(value) {
            Some(Orientation::Id) => value == 1,
            Some(Orientation::Mirrored) => value == 2,
            Some(Orientation::Rotation180) => value == 3,
            Some(Orientation::MirroredRotation180) => value == 4,
            Some(Orientation::MirroredRotation90) => value == 5,
            Some(Orientation::Rotation270) => value == 6,
            Some(Orientation::MirroredRotation270) => value == 7,
            Some(Orientation::Rotation90) => value == 8,
            None => value == 0 || value > 8,
        },
{
}

/// An image whose loader gives no known orientation is changed as its Exif data
/// say, if they can be read and parsed and say anything.
pub proof fn exif_is_used_otherwise(image_info: ImageDetails, data: Seq<u8>)
    requires
        !image_info.inner.transformation_ignore_exif,
        match image_info.inner.metadata_orientation {
            Some(value) => value == 0 || value > 8,
            None => true,
        },
        image_info.inner.metadata_exif matches Some(shared) && shared@ == Some(data),
    ensures
        match parsed_exif(data) {
            Ok(exif) => change_for_image(image_info) == exif_orientation(exif),
            Err(_) => change_for_image(image_info) is None,
        },
{
}

/// An image whose loader gives no known orientation and that has no Exif data
/// that can be read is not changed.
pub proof fn image_without_orientation_is_kept(image_info: ImageDetails)
    requires
        match image_info.inner.metadata_orientation {
            Some(value) => value == 0 || value > 8,
            None => true,
        },
        match image_info.inner.metadata_exif {
            Some(shared) => shared@ is None,
            None => true,
        },
    ensures
        change_for_image(image_info) is None,
{
}

/// What the loader says comes before the Exif data also where these are looked
/// at: ignoring them changes nothing, and a known orientation is used.
pub proof fn loader_comes_before_exif(image_info: ImageDetails, value: u16)
    ensures
        image_info.inner.transformation_ignore_exif ==> change_for_image(image_info) is None,
        !image_info.inner.transformation_ignore_exif && image_info.inner.metadata_orientation
            == Some(value) && 1 <= value <= 8 ==> change_for_image(image_info)
            == orientation_of_value(value),
{
}

/// Exif data are only too large to be parsed if they are needed, can be read and
/// have more bytes than 32 bits can count.
pub proof fn exif_can_be_parsed(image_info: ImageDetails)
    ensures
        has_parsable_exif(image_info) <==> {
            ||| image_info.inner.transformation_ignore_exif
            ||| (image_info.inner.metadata_orientation matches Some(value) && 1 <= value <= 8)
            ||| match image_info.inner.metadata_exif {
                Some(shared) => shared@ matches Some(data) ==> data.len() <= 4294967295,
                None => true,
            }
        },
{
}

} // verus!
