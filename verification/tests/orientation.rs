use std::sync::Arc;

use glycin::api_loader::ImageDetails;
use glycin::orientation::{apply_exif_orientation, change_for_exif, needed_change};
use glycin::utils;
use glycin::utils::BinaryData;
use gufo_common::orientation::Orientation;

/// Exif data with nothing but an orientation in them
fn exif(orientation: u8) -> Vec<u8> {
    let mut data = b"MM\0*\0\0\0\x08".to_vec();
    data.extend_from_slice(&[0, 1]);
    data.extend_from_slice(&[0x01, 0x12, 0, 3, 0, 0, 0, 1, 0, orientation, 0, 0]);
    data.extend_from_slice(&[0, 0, 0, 0]);
    data
}

fn details(change: impl FnOnce(&mut utils::ImageDetails)) -> ImageDetails {
    let mut inner = utils::ImageDetails::new(10, 20);
    change(&mut inner);
    ImageDetails {
        inner: Arc::new(inner),
    }
}

#[test]
fn given_values_stand_for_orientations() {
    let expected = [
        None,
        Some(Orientation::Id),
        Some(Orientation::Mirrored),
        Some(Orientation::Rotation180),
        Some(Orientation::MirroredRotation180),
        Some(Orientation::MirroredRotation90),
        Some(Orientation::Rotation270),
        Some(Orientation::MirroredRotation270),
        Some(Orientation::Rotation90),
        None,
    ];
    for (value, orientation) in expected.into_iter().enumerate() {
        let info = details(|x| x.metadata_orientation = Some(value as u16));
        assert_eq!(needed_change(&info), orientation);
    }
}

#[test]
fn exif_orientation_is_used() {
    let info = details(|x| x.metadata_exif = Some(BinaryData::from_data(exif(6))));
    assert_eq!(needed_change(&info), Some(Orientation::Rotation270));
    assert_eq!(
        change_for_exif(gufo_exif::Exif::new(exif(3))),
        Some(Orientation::Rotation180)
    );
}

#[test]
fn unusable_exif_changes_nothing() {
    let broken = details(|x| x.metadata_exif = Some(BinaryData::from_data(b"broken".to_vec())));
    assert_eq!(needed_change(&broken), None);

    let unknown = details(|x| x.metadata_exif = Some(BinaryData::from_data(exif(9))));
    assert_eq!(needed_change(&unknown), None);

    let unreadable = details(|x| {
        x.metadata_exif = Some(BinaryData {
            memory: Arc::new(None),
        })
    });
    assert_eq!(needed_change(&unreadable), None);

    assert_eq!(needed_change(&details(|_| {})), None);
}

#[test]
fn exif_can_be_ignored() {
    let info = details(|x| {
        x.metadata_orientation = Some(3);
        x.metadata_exif = Some(BinaryData::from_data(exif(6)));
        x.transformation_ignore_exif = true;
    });
    assert_eq!(needed_change(&info), None);
}

#[test]
fn given_orientation_is_preferred() {
    let info = details(|x| {
        x.metadata_orientation = Some(3);
        x.metadata_exif = Some(BinaryData::from_data(exif(6)));
    });
    assert_eq!(needed_change(&info), Some(Orientation::Rotation180));

    let unknown = details(|x| {
        x.metadata_orientation = Some(0);
        x.metadata_exif = Some(BinaryData::from_data(exif(6)));
    });
    assert_eq!(needed_change(&unknown), Some(Orientation::Rotation270));
}

#[test]
fn pixels_are_changed_only_if_needed() {
    let upright = details(|_| {});
    let changed = apply_exif_orientation(vec![1, 2], "frame", &upright, |_, _, _| {
        panic!("there is nothing to change")
    });
    assert_eq!(changed, (vec![1, 2], "frame"));

    let mirrored = details(|x| x.metadata_orientation = Some(2));
    let changed = apply_exif_orientation(vec![1, 2], 5, &mirrored, |mut pixels, frame, change| {
        assert_eq!(change, Orientation::Mirrored);
        pixels.reverse();
        (pixels, frame + 1)
    });
    assert_eq!(changed, (vec![2, 1], 6));
}
