use glycin::jxl::{
    Action, BasicInfo, DecodedImage, Event, IccOutcome, ImgDecoder, MetadataReader,
    BOX_BUFFER_SIZE, EXIF_BOX,
};
use glycin::utils::{BinaryData, ColorType, MemoryFormat, Operation, ProcessError};

const INFO: BasicInfo = BasicInfo { xsize: 7, ysize: 8 };

fn full(data: &Option<BinaryData>) -> Option<Vec<u8>> {
    data.as_ref().and_then(|data| data.get_full())
}

fn decoded(color: ColorType, width: u32) -> Option<DecodedImage> {
    Some(DecodedImage {
        color,
        width,
        height: 1,
        bytes: vec![1, 2, 3],
    })
}

#[test]
fn nothing_found() {
    let mut reader = MetadataReader::new();
    assert_eq!(reader.handle(Event::BasicInfo(None)), Action::Continue);
    assert_eq!(reader.handle(Event::Other), Action::Warn);
    assert_eq!(reader.handle(Event::Success { remaining: 9 }), Action::Stop);
    assert_eq!(reader.into_parts(), (None, None, None));
}

#[test]
fn info_and_profile_are_kept() {
    let mut reader = MetadataReader::new();
    assert_eq!(reader.handle(Event::BasicInfo(Some(INFO))), Action::Continue);
    assert_eq!(reader.handle(Event::BasicInfo(None)), Action::Continue);
    assert_eq!(
        reader.handle(Event::ColorEncoding(IccOutcome::Profile(vec![4, 5]))),
        Action::Continue
    );
    assert_eq!(
        reader.handle(Event::ColorEncoding(IccOutcome::NoProfile)),
        Action::Continue
    );
    assert_eq!(
        reader.handle(Event::ColorEncoding(IccOutcome::NoSize)),
        Action::Stop
    );
    assert_eq!(reader.into_parts(), (Some(INFO), Some(vec![4, 5]), None));
}

#[test]
fn only_exif_boxes_are_read() {
    assert_eq!(&EXIF_BOX, b"Exif");
    let mut reader = MetadataReader::new();
    assert_eq!(reader.handle(Event::Box(*b"xml ")), Action::Continue);
    assert_eq!(reader.handle(Event::Box(*b"exif")), Action::Continue);
    assert!(reader.buf.is_empty());
    assert_eq!(reader.handle(Event::Box(*b"Exif")), Action::SetBoxBuffer);
    assert_eq!(reader.buf, vec![0; 65536]);
}

#[test]
fn exif_that_fits_into_the_buffer() {
    let mut reader = MetadataReader::new();
    reader.handle(Event::Box(EXIF_BOX));
    reader.buf[..7].copy_from_slice(b"\0\0\0\0MM*");
    assert_eq!(
        reader.handle(Event::Success {
            remaining: BOX_BUFFER_SIZE - 7
        }),
        Action::Stop
    );
    assert_eq!(reader.into_parts().2, Some(b"MM*".to_vec()));
}

#[test]
fn exif_without_content() {
    let mut reader = MetadataReader::new();
    reader.handle(Event::Box(EXIF_BOX));
    reader.handle(Event::Success {
        remaining: BOX_BUFFER_SIZE - 4,
    });
    assert_eq!(reader.into_parts().2, None);
}

#[test]
fn exif_that_fills_the_buffer() {
    let content: Vec<u8> = (0..BOX_BUFFER_SIZE + 1000).map(|i| i as u8).collect();

    let mut reader = MetadataReader::new();
    reader.handle(Event::Box(EXIF_BOX));
    reader.buf.copy_from_slice(&content[..BOX_BUFFER_SIZE]);
    assert_eq!(
        reader.handle(Event::BoxNeedMoreOutput { remaining: 0 }),
        Action::SetBoxBuffer
    );
    assert_eq!(reader.buf.len(), BOX_BUFFER_SIZE);
    reader.buf[..1000].copy_from_slice(&content[BOX_BUFFER_SIZE..]);
    reader.handle(Event::Success {
        remaining: BOX_BUFFER_SIZE - 1000,
    });
    assert_eq!(reader.into_parts().2, Some(content[4..].to_vec()));
}

#[test]
fn buffering_does_not_change_exif() {
    let content: Vec<u8> = (0..50).collect();

    let mut reader = MetadataReader::new();
    reader.handle(Event::Box(EXIF_BOX));
    reader.buf[..20].copy_from_slice(&content[..20]);
    reader.handle(Event::BoxNeedMoreOutput {
        remaining: BOX_BUFFER_SIZE - 20,
    });
    assert_eq!(reader.buf, content[..20]);
    reader.buf.copy_from_slice(&content[20..40]);
    reader.handle(Event::BoxNeedMoreOutput { remaining: 0 });
    reader.buf[..10].copy_from_slice(&content[40..]);
    reader.handle(Event::Success { remaining: 10 });
    assert_eq!(reader.into_parts().2, Some(content[4..].to_vec()));
}

#[test]
fn unused_end_of_the_last_full_buffer() {
    let mut reader = MetadataReader::new();
    reader.exif_buf = vec![vec![0, 0, 0, 0, 1], vec![2, 3, 4]];
    reader.handle(Event::Success { remaining: 2 });
    assert_eq!(reader.into_parts().2, Some(vec![1, 2]));
}

#[test]
fn image_is_described() {
    let found = (Some(INFO), Some(vec![4, 5]), Some(vec![6]));
    let (decoder, details) = ImgDecoder::init(vec![1, 2, 3], found).ok().unwrap();
    assert_eq!(decoder.decoder, (vec![1, 2, 3], Some(vec![4, 5])));
    assert_eq!((details.width, details.height), (7, 8));
    assert_eq!(details.info_format_name.as_deref(), Some("JPEG XL"));
    assert_eq!(full(&details.metadata_exif), Some(vec![6]));
    assert!(details.transformation_ignore_exif);
    assert!(details.metadata_xmp.is_none());
}

#[test]
fn image_without_info_is_an_error() {
    let error = ImgDecoder::init(vec![1], (None, Some(vec![]), Some(vec![]))).err();
    assert_eq!(
        error,
        Some(ProcessError::ExpectedError(Operation::ReadHeader))
    );
    assert_eq!(ImgDecoder::default().decoder, (Vec::new(), None));
}

#[test]
fn frames_say_what_is_unusual() {
    let decoder = ImgDecoder {
        decoder: (vec![], Some(vec![9])),
    };

    let plain = decoder.frame(decoded(ColorType::Rgb8, 1)).unwrap();
    assert_eq!((plain.width, plain.height, plain.stride), (1, 1, 3));
    assert_eq!(plain.memory_format, MemoryFormat::R8g8b8);
    assert_eq!(plain.texture.get_full(), Some(vec![1, 2, 3]));
    assert_eq!(full(&plain.details.color_icc_profile), Some(vec![9]));
    assert_eq!(plain.details.info_bit_depth, None);
    assert_eq!(plain.details.info_alpha_channel, None);
    assert_eq!(plain.details.info_grayscale, None);

    let gray = decoder.frame(decoded(ColorType::La16, 1)).unwrap();
    assert_eq!(gray.memory_format, MemoryFormat::G16a16);
    assert_eq!(gray.stride, 4);
    assert_eq!(gray.details.info_bit_depth, Some(16));
    assert_eq!(gray.details.info_alpha_channel, Some(true));
    assert_eq!(gray.details.info_grayscale, Some(true));
}

#[test]
fn color_types_have_memory_formats() {
    let expected = [
        (ColorType::L8, MemoryFormat::G8, (false, true, 8)),
        (ColorType::La8, MemoryFormat::G8a8, (true, true, 8)),
        (ColorType::Rgb8, MemoryFormat::R8g8b8, (false, false, 8)),
        (ColorType::Rgba8, MemoryFormat::R8g8b8a8, (true, false, 8)),
        (ColorType::L16, MemoryFormat::G16, (false, true, 16)),
        (ColorType::La16, MemoryFormat::G16a16, (true, true, 16)),
        (ColorType::Rgb16, MemoryFormat::R16g16b16, (false, false, 16)),
        (ColorType::Rgba16, MemoryFormat::R16g16b16a16, (true, false, 16)),
        (ColorType::Rgb32F, MemoryFormat::R32g32b32Float, (false, false, 32)),
        (ColorType::Rgba32F, MemoryFormat::R32g32b32a32Float, (true, false, 32)),
    ];
    for (color, format, details) in expected {
        assert_eq!(color.memory_format(), format);
        assert_eq!(color.channel_details(), details);
    }
}

#[test]
fn frames_that_cannot_be_made() {
    let decoder = ImgDecoder::default();
    assert_eq!(
        decoder.frame(None).err(),
        Some(ProcessError::ExpectedError(Operation::Decode))
    );
    assert_eq!(
        decoder.frame(decoded(ColorType::Rgba32F, 0x10000000)).err(),
        Some(ProcessError::ExpectedError(Operation::CreateFrame))
    );
    assert_eq!(
        decoder
            .frame(decoded(ColorType::Rgba32F, 0x0fffffff))
            .unwrap()
            .stride,
        0xfffffff0
    );
}
