//! Loader for JPEG XL

use crate::utils::{
    BinaryData, ColorType, Frame, ImageDetails, Operation, ProcessError,
};
use vstd::prelude::*;

verus! {

/// Size of the buffer that the content of a box is read into, 64 KiB
pub const BOX_BUFFER_SIZE: usize = 65536;

/// Number of bytes at the beginning of an Exif box that are not Exif data: they
/// tell where the Exif data begin
pub const EXIF_OFFSET_SIZE: usize = 4;

/// Type of the boxes that Exif data are stored in
pub const EXIF_BOX: [u8; 4] = [69, 120, 105, 102];

/// What the beginning of an image tells about it
#[derive(Clone, Copy, Debug, PartialEq, Eq, Structural)]
pub struct BasicInfo {
    pub xsize: u32,
    pub ysize: u32,
}

/// What the decoder says when it is asked for the color profile of an image
pub enum IccOutcome {
    /// It cannot tell how large it is
    NoSize,
    /// It cannot give it
    NoProfile,
    Profile(Vec<u8>),
}

/// Something that the decoder comes across in an image
pub enum Event {
    /// The basic information, `None` if it cannot be obtained
    BasicInfo(Option<BasicInfo>),
    /// The beginning of a box of the given type
    Box([u8; 4]),
    /// The buffer is full before the end of the box
    BoxNeedMoreOutput {
        /// Number of bytes at the end of the buffer that are not used
        remaining: usize,
    },
    /// The color encoding
    ColorEncoding(IccOutcome),
    /// The end of the image
    Success {
        /// Number of bytes at the end of the buffer that are not used
        remaining: usize,
    },
    /// Anything else
    Other,
}

/// What is to be done next
#[derive(Clone, Copy, Debug, PartialEq, Eq, Structural)]
pub enum Action {
    /// Let the decoder go on
    Continue,
    /// Give the decoder all of [`MetadataReader::buf`] to write to and let it
    /// go on
    SetBoxBuffer,
    /// Warn about something unexpected and let the decoder go on
    Warn,
    /// Nothing: there is nothing more to be found
    Stop,
}

/// Collects the metadata of an image while it is decoded
pub struct MetadataReader {
    pub basic_info: Option<BasicInfo>,
    pub icc_profile: Option<Vec<u8>>,
    pub exif: Option<Vec<u8>>,
    /// What was in the buffer each time it was full
    pub exif_buf: Vec<Vec<u8>>,
    /// What the decoder writes the content of a box to
    pub buf: Vec<u8>,
}

/// Several sequences of bytes one after the other
pub open spec fn concatenated(parts: Seq<Seq<u8>>) -> Seq<u8>
    decreases parts.len(),
{
    if parts.len() == 0 {
        seq![]
    } else {
        concatenated(parts.drop_last()) + parts.last()
    }
}

/// The Exif data in the content of an Exif box, if there are any
pub open spec fn exif_of_box(content: Seq<u8>) -> Option<Seq<u8>> {
    if content.len() > EXIF_OFFSET_SIZE {
        Some(content.skip(EXIF_OFFSET_SIZE as int))
    } else {
        None
    }
}

/// The bytes of an optional value
pub open spec fn optional_bytes(data: Option<Vec<u8>>) -> Option<Seq<u8>> {
    match data {
        Some(data) => Some(data@),
        None => None,
    }
}

impl MetadataReader {
    /// What has been read of the box, up to the last time the buffer was full
    pub open spec fn collected(self) -> Seq<u8> {
        concatenated(crate::text::contents(self.exif_buf@))
    }

    /// What has been read of the box if the given number of bytes at the end
    /// of the buffer are not used
    pub open spec fn box_content(self, remaining: int) -> Seq<u8> {
        let all = self.collected() + self.buf@;
        if all.len() == 0 {
            all
        } else {
            all.take(all.len() - remaining)
        }
    }

    /// Whether the decoder can leave so many bytes of its buffer unused: no
    /// more than there are in the buffer or, if it is empty, in what it last
    /// held
    pub open spec fn can_leave(self, remaining: int) -> bool {
        if self.buf@.len() > 0 {
            remaining <= self.buf@.len()
        } else if self.exif_buf@.len() > 0 {
            remaining <= self.exif_buf@.last()@.len()
        } else {
            true
        }
    }

    /// Whether an event can come up
    pub open spec fn is_possible(self, event: Event) -> bool {
        match event {
            Event::BoxNeedMoreOutput { remaining } => remaining <= self.buf@.len(),
            Event::Success { remaining } => self.can_leave(remaining as int),
            _ => true,
        }
    }

    pub fn new() -> (r: Self)
        ensures
            r.basic_info is None,
            r.icc_profile is None,
            r.exif is None,
            r.exif_buf@.len() == 0,
            r.buf@.len() == 0,
    {
        MetadataReader {
            basic_info: None,
            icc_profile: None,
            exif: None,
            exif_buf: Vec::new(),
            buf: Vec::new(),
        }
    }

    /// Take note of an event
    ///
    /// The decoder writes to the buffer between two events.
    pub fn handle(&mut self, event: Event) -> (r: Action)
        requires
            old(self).is_possible(event),
        ensures
            match event {
                Event::BasicInfo(info) => {
                    &&& r == Action::Continue
                    &&& final(self).basic_info == if info is Some {
                        info
                    } else {
                        old(self).basic_info
                    }
                },
                _ => final(self).basic_info == old(self).basic_info,
            },
            match event {
                Event::Box(type_) if type_@ == EXIF_BOX@ => {
                    &&& r == Action::SetBoxBuffer
                    &&& final(self).buf@.len() == BOX_BUFFER_SIZE
                    &&& forall|i: int|
                        0 <= i < BOX_BUFFER_SIZE ==> #[trigger] final(self).buf@[i] == if i < old(
                            self,
                        ).buf@.len() {
                            old(self).buf@[i]
                        } else {
                            0
                        }
                },
                Event::Box(_) => r == Action::Continue && final(self).buf@ == old(self).buf@,
                Event::BoxNeedMoreOutput { remaining } => {
                    &&& r == Action::SetBoxBuffer
                    &&& final(self).buf@ == old(self).buf@.take(
                        old(self).buf@.len() - remaining,
                    )
                },
                _ => final(self).buf@ == old(self).buf@,
            },
            match event {
                Event::BoxNeedMoreOutput { remaining } => final(self).collected() == old(
                    self,
                ).collected() + final(self).buf@,
                Event::Success { remaining } => final(self).collected() == old(self).box_content(
                    remaining as int,
                ),
                _ => final(self).exif_buf@ == old(self).exif_buf@,
            },
            match event {
                Event::ColorEncoding(IccOutcome::Profile(iccp)) => {
                    &&& r == Action::Continue
                    &&& final(self).icc_profile == Some(iccp)
                },
                Event::ColorEncoding(outcome) => {
                    &&& r == if outcome is NoSize {
                        Action::Stop
                    } else {
                        Action::Continue
                    }
                    &&& final(self).icc_profile == old(self).icc_profile
                },
                _ => final(self).icc_profile == old(self).icc_profile,
            },
            match event {
                Event::Success { remaining } => {
                    &&& r == Action::Stop
                    &&& optional_bytes(final(self).exif) == match exif_of_box(
                        old(self).box_content(remaining as int),
                    ) {
                        Some(exif) => Some(exif),
                        None => optional_bytes(old(self).exif),
                    }
                },
                _ => final(self).exif == old(self).exif,
            },
            event is Other ==> r == Action::Warn,
            match event {
                Event::Box(type_) => if type_@ == seq![69u8, 120u8, 105u8, 102u8] {
                    r == Action::SetBoxBuffer && final(self).buf@.len() == 65536
                } else {
                    r == Action::Continue && final(self).buf@ == old(self).buf@
                },
                Event::Success { remaining } => {
                    let content = old(self).box_content(remaining as int);
                    if content.len() > 4 {
                        final(self).exif matches Some(exif) && exif@ == content.skip(4)
                    } else {
                        final(self).exif == old(self).exif
                    }
                },
                _ => true,
            },
            match event {
                Event::BoxNeedMoreOutput { remaining } => {
                    &&& final(self).exif_buf@.len() == old(self).exif_buf@.len() + 1
                    &&& final(self).exif_buf@.drop_last() == old(self).exif_buf@
                    &&& final(self).exif_buf@.last()@ == old(self).buf@.take(
                        old(self).buf@.len() - remaining,
                    )
                },
                _ => true,
            },
    {
        match event {
            Event::BasicInfo(info) => {
                if info.is_some() {
                    self.basic_info = info;
                }
                Action::Continue
            },
            Event::Box(type_) => {
                let is_exif = type_[0] == EXIF_BOX[0] && type_[1] == EXIF_BOX[1] && type_[2]
                    == EXIF_BOX[2] && type_[3] == EXIF_BOX[3];
                assert(is_exif ==> type_@ =~= EXIF_BOX@);
                assert(EXIF_BOX@ =~= seq![69u8, 120u8, 105u8, 102u8]);
                if is_exif {
                    self.buf.resize(BOX_BUFFER_SIZE, 0);
                    Action::SetBoxBuffer
                } else {
                    Action::Continue
                }
            },
            Event::BoxNeedMoreOutput { remaining } => {
                let used: usize = self.buf.len() - remaining;
                self.buf.truncate(used);
                self.push_buffer();
                Action::SetBoxBuffer
            },
            Event::ColorEncoding(outcome) => match outcome {
                IccOutcome::NoSize => Action::Stop,
                IccOutcome::NoProfile => Action::Continue,
                IccOutcome::Profile(iccp) => {
                    self.icc_profile = Some(iccp);
                    Action::Continue
                },
            },
            Event::Success { remaining } => {
                if !self.buf.is_empty() {
                    self.push_buffer();
                }
                let ghost full = *self;
                if remaining > 0 {
                    if let Some(last) = self.exif_buf.pop() {
                        let mut last = last;
                        let ghost whole = last@;
                        last.truncate(last.len() - remaining);
                        let ghost cut = last@;
                        self.exif_buf.push(last);
                        proof {
                            let parts = crate::text::contents(full.exif_buf@);
                            let now = crate::text::contents(self.exif_buf@);
                            assert(now.drop_last() =~= parts.drop_last());
                            assert(now.last() =~= cut && parts.last() == whole);
                            let n = full.collected().len() - remaining;
                            assert(self.collected() =~= full.collected().take(n));
                        }
                    }
                }
                proof {
                    let content = old(self).box_content(remaining as int);
                    assert(old(self).collected() + old(self).buf@ =~= full.collected());
                    if full.exif_buf@.len() > 0 {
                        assert(remaining == 0 ==> full.collected() =~= full.collected().take(
                            full.collected().len() as int,
                        ));
                        lemma_last_is_within(full);
                    }
                    assert(self.collected() =~= content);
                }
                let exif_data = concat(&self.exif_buf);
                if exif_data.len() > EXIF_OFFSET_SIZE {
                    let mut exif_data = exif_data;
                    let data = exif_data.split_off(EXIF_OFFSET_SIZE);
                    self.exif = Some(data);
                    assert(self.exif->0@ =~= self.collected().skip(EXIF_OFFSET_SIZE as int));
                }
                Action::Stop
            },
            Event::Other => Action::Warn,
        }
    }

    /// Take note of what is in the buffer
    fn push_buffer(&mut self)
        ensures
            final(self).collected() == old(self).collected() + old(self).buf@,
            final(self).exif_buf@.len() == old(self).exif_buf@.len() + 1,
            final(self).exif_buf@.last()@ == old(self).buf@,
            final(self).exif_buf@.drop_last() == old(self).exif_buf@,
            *final(self) == (MetadataReader { exif_buf: final(self).exif_buf, ..*old(self) }),
    {
        let content = crate::text::copy(&self.buf);
        self.exif_buf.push(content);
        proof {
            let parts = crate::text::contents(self.exif_buf@);
            assert(parts.drop_last() =~= crate::text::contents(old(self).exif_buf@));
            assert(parts.last() == old(self).buf@);
        }
    }

    /// What was found: the basic information, the color profile and the Exif
    /// data
    pub fn into_parts(self) -> (r: (Option<BasicInfo>, Option<Vec<u8>>, Option<Vec<u8>>))
        ensures
            r == (self.basic_info, self.icc_profile, self.exif),
    {
        (self.basic_info, self.icc_profile, self.exif)
    }
}

proof fn lemma_last_is_within(reader: MetadataReader)
    requires
        reader.exif_buf@.len() > 0,
    ensures
        reader.exif_buf@.last()@.len() <= reader.collected().len(),
{
    let parts = crate::text::contents(reader.exif_buf@);
    assert(parts.last() == reader.exif_buf@.last()@);
}

/// Put several sequences of bytes one after the other
fn concat(parts: &Vec<Vec<u8>>) -> (r: Vec<u8>)
    ensures
        r@ == concatenated(crate::text::contents(parts@)),
{
    let mut whole: Vec<u8> = Vec::new();
    let ghost all = crate::text::contents(parts@);
    assert(all.take(0) =~= Seq::<Seq<u8>>::empty());
    assert(whole@ =~= Seq::<u8>::empty());
    for i in 0..parts.len()
        invariant
            all == crate::text::contents(parts@),
            whole@ == concatenated(all.take(i as int)),
    {
        proof {
            assert(all.take(i + 1).drop_last() =~= all.take(i as int));
            assert(all.take(i + 1).last() == parts@[i as int]@);
        }
        whole.extend_from_slice(&parts[i]);
        assert(whole@ =~= concatenated(all.take(i + 1)));
    }
    assert(all.take(parts@.len() as int) =~= all);
    whole
}

/// One sequence of bytes more comes at the end, and there are no bytes without
/// any sequence.
pub proof fn next_part_comes_last(parts: Seq<Seq<u8>>, next: Seq<u8>)
    ensures
        concatenated(Seq::<Seq<u8>>::empty()) == Seq::<u8>::empty(),
        concatenated(parts.push(next)) == concatenated(parts) + next,
{
    assert(parts.push(next).drop_last() =~= parts);
}

/// What has been read of a box grows by what was in the buffer each time it was
/// full.
pub proof fn full_buffer_is_collected(before: MetadataReader, after: MetadataReader)
    requires
        after.exif_buf@.len() == before.exif_buf@.len() + 1,
        after.exif_buf@.drop_last() == before.exif_buf@,
    ensures
        after.collected() == before.collected() + after.exif_buf@.last()@,
{
    let parts = crate::text::contents(after.exif_buf@);
    assert(parts.drop_last() =~= crate::text::contents(before.exif_buf@));
    assert(parts.last() == after.exif_buf@.last()@);
}

/// Nothing has been read of a box before the buffer was full once.
pub proof fn nothing_is_collected_at_first(reader: MetadataReader)
    requires
        reader.exif_buf@.len() == 0,
    ensures
        reader.collected() == Seq::<u8>::empty(),
{
}

/// The content of a box is what was read of it before, and that part of the
/// buffer that is used.
pub proof fn used_part_of_buffer_counts(reader: MetadataReader, remaining: int)
    requires
        0 <= remaining <= reader.buf@.len(),
    ensures
        reader.box_content(remaining) == reader.collected() + reader.buf@.take(
            reader.buf@.len() - remaining,
        ),
{
    assert(reader.box_content(remaining) =~= reader.collected() + reader.buf@.take(
        reader.buf@.len() - remaining,
    ));
}

/// If there is nothing in the buffer, the unused bytes are those at the end of
/// what was read before.
pub proof fn unused_bytes_come_off_the_end(reader: MetadataReader, remaining: int)
    requires
        reader.buf@.len() == 0,
        0 <= remaining <= reader.collected().len(),
    ensures
        reader.box_content(remaining) == reader.collected().take(
            reader.collected().len() - remaining,
        ),
{
    assert(reader.box_content(remaining) =~= reader.collected().take(
        reader.collected().len() - remaining,
    ));
}

/// The decoder can leave no more bytes unused than there are: in its buffer or, at
/// the end of the image, in what the buffer held when it was last full. Anything
/// else that it comes across is possible at any time.
pub proof fn unused_bytes_are_there(reader: MetadataReader, event: Event)
    ensures
        reader.is_possible(event) <==> match event {
            Event::BoxNeedMoreOutput { remaining } => remaining <= reader.buf@.len(),
            Event::Success { remaining } => {
                ||| remaining <= reader.buf@.len() && reader.buf@.len() > 0
                ||| reader.buf@.len() == 0 && reader.exif_buf@.len() == 0
                ||| reader.buf@.len() == 0 && reader.exif_buf@.len() > 0 && remaining
                    <= reader.exif_buf@[reader.exif_buf@.len() - 1]@.len()
            },
            _ => true,
        },
{
}

/// Optional bytes are all the bytes, if there are any.
pub proof fn optional_bytes_are_kept(data: Vec<u8>)
    ensures
        optional_bytes(Some(data)) == Some(data@),
        optional_bytes(None) is None,
{
}

/// The Exif data are all of the box but the first four bytes, and there are none
/// in a box that has no more than those.
pub proof fn exif_follows_offset(offset: Seq<u8>, exif: Seq<u8>)
    requires
        offset.len() == 4,
    ensures
        exif.len() > 0 ==> exif_of_box(offset + exif) == Some(exif),
        forall|n: int| 0 <= n <= 4 ==> exif_of_box(#[trigger] offset.take(n)) is None,
{
    assert((offset + exif).skip(4) =~= exif);
}

/// The Exif data are the same no matter how often the buffer was full while
/// they were read.
pub proof fn exif_does_not_depend_on_buffering(
    one: MetadataReader,
    one_remaining: int,
    other: MetadataReader,
    other_remaining: int,
)
    requires
        0 <= one_remaining <= one.buf@.len(),
        0 <= other_remaining <= other.buf@.len(),
        one.collected() + one.buf@.take(one.buf@.len() - one_remaining) == other.collected()
            + other.buf@.take(other.buf@.len() - other_remaining),
    ensures
        exif_of_box(one.box_content(one_remaining)) == exif_of_box(
            other.box_content(other_remaining),
        ),
{
    assert(one.box_content(one_remaining) =~= one.collected() + one.buf@.take(
        one.buf@.len() - one_remaining,
    ));
    assert(other.box_content(other_remaining) =~= other.collected() + other.buf@.take(
        other.buf@.len() - other_remaining,
    ));
}

/// Pixels as the decoder hands them out
pub struct DecodedImage {
    pub color: ColorType,
    pub width: u32,
    pub height: u32,
    pub bytes: Vec<u8>,
}

/// Loader for one image
pub struct ImgDecoder {
    /// The image file and the color profile of the image
    pub decoder: (Vec<u8>, Option<Vec<u8>>),
}

impl Default for ImgDecoder {
    fn default() -> (r: Self)
        ensures
            r.decoder.0@.len() == 0,
            r.decoder.1 is None,
    {
        ImgDecoder { decoder: (Vec::new(), None) }
    }
}

/// The data of an optional value
pub open spec fn shared_bytes(data: Option<BinaryData>) -> Option<Option<Seq<u8>>> {
    match data {
        Some(data) => Some(data@),
        None => None,
    }
}

/// The bytes of an optional value, ready to be shared
pub open spec fn to_be_shared(data: Option<Vec<u8>>) -> Option<Option<Seq<u8>>> {
    match data {
        Some(data) => Some(Some(data@)),
        None => None,
    }
}

/// Sharing keeps all bytes.
pub proof fn sharing_keeps_bytes(data: Vec<u8>, shared: BinaryData)
    ensures
        shared_bytes(None) is None,
        to_be_shared(None) is None,
        shared_bytes(Some(shared)) == to_be_shared(Some(data)) <==> shared@ == Some(data@),
{
}

/// Share optional data
fn share(data: Option<Vec<u8>>) -> (r: Option<BinaryData>)
    ensures
        shared_bytes(r) == to_be_shared(data),
        match (data, r) {
            (Some(data), Some(shared)) => shared@ == Some(data@),
            (None, None) => true,
            _ => false,
        },
{
    match data {
        Some(data) => Some(BinaryData::from_data(data)),
        None => None,
    }
}

impl ImgDecoder {
    /// Start to load an image file of which the given basic information, color
    /// profile and Exif data are known
    ///
    /// The orientation in the Exif data is already part of the image.
    pub fn init(
        data: Vec<u8>,
        metadata: (Option<BasicInfo>, Option<Vec<u8>>, Option<Vec<u8>>),
    ) -> (r: Result<(Self, ImageDetails), ProcessError>)
        ensures
            match (metadata.0, r) {
                (Some(info), Ok((decoder, details))) => {
                    &&& decoder.decoder == (data, metadata.1)
                    &&& details.info_format_name matches Some(name)
                    &&& name@ == "JPEG XL"@
                    &&& shared_bytes(details.metadata_exif) == to_be_shared(metadata.2)
                    &&& match (metadata.2, details.metadata_exif) {
                        (Some(exif), Some(shared)) => shared@ == Some(exif@),
                        (None, None) => true,
                        _ => false,
                    }
                    &&& details == (ImageDetails {
                        info_format_name: details.info_format_name,
                        metadata_exif: details.metadata_exif,
                        transformation_ignore_exif: true,
                        ..ImageDetails::of_size(info.xsize, info.ysize)
                    })
                },
                (None, Err(error)) => error == ProcessError::ExpectedError(Operation::ReadHeader),
                _ => false,
            },
    {
        let (info, iccp, exif) = metadata;
        let info = match info {
            Some(info) => info,
            None => return Err(ProcessError::ExpectedError(Operation::ReadHeader)),
        };

        let mut image_info = ImageDetails::new(info.xsize, info.ysize);
        image_info.info_format_name = Some("JPEG XL".to_owned());
        image_info.metadata_exif = share(exif);
        image_info.transformation_ignore_exif = true;

        Ok((ImgDecoder { decoder: (data, iccp) }, image_info))
    }

    /// The frame for the pixels that the decoder makes of the image file,
    /// `None` if it cannot decode it
    pub fn frame(&self, image: Option<DecodedImage>) -> (r: Result<Frame, ProcessError>)
        ensures
            match (image, r) {
                (None, Err(error)) => error == ProcessError::ExpectedError(Operation::Decode),
                (Some(image), Err(error)) => {
                    &&& image.width * image.color.layout().pixel_bytes() > u32::MAX
                    &&& error == ProcessError::ExpectedError(Operation::CreateFrame)
                },
                (Some(image), Ok(frame)) => {
                    let format = image.color.layout();
                    &&& frame.width == image.width
                    &&& frame.height == image.height
                    &&& frame.stride == image.width * format.pixel_bytes()
                    &&& frame.memory_format == format
                    &&& frame.texture@ == Some(image.bytes@)
                    &&& frame.delay is None
                    &&& shared_bytes(frame.details.color_icc_profile) == to_be_shared(
                        self.decoder.1,
                    )
                    &&& match (self.decoder.1, frame.details.color_icc_profile) {
                        (Some(iccp), Some(shared)) => shared@ == Some(iccp@),
                        (None, None) => true,
                        _ => false,
                    }
                    &&& frame.details.info_bit_depth == if format.channel_bytes() == 1 {
                        None
                    } else {
                        Some((8 * format.channel_bytes()) as u8)
                    }
                    &&& frame.details.info_alpha_channel == if format.is_opaque() {
                        None
                    } else {
                        Some(true)
                    }
                    &&& frame.details.info_grayscale == if format.is_gray() {
                        Some(true)
                    } else {
                        None
                    }
                    &&& frame.details.color_cicp is None
                    &&& frame.details.n_frame is None
                },
                (None, Ok(_)) => false,
            },
    {
        let image = match image {
            Some(image) => image,
            None => return Err(ProcessError::ExpectedError(Operation::Decode)),
        };

        let memory_format = image.color.memory_format();
        let (alpha_channel, grayscale, bits) = image.color.channel_details();
        let texture = BinaryData::from_data(image.bytes);

        let mut frame = match Frame::new(image.width, image.height, memory_format, texture) {
            Some(frame) => frame,
            None => return Err(ProcessError::ExpectedError(Operation::CreateFrame)),
        };

        let iccp = match &self.decoder.1 {
            Some(iccp) => Some(crate::text::copy(iccp)),
            None => None,
        };
        frame.details.color_icc_profile = share(iccp);

        if bits != 8 {
            frame.details.info_bit_depth = Some(bits);
        }
        if alpha_channel {
            frame.details.info_alpha_channel = Some(true);
        }
        if grayscale {
            frame.details.info_grayscale = Some(true);
        }

        Ok(frame)
    }
}

} // verus!
