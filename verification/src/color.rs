//! Color spaces by coding-independent code points

use gufo_common::cicp::{
    Cicp, CicpError, ColorPrimaries, MatrixCoefficients, TransferCharacteristics, VideoRangeFlag,
};
use vstd::prelude::*;

verus! {

#[verifier::external_type_specification]
pub struct ExColorPrimaries(ColorPrimaries);

#[verifier::external_type_specification]
pub struct ExTransferCharacteristics(TransferCharacteristics);

#[verifier::external_type_specification]
pub struct ExMatrixCoefficients(MatrixCoefficients);

#[verifier::external_type_specification]
pub struct ExVideoRangeFlag(VideoRangeFlag);

#[verifier::external_type_specification]
pub struct ExCicp(gufo_common::cicp::Cicp);

#[verifier::external_type_specification]
pub struct ExCicpError(CicpError);

/// The primaries that a code stands for
pub open spec fn color_primaries(code: u8) -> ColorPrimaries {
    match code {
        1u8 => ColorPrimaries::Srgb,
        2u8 => ColorPrimaries::Unspecified,
        9u8 => ColorPrimaries::Rec2020,
        11u8 => ColorPrimaries::DciP3,
        12u8 => ColorPrimaries::DisplayP3,
        _ => ColorPrimaries::Unknown(code),
    }
}

/// The transfer characteristics that a code stands for
pub open spec fn transfer_characteristics(code: u8) -> TransferCharacteristics {
    match code {
        1u8 => TransferCharacteristics::Gamma22,
        2u8 => TransferCharacteristics::Unspecified,
        6u8 => TransferCharacteristics::Gamma22_,
        8u8 => TransferCharacteristics::Linear,
        13u8 => TransferCharacteristics::Gamma24,
        14u8 => TransferCharacteristics::Gamma22Bit10,
        15u8 => TransferCharacteristics::Gamma22Bit12,
        16u8 => TransferCharacteristics::Pq,
        17u8 => TransferCharacteristics::Dci,
        18u8 => TransferCharacteristics::Hlg,
        _ => TransferCharacteristics::Unknown(code),
    }
}

/// The matrix coefficients that a code stands for
pub open spec fn matrix_coefficients(code: u8) -> MatrixCoefficients {
    match code {
        0u8 => MatrixCoefficients::Identity,
        2u8 => MatrixCoefficients::Unspecified,
        14u8 => MatrixCoefficients::ICtCp,
        _ => MatrixCoefficients::Unknown(code),
    }
}

/// The color space that four code points stand for: primaries, transfer
/// characteristics, matrix coefficients and range, in this order
///
/// Only a range of zero or one stands for anything.
pub open spec fn color_of_codes(codes: Seq<u8>) -> Option<Cicp> {
    if codes[3] <= 1 {
        Some(
            Cicp {
                color_primaries: color_primaries(codes[0]),
                transfer_characteristics: transfer_characteristics(codes[1]),
                matrix_coefficients: matrix_coefficients(codes[2]),
                video_full_range_flag: if codes[3] == 0 {
                    VideoRangeFlag::Narrow
                } else {
                    VideoRangeFlag::Full
                },
            },
        )
    } else {
        None
    }
}

/// `Cicp::from_bytes`: reads the four code points one by one and fails on a
/// range that is neither zero nor one, with that range as the error.
pub assume_specification[ gufo_common::cicp::Cicp::from_bytes ](bytes: &[u8; 4]) -> (r: Result<
    gufo_common::cicp::Cicp,
    gufo_common::cicp::CicpError,
>)
    ensures
        match r {
            Ok(color) => color_of_codes(bytes@) == Some(color),
            Err(CicpError::InvalidVideoFullRangeFlag(flag)) => color_of_codes(bytes@) is None && flag
                == bytes@[3],
        },
;

/// BT.2020 primaries with a linear transfer function
pub open spec fn rec2020_linear() -> Cicp {
    Cicp {
        color_primaries: ColorPrimaries::Rec2020,
        transfer_characteristics: TransferCharacteristics::Linear,
        matrix_coefficients: MatrixCoefficients::Identity,
        video_full_range_flag: VideoRangeFlag::Full,
    }
}

/// The constant `Cicp::REC2020_LINEAR`, whose four fields the contract gives.
#[verifier::external_body]
pub(crate) fn cicp_rec2020_linear() -> (r: Cicp)
    ensures
        r == rec2020_linear(),
{
    Cicp::REC2020_LINEAR
}

/// Color space of the pixels of a frame
pub enum ColorState {
    Srgb,
    Cicp(Cicp),
}

/// Four code points stand for a color space exactly if the range is zero or one,
/// and no two of them for the same one.
pub proof fn color_codes_are_distinct(one: Seq<u8>, other: Seq<u8>)
    requires
        one.len() == 4,
        other.len() == 4,
    ensures
        color_of_codes(one) is Some <==> one[3] <= 1,
        one[3] <= 1 && color_of_codes(one) == color_of_codes(other) ==> one == other,
{
    if one[3] <= 1 && color_of_codes(one) == color_of_codes(other) {
        assert(one =~= other);
    }
}

/// The code points of BT.2020 with a linear transfer function, among those for
/// which the range is given.
pub proof fn rec2020_linear_has_its_codes(codes: Seq<u8>)
    requires
        codes.len() == 4,
    ensures
        color_of_codes(codes) == Some(rec2020_linear()) <==> codes == seq![9u8, 8u8, 0u8, 1u8],
{
    if color_of_codes(codes) == Some(rec2020_linear()) {
        assert(codes =~= seq![9u8, 8u8, 0u8, 1u8]);
    }
}

} // verus!
