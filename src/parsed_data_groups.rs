//! The records that the elementary file parsers produce.

use vstd::prelude::*;

use crate::mrz::MRZ;

verus! {

/// EF.COM (ICAO 9303 part 10, 4.6.1).
#[derive(Debug, Clone, PartialEq)]
pub struct EFCom {
    /// Four bytes, such as `30 31 30 37` for version 1.7.
    pub lds_version: Option<Vec<u8>>,
    /// Six digits shown as `XX.YY.ZZ`.
    pub unicode_version: Option<String>,
    /// The outer tags of the data groups on the chip.
    pub data_group_tag_list: Vec<u8>,
}

/// EF.DG1: the MRZ.
#[derive(Debug, Clone, PartialEq)]
pub struct EFDG1 {
    pub mrz: MRZ,
}

/// The image format of an ISO/IEC 19794-5 face image.
#[derive(Debug, Clone, Copy, PartialEq, Eq, Structural)]
pub enum BiometricImageFormat {
    Jpeg,
    Jpeg2000,
    /// Any other format byte: stored as opaque bytes.
    Reserved,
}

impl BiometricImageFormat {
    /// The file extension for images of this format.
    pub fn get_extension(&self) -> (r: String)
        ensures
            r@ == image_extension_of(*self),
            *self == BiometricImageFormat::Jpeg ==> r@ == "jpeg"@,
            *self == BiometricImageFormat::Jpeg2000 ==> r@ == "jp2"@,
            *self == BiometricImageFormat::Reserved ==> r@ == "image_bin"@,
    {
        match self {
            BiometricImageFormat::Jpeg => String::from_str("jpeg"),
            BiometricImageFormat::Jpeg2000 => String::from_str("jp2"),
            BiometricImageFormat::Reserved => String::from_str("image_bin"),
        }
    }

    /// The format for a format byte: 0 is JPEG, 1 is JPEG 2000, anything else
    /// is opaque.
    pub fn from_repr(b: u8) -> (r: BiometricImageFormat)
        ensures
            r == image_format_of(b),
    {
        if b == 0 {
            BiometricImageFormat::Jpeg
        } else if b == 1 {
            BiometricImageFormat::Jpeg2000
        } else {
            BiometricImageFormat::Reserved
        }
    }
}

/// The file extension for images of a format.
pub open spec fn image_extension_of(f: BiometricImageFormat) -> Seq<char> {
    match f {
        BiometricImageFormat::Jpeg => "jpeg"@,
        BiometricImageFormat::Jpeg2000 => "jp2"@,
        BiometricImageFormat::Reserved => "image_bin"@,
    }
}

pub open spec fn image_format_of(b: u8) -> BiometricImageFormat {
    if b == 0 {
        BiometricImageFormat::Jpeg
    } else if b == 1 {
        BiometricImageFormat::Jpeg2000
    } else {
        BiometricImageFormat::Reserved
    }
}

/// One biometric of EF.DG2: its header template and the image.
#[derive(Debug, Clone, PartialEq)]
pub struct Biometric {
    pub header_version: Option<Vec<u8>>,
    pub biometric_type: Option<Vec<u8>>,
    pub biometric_sub_type: Option<u8>,
    pub creation_timestamp: Option<Vec<u8>>,
    pub validity_period_from_through: Option<Vec<u8>>,
    pub creator_of_biometric_data: Option<Vec<u8>>,
    pub format_owner: Vec<u8>,
    pub format_type: Vec<u8>,
    pub data: Vec<u8>,
    pub image_format: BiometricImageFormat,
}

/// EF.DG2: the encoded face images.
#[derive(Debug, Clone, PartialEq)]
pub struct EFDG2 {
    pub biometrics: Vec<Biometric>,
}

/// EF.DG5: displayed portraits, each a JPEG.
#[derive(Debug, Clone, PartialEq)]
pub struct EFDG5 {
    pub displayed_portraits: Vec<Vec<u8>>,
}

/// EF.DG7: displayed signatures or usual marks, each a JPEG.
#[derive(Debug, Clone, PartialEq)]
pub struct EFDG7 {
    pub displayed_signatures: Vec<Vec<u8>>,
}

/// EF.DG11: additional personal details.
#[derive(Debug, Clone, PartialEq)]
pub struct EFDG11 {
    pub full_name: Option<String>,
    pub other_names: Option<Vec<String>>,
    pub personal_number: Option<String>,
    /// YYYYMMDD
    pub full_date_of_birth: Option<String>,
    pub place_of_birth: Option<String>,
    pub permanent_address: Option<String>,
    pub telephone: Option<String>,
    pub profession: Option<String>,
    pub title: Option<String>,
    pub personal_summary: Option<String>,
    /// JPEG
    pub proof_of_citizenship: Option<Vec<u8>>,
    pub other_valid_td_numbers: Option<String>,
    pub custody_information: Option<String>,
}

/// EF.DG12: additional document details.
#[derive(Debug, Clone, PartialEq)]
pub struct EFDG12 {
    pub issuing_authority: Option<String>,
    /// YYYYMMDD
    pub date_of_issue: Option<String>,
    pub other_persons: Option<Vec<String>>,
    pub endorsements_observations: Option<String>,
    pub tax_exit_requirements: Option<String>,
    /// JPEG
    pub image_of_front_of_emrtd: Option<Vec<u8>>,
    /// JPEG
    pub image_of_rear_of_emrtd: Option<Vec<u8>>,
    /// yyyymmddhhmmss
    pub personalization_timestamp: Option<String>,
    pub personalization_device_serial_number: Option<String>,
}

/// A decoded elementary file.
#[derive(Debug, Clone, PartialEq)]
pub enum ParsedDataGroup {
    EFCom(EFCom),
    EFDG1(EFDG1),
    EFDG2(EFDG2),
    EFDG5(EFDG5),
    EFDG7(EFDG7),
    EFDG11(EFDG11),
    EFDG12(EFDG12),
}


/// An image to store: its bytes and the file extension for it.
#[derive(Debug, Clone, PartialEq)]
pub struct ImageFile {
    pub data: Vec<u8>,
    pub extension: String,
}

/// The JPEG images of a list, in order.
fn jpeg_images(list: &Vec<Vec<u8>>) -> (r: Vec<ImageFile>)
    ensures
        r@.len() == list@.len(),
        forall|i: int|
            0 <= i < list@.len() ==> (#[trigger] r@[i]).data@ == list@[i]@ && r@[i].extension@
                == "jpeg"@,
{
    let mut out: Vec<ImageFile> = Vec::new();
    let mut i: usize = 0;
    while i < list.len()
        invariant
            i <= list@.len(),
            out@.len() == i,
            forall|k: int|
                0 <= k < i ==> (#[trigger] out@[k]).data@ == list@[k]@ && out@[k].extension@
                    == "jpeg"@,
        decreases list.len() - i,
    {
        out.push(ImageFile { data: list[i].clone(), extension: String::from_str("jpeg") });
        i = i + 1;
    }
    out
}

/// The images a decoded file holds, to be stored beside it: the faces of
/// EF.DG2 with the extension of their format, the portraits of EF.DG5 and
/// the signatures of EF.DG7 as JPEG; none for other files.
pub fn images_of(parsed: &Option<ParsedDataGroup>) -> (r: Vec<ImageFile>)
    ensures
        match parsed {
            Some(ParsedDataGroup::EFDG2(d)) => r@.len() == d.biometrics@.len() && forall|i: int|
                0 <= i < r@.len() ==> (#[trigger] r@[i]).data@ == d.biometrics@[i].data@
                    && r@[i].extension@ == image_extension_of(d.biometrics@[i].image_format),
            Some(ParsedDataGroup::EFDG5(d)) => r@.len() == d.displayed_portraits@.len() && forall|
                i: int,
            |
                0 <= i < r@.len() ==> (#[trigger] r@[i]).data@ == d.displayed_portraits@[i]@
                    && r@[i].extension@ == "jpeg"@,
            Some(ParsedDataGroup::EFDG7(d)) => r@.len() == d.displayed_signatures@.len() && forall|
                i: int,
            |
                0 <= i < r@.len() ==> (#[trigger] r@[i]).data@ == d.displayed_signatures@[i]@
                    && r@[i].extension@ == "jpeg"@,
            _ => r@.len() == 0,
        },
{
    match parsed {
        Some(ParsedDataGroup::EFDG2(d)) => {
            let mut out: Vec<ImageFile> = Vec::new();
            let mut i: usize = 0;
            while i < d.biometrics.len()
                invariant
                    i <= d.biometrics@.len(),
                    out@.len() == i,
                    forall|k: int|
                        0 <= k < i ==> (#[trigger] out@[k]).data@ == d.biometrics@[k].data@
                            && out@[k].extension@ == image_extension_of(
                            d.biometrics@[k].image_format,
                        ),
                decreases d.biometrics.len() - i,
            {
                let b = &d.biometrics[i];
                out.push(ImageFile { data: b.data.clone(), extension: b.image_format.get_extension() });
                i = i + 1;
            }
            out
        },
        Some(ParsedDataGroup::EFDG5(d)) => jpeg_images(&d.displayed_portraits),
        Some(ParsedDataGroup::EFDG7(d)) => jpeg_images(&d.displayed_signatures),
        _ => Vec::new(),
    }
}

} // verus!
