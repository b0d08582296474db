//! Reading the logical data structure of ICAO 9303 travel documents:
//! BER-TLV, ISO/IEC 7816-4 APDUs with BAC Secure Messaging, the
//! file-read driver, and the parsers of the elementary files.

pub mod crypto;
pub mod data_groups;
pub mod dg_parsers;
pub mod helpers;
pub mod icao9303;
pub mod iso7816;
pub mod mrz;
pub mod parsed_data_groups;
pub mod proxmark;
pub mod smartcard;
pub mod tlv;
