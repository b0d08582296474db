//! The catalog of elementary files of an eMRTD (ICAO 9303 part 10): for
//! each file its short name, outer tag, file identifier and access class.

use vstd::prelude::*;

verus! {

/// The elementary files that this library knows.
#[derive(Debug, Clone, Copy, PartialEq, Eq, Structural)]
pub enum DataGroupEnum {
    EFCom,
    EFCardAccess,
    EFCardSecurity,
    EFAtrInfo,
    EFDir,
    EFDG1,
    EFDG2,
    EFDG3,
    EFDG4,
    EFDG5,
    EFDG6,
    EFDG7,
    EFDG8,
    EFDG9,
    EFDG10,
    EFDG11,
    EFDG12,
    EFDG13,
    EFDG14,
    EFDG15,
    EFDG16,
    EFSod,
}

/// The descriptor of one elementary file.
#[derive(Debug, Clone, Copy)]
pub struct DataGroup {
    pub id: DataGroupEnum,
    /// Short name, such as `EF.COM` or `EF.DG1`.
    pub name: &'static str,
    /// The outer BER-TLV tag; `0xFF` for files without an outer template.
    pub tag: u8,
    /// The short file identifier used with SELECT FILE.
    pub file_id: u16,
    pub description: &'static str,
    /// Readable only after PACE.
    pub pace_only: bool,
    /// Readable only after Extended Access Control.
    pub eac_only: bool,
    /// Lives under the LDS1 applet rather than the master file.
    pub in_lds1: bool,
    /// Its value is opaque bytes, worth reading only to store them.
    pub is_binary: bool,
}

pub open spec fn dg_tag(id: DataGroupEnum) -> u8 {
    match id {
        DataGroupEnum::EFCom => 0x60,
        DataGroupEnum::EFCardAccess => 0xFF,
        DataGroupEnum::EFCardSecurity => 0xFF,
        DataGroupEnum::EFAtrInfo => 0xFF,
        DataGroupEnum::EFDir => 0xFF,
        DataGroupEnum::EFDG1 => 0x61,
        DataGroupEnum::EFDG2 => 0x75,
        DataGroupEnum::EFDG3 => 0x63,
        DataGroupEnum::EFDG4 => 0x76,
        DataGroupEnum::EFDG5 => 0x65,
        DataGroupEnum::EFDG6 => 0x66,
        DataGroupEnum::EFDG7 => 0x67,
        DataGroupEnum::EFDG8 => 0x68,
        DataGroupEnum::EFDG9 => 0x69,
        DataGroupEnum::EFDG10 => 0x6A,
        DataGroupEnum::EFDG11 => 0x6B,
        DataGroupEnum::EFDG12 => 0x6C,
        DataGroupEnum::EFDG13 => 0x6D,
        DataGroupEnum::EFDG14 => 0x6E,
        DataGroupEnum::EFDG15 => 0x6F,
        DataGroupEnum::EFDG16 => 0x70,
        DataGroupEnum::EFSod => 0x77,
    }
}

pub open spec fn dg_file_id(id: DataGroupEnum) -> u16 {
    match id {
        DataGroupEnum::EFCom => 0x011E,
        DataGroupEnum::EFCardAccess => 0x011C,
        DataGroupEnum::EFCardSecurity => 0x011D,
        DataGroupEnum::EFAtrInfo => 0x2F01,
        DataGroupEnum::EFDir => 0x2F00,
        DataGroupEnum::EFDG1 => 0x0101,
        DataGroupEnum::EFDG2 => 0x0102,
        DataGroupEnum::EFDG3 => 0x0103,
        DataGroupEnum::EFDG4 => 0x0104,
        DataGroupEnum::EFDG5 => 0x0105,
        DataGroupEnum::EFDG6 => 0x0106,
        DataGroupEnum::EFDG7 => 0x0107,
        DataGroupEnum::EFDG8 => 0x0108,
        DataGroupEnum::EFDG9 => 0x0109,
        DataGroupEnum::EFDG10 => 0x010A,
        DataGroupEnum::EFDG11 => 0x010B,
        DataGroupEnum::EFDG12 => 0x010C,
        DataGroupEnum::EFDG13 => 0x010D,
        DataGroupEnum::EFDG14 => 0x010E,
        DataGroupEnum::EFDG15 => 0x010F,
        DataGroupEnum::EFDG16 => 0x0110,
        DataGroupEnum::EFSod => 0x011D,
    }
}

pub open spec fn dg_pace_only(id: DataGroupEnum) -> bool {
    match id {
        DataGroupEnum::EFCom => false,
        DataGroupEnum::EFCardAccess => false,
        DataGroupEnum::EFCardSecurity => true,
        DataGroupEnum::EFAtrInfo => false,
        DataGroupEnum::EFDir => false,
        DataGroupEnum::EFDG1 => false,
        DataGroupEnum::EFDG2 => false,
        DataGroupEnum::EFDG3 => false,
        DataGroupEnum::EFDG4 => false,
        DataGroupEnum::EFDG5 => false,
        DataGroupEnum::EFDG6 => false,
        DataGroupEnum::EFDG7 => false,
        DataGroupEnum::EFDG8 => false,
        DataGroupEnum::EFDG9 => false,
        DataGroupEnum::EFDG10 => false,
        DataGroupEnum::EFDG11 => false,
        DataGroupEnum::EFDG12 => false,
        DataGroupEnum::EFDG13 => false,
        DataGroupEnum::EFDG14 => false,
        DataGroupEnum::EFDG15 => false,
        DataGroupEnum::EFDG16 => false,
        DataGroupEnum::EFSod => false,
    }
}

pub open spec fn dg_eac_only(id: DataGroupEnum) -> bool {
    match id {
        DataGroupEnum::EFCom => false,
        DataGroupEnum::EFCardAccess => false,
        DataGroupEnum::EFCardSecurity => false,
        DataGroupEnum::EFAtrInfo => false,
        DataGroupEnum::EFDir => false,
        DataGroupEnum::EFDG1 => false,
        DataGroupEnum::EFDG2 => false,
        DataGroupEnum::EFDG3 => true,
        DataGroupEnum::EFDG4 => true,
        DataGroupEnum::EFDG5 => false,
        DataGroupEnum::EFDG6 => false,
        DataGroupEnum::EFDG7 => false,
        DataGroupEnum::EFDG8 => false,
        DataGroupEnum::EFDG9 => false,
        DataGroupEnum::EFDG10 => false,
        DataGroupEnum::EFDG11 => false,
        DataGroupEnum::EFDG12 => false,
        DataGroupEnum::EFDG13 => false,
        DataGroupEnum::EFDG14 => false,
        DataGroupEnum::EFDG15 => false,
        DataGroupEnum::EFDG16 => false,
        DataGroupEnum::EFSod => false,
    }
}

pub open spec fn dg_in_lds1(id: DataGroupEnum) -> bool {
    match id {
        DataGroupEnum::EFCom => true,
        DataGroupEnum::EFCardAccess => false,
        DataGroupEnum::EFCardSecurity => false,
        DataGroupEnum::EFAtrInfo => false,
        DataGroupEnum::EFDir => false,
        DataGroupEnum::EFDG1 => true,
        DataGroupEnum::EFDG2 => true,
        DataGroupEnum::EFDG3 => true,
        DataGroupEnum::EFDG4 => true,
        DataGroupEnum::EFDG5 => true,
        DataGroupEnum::EFDG6 => true,
        DataGroupEnum::EFDG7 => true,
        DataGroupEnum::EFDG8 => true,
        DataGroupEnum::EFDG9 => true,
        DataGroupEnum::EFDG10 => true,
        DataGroupEnum::EFDG11 => true,
        DataGroupEnum::EFDG12 => true,
        DataGroupEnum::EFDG13 => true,
        DataGroupEnum::EFDG14 => true,
        DataGroupEnum::EFDG15 => true,
        DataGroupEnum::EFDG16 => true,
        DataGroupEnum::EFSod => true,
    }
}

pub open spec fn dg_is_binary(id: DataGroupEnum) -> bool {
    match id {
        DataGroupEnum::EFCom => false,
        DataGroupEnum::EFCardAccess => true,
        DataGroupEnum::EFCardSecurity => true,
        DataGroupEnum::EFAtrInfo => true,
        DataGroupEnum::EFDir => true,
        DataGroupEnum::EFDG1 => false,
        DataGroupEnum::EFDG2 => false,
        DataGroupEnum::EFDG3 => true,
        DataGroupEnum::EFDG4 => true,
        DataGroupEnum::EFDG5 => false,
        DataGroupEnum::EFDG6 => true,
        DataGroupEnum::EFDG7 => false,
        DataGroupEnum::EFDG8 => true,
        DataGroupEnum::EFDG9 => true,
        DataGroupEnum::EFDG10 => true,
        DataGroupEnum::EFDG11 => false,
        DataGroupEnum::EFDG12 => false,
        DataGroupEnum::EFDG13 => true,
        DataGroupEnum::EFDG14 => true,
        DataGroupEnum::EFDG15 => true,
        DataGroupEnum::EFDG16 => true,
        DataGroupEnum::EFSod => true,
    }
}

/// Every file of the catalog, in catalog order.
pub open spec fn all_data_groups() -> Seq<DataGroupEnum> {
    seq![DataGroupEnum::EFCom, DataGroupEnum::EFCardAccess, DataGroupEnum::EFCardSecurity, DataGroupEnum::EFAtrInfo, DataGroupEnum::EFDir, DataGroupEnum::EFDG1, DataGroupEnum::EFDG2, DataGroupEnum::EFDG3, DataGroupEnum::EFDG4, DataGroupEnum::EFDG5, DataGroupEnum::EFDG6, DataGroupEnum::EFDG7, DataGroupEnum::EFDG8, DataGroupEnum::EFDG9, DataGroupEnum::EFDG10, DataGroupEnum::EFDG11, DataGroupEnum::EFDG12, DataGroupEnum::EFDG13, DataGroupEnum::EFDG14, DataGroupEnum::EFDG15, DataGroupEnum::EFDG16, DataGroupEnum::EFSod]
}

impl DataGroupEnum {
    /// The descriptor of this file.
    pub fn info(&self) -> (r: DataGroup)
        ensures
            r.id == *self,
            r.tag == dg_tag(*self),
            r.file_id == dg_file_id(*self),
            r.pace_only == dg_pace_only(*self),
            r.eac_only == dg_eac_only(*self),
            r.in_lds1 == dg_in_lds1(*self),
            r.is_binary == dg_is_binary(*self),
    {
        match self {
            DataGroupEnum::EFCom => DataGroup {
                id: DataGroupEnum::EFCom,
                name: "EF.COM",
                tag: 0x60,
                file_id: 0x011E,
                description: "Common data (version and list of data groups)",
                pace_only: false,
                eac_only: false,
                in_lds1: true,
                is_binary: false,
            },
            DataGroupEnum::EFCardAccess => DataGroup {
                id: DataGroupEnum::EFCardAccess,
                name: "EF.CardAccess",
                tag: 0xFF,
                file_id: 0x011C,
                description: "Security infos for PACE",
                pace_only: false,
                eac_only: false,
                in_lds1: false,
                is_binary: true,
            },
            DataGroupEnum::EFCardSecurity => DataGroup {
                id: DataGroupEnum::EFCardSecurity,
                name: "EF.CardSecurity",
                tag: 0xFF,
                file_id: 0x011D,
                description: "Security infos for chip authentication",
                pace_only: true,
                eac_only: false,
                in_lds1: false,
                is_binary: true,
            },
            DataGroupEnum::EFAtrInfo => DataGroup {
                id: DataGroupEnum::EFAtrInfo,
                name: "EF.ATR/INFO",
                tag: 0xFF,
                file_id: 0x2F01,
                description: "Answer to reset information",
                pace_only: false,
                eac_only: false,
                in_lds1: false,
                is_binary: true,
            },
            DataGroupEnum::EFDir => DataGroup {
                id: DataGroupEnum::EFDir,
                name: "EF.DIR",
                tag: 0xFF,
                file_id: 0x2F00,
                description: "List of applications",
                pace_only: false,
                eac_only: false,
                in_lds1: false,
                is_binary: true,
            },
            DataGroupEnum::EFDG1 => DataGroup {
                id: DataGroupEnum::EFDG1,
                name: "EF.DG1",
                tag: 0x61,
                file_id: 0x0101,
                description: "Details recorded in the MRZ",
                pace_only: false,
                eac_only: false,
                in_lds1: true,
                is_binary: false,
            },
            DataGroupEnum::EFDG2 => DataGroup {
                id: DataGroupEnum::EFDG2,
                name: "EF.DG2",
                tag: 0x75,
                file_id: 0x0102,
                description: "Encoded face",
                pace_only: false,
                eac_only: false,
                in_lds1: true,
                is_binary: false,
            },
            DataGroupEnum::EFDG3 => DataGroup {
                id: DataGroupEnum::EFDG3,
                name: "EF.DG3",
                tag: 0x63,
                file_id: 0x0103,
                description: "Encoded fingers",
                pace_only: false,
                eac_only: true,
                in_lds1: true,
                is_binary: true,
            },
            DataGroupEnum::EFDG4 => DataGroup {
                id: DataGroupEnum::EFDG4,
                name: "EF.DG4",
                tag: 0x76,
                file_id: 0x0104,
                description: "Encoded irises",
                pace_only: false,
                eac_only: true,
                in_lds1: true,
                is_binary: true,
            },
            DataGroupEnum::EFDG5 => DataGroup {
                id: DataGroupEnum::EFDG5,
                name: "EF.DG5",
                tag: 0x65,
                file_id: 0x0105,
                description: "Displayed portrait",
                pace_only: false,
                eac_only: false,
                in_lds1: true,
                is_binary: false,
            },
            DataGroupEnum::EFDG6 => DataGroup {
                id: DataGroupEnum::EFDG6,
                name: "EF.DG6",
                tag: 0x66,
                file_id: 0x0106,
                description: "Reserved for future use",
                pace_only: false,
                eac_only: false,
                in_lds1: true,
                is_binary: true,
            },
            DataGroupEnum::EFDG7 => DataGroup {
                id: DataGroupEnum::EFDG7,
                name: "EF.DG7",
                tag: 0x67,
                file_id: 0x0107,
                description: "Displayed signature or usual mark",
                pace_only: false,
                eac_only: false,
                in_lds1: true,
                is_binary: false,
            },
            DataGroupEnum::EFDG8 => DataGroup {
                id: DataGroupEnum::EFDG8,
                name: "EF.DG8",
                tag: 0x68,
                file_id: 0x0108,
                description: "Data features",
                pace_only: false,
                eac_only: false,
                in_lds1: true,
                is_binary: true,
            },
            DataGroupEnum::EFDG9 => DataGroup {
                id: DataGroupEnum::EFDG9,
                name: "EF.DG9",
                tag: 0x69,
                file_id: 0x0109,
                description: "Structure features",
                pace_only: false,
                eac_only: false,
                in_lds1: true,
                is_binary: true,
            },
            DataGroupEnum::EFDG10 => DataGroup {
                id: DataGroupEnum::EFDG10,
                name: "EF.DG10",
                tag: 0x6A,
                file_id: 0x010A,
                description: "Substance features",
                pace_only: false,
                eac_only: false,
                in_lds1: true,
                is_binary: true,
            },
            DataGroupEnum::EFDG11 => DataGroup {
                id: DataGroupEnum::EFDG11,
                name: "EF.DG11",
                tag: 0x6B,
                file_id: 0x010B,
                description: "Additional personal details",
                pace_only: false,
                eac_only: false,
                in_lds1: true,
                is_binary: false,
            },
            DataGroupEnum::EFDG12 => DataGroup {
                id: DataGroupEnum::EFDG12,
                name: "EF.DG12",
                tag: 0x6C,
                file_id: 0x010C,
                description: "Additional document details",
                pace_only: false,
                eac_only: false,
                in_lds1: true,
                is_binary: false,
            },
            DataGroupEnum::EFDG13 => DataGroup {
                id: DataGroupEnum::EFDG13,
                name: "EF.DG13",
                tag: 0x6D,
                file_id: 0x010D,
                description: "Optional details",
                pace_only: false,
                eac_only: false,
                in_lds1: true,
                is_binary: true,
            },
            DataGroupEnum::EFDG14 => DataGroup {
                id: DataGroupEnum::EFDG14,
                name: "EF.DG14",
                tag: 0x6E,
                file_id: 0x010E,
                description: "Security options",
                pace_only: false,
                eac_only: false,
                in_lds1: true,
                is_binary: true,
            },
            DataGroupEnum::EFDG15 => DataGroup {
                id: DataGroupEnum::EFDG15,
                name: "EF.DG15",
                tag: 0x6F,
                file_id: 0x010F,
                description: "Active authentication public key info",
                pace_only: false,
                eac_only: false,
                in_lds1: true,
                is_binary: true,
            },
            DataGroupEnum::EFDG16 => DataGroup {
                id: DataGroupEnum::EFDG16,
                name: "EF.DG16",
                tag: 0x70,
                file_id: 0x0110,
                description: "Persons to notify",
                pace_only: false,
                eac_only: false,
                in_lds1: true,
                is_binary: true,
            },
            DataGroupEnum::EFSod => DataGroup {
                id: DataGroupEnum::EFSod,
                name: "EF.SOD",
                tag: 0x77,
                file_id: 0x011D,
                description: "Document security object",
                pace_only: false,
                eac_only: false,
                in_lds1: true,
                is_binary: true,
            },
        }
    }
}

/// Every file of the catalog, in catalog order.
pub fn data_groups() -> (r: Vec<DataGroupEnum>)
    ensures
        r@ == all_data_groups(),
{
    let mut v: Vec<DataGroupEnum> = Vec::new();
    v.push(DataGroupEnum::EFCom);
    v.push(DataGroupEnum::EFCardAccess);
    v.push(DataGroupEnum::EFCardSecurity);
    v.push(DataGroupEnum::EFAtrInfo);
    v.push(DataGroupEnum::EFDir);
    v.push(DataGroupEnum::EFDG1);
    v.push(DataGroupEnum::EFDG2);
    v.push(DataGroupEnum::EFDG3);
    v.push(DataGroupEnum::EFDG4);
    v.push(DataGroupEnum::EFDG5);
    v.push(DataGroupEnum::EFDG6);
    v.push(DataGroupEnum::EFDG7);
    v.push(DataGroupEnum::EFDG8);
    v.push(DataGroupEnum::EFDG9);
    v.push(DataGroupEnum::EFDG10);
    v.push(DataGroupEnum::EFDG11);
    v.push(DataGroupEnum::EFDG12);
    v.push(DataGroupEnum::EFDG13);
    v.push(DataGroupEnum::EFDG14);
    v.push(DataGroupEnum::EFDG15);
    v.push(DataGroupEnum::EFDG16);
    v.push(DataGroupEnum::EFSod);
    assert(v@ =~= all_data_groups());
    v
}

} // verus!
