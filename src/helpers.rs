//! Reading elementary files and the order in which a document is read.

use vstd::prelude::*;

use crate::data_groups::{
    all_data_groups, data_groups, dg_in_lds1, dg_is_binary, dg_pace_only, dg_tag, DataGroup,
    DataGroupEnum,
};
use crate::dg_parsers::{ef_com, ef_dg1, ef_dg11, ef_dg12, ef_dg2, ef_dg5, ef_dg7, generic};
use crate::icao9303::{do_authentication, BacError, AID_MRTD_LDS1};
use crate::iso7816::{apdu_select_file_by_name, select_and_read_file, ExchangeError};
use crate::parsed_data_groups::{EFCom, ParsedDataGroup};
use crate::smartcard::Smartcard;

verus! {

/// What decoding a file gives: the result of the parser for its kind; files
/// without a decoder give none.
pub open spec fn data_group_parsed(data: Seq<u8>, dg_info: DataGroup, r: Option<ParsedDataGroup>) -> bool {
    match dg_info.id {
        DataGroupEnum::EFCom => ef_com::parsed_as(data, dg_info.tag, r),
        DataGroupEnum::EFDG1 => ef_dg1::parsed_as(data, dg_info.tag, r),
        DataGroupEnum::EFDG2 => ef_dg2::parsed_as(data, dg_info.tag, r),
        DataGroupEnum::EFDG5 => ef_dg5::parsed_as(data, dg_info.tag, r),
        DataGroupEnum::EFDG7 => ef_dg7::parsed_as(data, dg_info.tag, r),
        DataGroupEnum::EFDG11 => ef_dg11::parsed_as(data, dg_info.tag, r),
        DataGroupEnum::EFDG12 => ef_dg12::parsed_as(data, dg_info.tag, r),
        _ => r is None,
    }
}

/// Decodes a file with the parser for its kind; files without a decoder give
/// none.
pub fn parse_data_group(data: &Vec<u8>, dg_info: &DataGroup) -> (r: Option<ParsedDataGroup>)
    ensures
        data_group_parsed(data@, *dg_info, r),
{
    match dg_info.id {
        DataGroupEnum::EFCom => ef_com::parser(data, dg_info),
        DataGroupEnum::EFDG1 => ef_dg1::parser(data, dg_info),
        DataGroupEnum::EFDG2 => ef_dg2::parser(data, dg_info),
        DataGroupEnum::EFDG5 => ef_dg5::parser(data, dg_info),
        DataGroupEnum::EFDG7 => ef_dg7::parser(data, dg_info),
        DataGroupEnum::EFDG11 => ef_dg11::parser(data, dg_info),
        DataGroupEnum::EFDG12 => ef_dg12::parser(data, dg_info),
        _ => generic::parser(data, dg_info),
    }
}

/// Selects, reads and decodes a file, under Secure Messaging when
/// `secure_comms` is set. Returns the bytes read (none when the file is not
/// there) and what they decode to.
pub fn secure_read_file<C: Smartcard>(
    smartcard: &mut C,
    dg_info: &DataGroup,
    secure_comms: bool,
    ssc: &mut u64,
    ks_enc: &Vec<u8>,
    ks_mac: &Vec<u8>,
) -> (r: Result<(Option<Vec<u8>>, Option<ParsedDataGroup>), ExchangeError>)
    requires
        secure_comms ==> ks_enc@.len() == 16 && ks_mac@.len() == 16,
    ensures
        r matches Ok((None, p)) ==> p is None,
        r matches Ok((Some(d), _)) ==> d@.len() > 0,
        r matches Ok((Some(d), p)) ==> data_group_parsed(d@, *dg_info, p),
        !secure_comms ==> *final(ssc) == *old(ssc),
        secure_comms ==> *final(ssc) >= *old(ssc),
{
    let file_read = match select_and_read_file(
        smartcard,
        dg_info,
        secure_comms,
        ssc,
        ks_enc.as_slice(),
        ks_mac.as_slice(),
    ) {
        Ok(f) => f,
        Err(e) => return Err(e),
    };
    match file_read {
        Some(data) => {
            let parsed = parse_data_group(&data, dg_info);
            Ok((Some(data), parsed))
        },
        None => Ok((None, None)),
    }
}

/// Selects, reads and decodes a file without Secure Messaging.
pub fn read_file<C: Smartcard>(smartcard: &mut C, dg_info: &DataGroup) -> (r: Result<
    (Option<Vec<u8>>, Option<ParsedDataGroup>),
    ExchangeError,
>)
    ensures
        r matches Ok((None, p)) ==> p is None,
{
    let mut ssc: u64 = 0;
    let no_key: Vec<u8> = Vec::new();
    secure_read_file(smartcard, dg_info, false, &mut ssc, &no_key, &no_key)
}

/// Selects, reads and decodes a file of the catalog, under Secure Messaging
/// when `secure_comms` is set; returns its descriptor too.
pub fn secure_read_file_by_name<C: Smartcard>(
    smartcard: &mut C,
    file: DataGroupEnum,
    secure_comms: bool,
    ssc: &mut u64,
    ks_enc: &Vec<u8>,
    ks_mac: &Vec<u8>,
) -> (r: Result<(DataGroup, Option<Vec<u8>>, Option<ParsedDataGroup>), ExchangeError>)
    requires
        secure_comms ==> ks_enc@.len() == 16 && ks_mac@.len() == 16,
    ensures
        r matches Ok(x) ==> x.0.id == file,
        !secure_comms ==> *final(ssc) == *old(ssc),
        secure_comms ==> *final(ssc) >= *old(ssc),
{
    let dg_info = file.info();
    match secure_read_file(smartcard, &dg_info, secure_comms, ssc, ks_enc, ks_mac) {
        Ok((data, parsed)) => Ok((dg_info, data, parsed)),
        Err(e) => Err(e),
    }
}

/// Selects, reads and decodes a file of the catalog without Secure
/// Messaging; returns its descriptor too.
pub fn read_file_by_name<C: Smartcard>(smartcard: &mut C, file: DataGroupEnum) -> (r: Result<
    (DataGroup, Option<Vec<u8>>, Option<ParsedDataGroup>),
    ExchangeError,
>)
    ensures
        r matches Ok(x) ==> x.0.id == file,
{
    let mut ssc: u64 = 0;
    let no_key: Vec<u8> = Vec::new();
    secure_read_file_by_name(smartcard, file, false, &mut ssc, &no_key, &no_key)
}

/// Whether a file under the master file is read before authentication:
/// every one but EF.CardAccess (read first, on its own), and the PACE-only
/// ones only when the document offers PACE.
pub open spec fn master_file_selected(id: DataGroupEnum, pace_available: bool) -> bool {
    id != DataGroupEnum::EFCardAccess && !dg_in_lds1(id) && (!dg_pace_only(id) || pace_available)
}

/// Whether a file under the LDS1 applet is read after EF.COM: its tag is in
/// EF.COM's list, it is not PACE-only, and opaque files only when they are
/// to be stored.
pub open spec fn lds1_selected(id: DataGroupEnum, tag_list: Seq<u8>, dump: bool) -> bool {
    &&& id != DataGroupEnum::EFCom
    &&& dg_in_lds1(id)
    &&& !dg_pace_only(id)
    &&& !dg_is_binary(id) || dump
    &&& tag_list.contains(dg_tag(id))
}

pub open spec fn master_file_selection(s: Seq<DataGroupEnum>, pace_available: bool) -> Seq<
    DataGroupEnum,
>
    decreases s.len(),
{
    if s.len() == 0 {
        Seq::empty()
    } else if master_file_selected(s.last(), pace_available) {
        master_file_selection(s.drop_last(), pace_available).push(s.last())
    } else {
        master_file_selection(s.drop_last(), pace_available)
    }
}

pub open spec fn lds1_selection(s: Seq<DataGroupEnum>, tag_list: Seq<u8>, dump: bool) -> Seq<
    DataGroupEnum,
>
    decreases s.len(),
{
    if s.len() == 0 {
        Seq::empty()
    } else if lds1_selected(s.last(), tag_list, dump) {
        lds1_selection(s.drop_last(), tag_list, dump).push(s.last())
    } else {
        lds1_selection(s.drop_last(), tag_list, dump)
    }
}

fn contains_byte(list: &Vec<u8>, b: u8) -> (r: bool)
    ensures
        r == list@.contains(b),
{
    let mut i: usize = 0;
    while i < list.len()
        invariant
            i <= list@.len(),
            forall|k: int| 0 <= k < i ==> list@[k] != b,
        decreases list.len() - i,
    {
        if list[i] == b {
            assert(list@[i as int] == b);
            return true;
        }
        i = i + 1;
    }
    false
}

/// The files under the master file to read before authentication, in
/// catalog order.
pub fn master_files_to_read(pace_available: bool) -> (r: Vec<DataGroupEnum>)
    ensures
        r@ == master_file_selection(all_data_groups(), pace_available),
{
    let all = data_groups();
    let mut out: Vec<DataGroupEnum> = Vec::new();
    let mut i: usize = 0;
    while i < all.len()
        invariant
            i <= all@.len(),
            all@ == all_data_groups(),
            out@ == master_file_selection(all@.subrange(0, i as int), pace_available),
        decreases all.len() - i,
    {
        assert(all@.subrange(0, i + 1).drop_last() =~= all@.subrange(0, i as int));
        let id = all[i];
        let info = id.info();
        if id != DataGroupEnum::EFCardAccess && !info.in_lds1 && (!info.pace_only
            || pace_available) {
            out.push(id);
        }
        i = i + 1;
    }
    assert(all@.subrange(0, all@.len() as int) =~= all@);
    out
}

/// The files under the LDS1 applet to read after EF.COM, in catalog order.
pub fn lds1_files_to_read(tag_list: &Vec<u8>, dump: bool) -> (r: Vec<DataGroupEnum>)
    ensures
        r@ == lds1_selection(all_data_groups(), tag_list@, dump),
{
    let all = data_groups();
    let mut out: Vec<DataGroupEnum> = Vec::new();
    let mut i: usize = 0;
    while i < all.len()
        invariant
            i <= all@.len(),
            all@ == all_data_groups(),
            out@ == lds1_selection(all@.subrange(0, i as int), tag_list@, dump),
        decreases all.len() - i,
    {
        assert(all@.subrange(0, i + 1).drop_last() =~= all@.subrange(0, i as int));
        let id = all[i];
        let info = id.info();
        if id != DataGroupEnum::EFCom && info.in_lds1 && !info.pace_only && (!info.is_binary
            || dump) && contains_byte(tag_list, info.tag) {
            out.push(id);
        }
        i = i + 1;
    }
    assert(all@.subrange(0, all@.len() as int) =~= all@);
    out
}

proof fn lemma_lds1_selection_members(s: Seq<DataGroupEnum>, tag_list: Seq<u8>, dump: bool)
    ensures
        forall|id: DataGroupEnum|
            lds1_selection(s, tag_list, dump).contains(id) <==> s.contains(id) && lds1_selected(
                id,
                tag_list,
                dump,
            ),
    decreases s.len(),
{
    if s.len() > 0 {
        let p = s.drop_last();
        lemma_lds1_selection_members(p, tag_list, dump);
        assert forall|id: DataGroupEnum|
            lds1_selection(s, tag_list, dump).contains(id) <==> s.contains(id) && lds1_selected(
                id,
                tag_list,
                dump,
            ) by {
            assert(s =~= p.push(s.last()));
            if s.contains(id) && id != s.last() {
                let k = choose|k: int| 0 <= k < s.len() && s[k] == id;
                assert(p[k] == id);
            }
            if lds1_selected(s.last(), tag_list, dump) {
                let q = lds1_selection(p, tag_list, dump);
                assert(lds1_selection(s, tag_list, dump) == q.push(s.last()));
                if q.contains(id) {
                    let k = choose|k: int| 0 <= k < q.len() && q[k] == id;
                    assert(q.push(s.last())[k] == id);
                }
                if q.push(s.last()).contains(id) && id != s.last() {
                    let k = choose|k: int| 0 <= k < q.len() + 1 && q.push(s.last())[k] == id;
                    assert(q[k] == id);
                }
                assert(q.push(s.last())[q.len() as int] == s.last());
            }
            if p.contains(id) {
                let k = choose|k: int| 0 <= k < p.len() && p[k] == id;
                assert(s[k] == id);
            }
            assert(s[s.len() - 1] == s.last());
        }
    }
}

/// After EF.COM, a file of the catalog is read exactly when its tag is in
/// EF.COM's data group list and the access rules allow it: no file whose tag
/// the list lacks is read, and every listed one that may be read is.
pub proof fn lemma_lds1_reads_listed_files(tag_list: Seq<u8>, dump: bool, id: DataGroupEnum)
    requires
        all_data_groups().contains(id),
    ensures
        lds1_selection(all_data_groups(), tag_list, dump).contains(id) <==> tag_list.contains(
            dg_tag(id),
        ) && id != DataGroupEnum::EFCom && dg_in_lds1(id) && !dg_pace_only(id) && (!dg_is_binary(
            id,
        ) || dump),
{
    lemma_lds1_selection_members(all_data_groups(), tag_list, dump);
}


/// One file as read: its descriptor, its bytes (none when it is not there)
/// and what they decode to.
#[derive(Debug)]
pub struct FileRead {
    pub dg_info: DataGroup,
    pub data: Option<Vec<u8>>,
    pub parsed: Option<ParsedDataGroup>,
}

/// Reads the given files one after another, in order.
pub fn read_files<C: Smartcard>(
    smartcard: &mut C,
    files: &Vec<DataGroupEnum>,
    secure_comms: bool,
    ssc: &mut u64,
    ks_enc: &Vec<u8>,
    ks_mac: &Vec<u8>,
) -> (r: Result<Vec<FileRead>, ExchangeError>)
    requires
        secure_comms ==> ks_enc@.len() == 16 && ks_mac@.len() == 16,
    ensures
        r matches Ok(v) ==> v@.len() == files@.len() && forall|i: int|
            0 <= i < files@.len() ==> (#[trigger] v@[i]).dg_info.id == files@[i],
        !secure_comms ==> *final(ssc) == *old(ssc),
        secure_comms ==> *final(ssc) >= *old(ssc),
{
    let mut out: Vec<FileRead> = Vec::new();
    let mut i: usize = 0;
    while i < files.len()
        invariant
            i <= files@.len(),
            out@.len() == i,
            forall|k: int| 0 <= k < i ==> (#[trigger] out@[k]).dg_info.id == files@[k],
            secure_comms ==> ks_enc@.len() == 16 && ks_mac@.len() == 16,
            !secure_comms ==> *ssc == *old(ssc),
            secure_comms ==> *ssc >= *old(ssc),
        decreases files.len() - i,
    {
        let dg_info = files[i].info();
        let (data, parsed) = match secure_read_file(
            smartcard,
            &dg_info,
            secure_comms,
            ssc,
            ks_enc,
            ks_mac,
        ) {
            Ok(x) => x,
            Err(e) => return Err(e),
        };
        out.push(FileRead { dg_info, data, parsed });
        i = i + 1;
    }
    Ok(out)
}

/// Reads the files under the master file before authentication: every one
/// but EF.CardAccess, and the PACE-only ones only when PACE is available.
pub fn read_master_files<C: Smartcard>(smartcard: &mut C, pace_available: bool) -> (r: Result<
    Vec<FileRead>,
    ExchangeError,
>)
    ensures
        r matches Ok(v) ==> v@.len() == master_file_selection(all_data_groups(), pace_available).len()
            && forall|i: int|
            0 <= i < v@.len() ==> (#[trigger] v@[i]).dg_info.id == master_file_selection(
                all_data_groups(),
                pace_available,
            )[i],
{
    let files = master_files_to_read(pace_available);
    let mut ssc: u64 = 0;
    let no_key: Vec<u8> = Vec::new();
    read_files(smartcard, &files, false, &mut ssc, &no_key, &no_key)
}

/// Reads the files under the LDS1 applet under Secure Messaging after
/// EF.COM: exactly those whose tag EF.COM lists and that the access rules
/// allow, opaque ones only when `dump` is set.
pub fn read_lds1_files<C: Smartcard>(
    smartcard: &mut C,
    ef_com: &EFCom,
    dump: bool,
    ssc: &mut u64,
    ks_enc: &Vec<u8>,
    ks_mac: &Vec<u8>,
) -> (r: Result<Vec<FileRead>, ExchangeError>)
    requires
        ks_enc@.len() == 16,
        ks_mac@.len() == 16,
    ensures
        r matches Ok(v) ==> v@.len() == lds1_selection(
            all_data_groups(),
            ef_com.data_group_tag_list@,
            dump,
        ).len() && forall|i: int|
            0 <= i < v@.len() ==> (#[trigger] v@[i]).dg_info.id == lds1_selection(
                all_data_groups(),
                ef_com.data_group_tag_list@,
                dump,
            )[i],
        *final(ssc) >= *old(ssc),
{
    let files = lds1_files_to_read(&ef_com.data_group_tag_list, dump);
    read_files(smartcard, &files, true, ssc, ks_enc, ks_mac)
}


/// Why reading a document stopped.
#[derive(Debug, Clone, Copy, PartialEq, Eq, Structural)]
pub enum ReadError {
    /// An exchange with the card failed.
    Exchange(ExchangeError),
    /// Basic Access Control failed.
    Authentication(BacError),
    /// EF.COM could not be read or decoded, so the data groups are unknown.
    MissingEfCom,
}

/// Everything read from a document.
#[derive(Debug)]
pub struct DocumentRead {
    /// EF.CardAccess; when it is there, the document offers PACE.
    pub card_access: FileRead,
    /// The other files under the master file.
    pub master_files: Vec<FileRead>,
    pub ef_com: FileRead,
    /// The files under the LDS1 applet that EF.COM lists.
    pub lds1_files: Vec<FileRead>,
}

fn lds1_aid() -> (r: Vec<u8>)
    ensures
        r@ == AID_MRTD_LDS1@,
{
    let mut v: Vec<u8> = Vec::new();
    let mut i: usize = 0;
    while i < 7
        invariant
            i <= 7,
            v@ =~= AID_MRTD_LDS1@.subrange(0, i as int),
        decreases 7 - i,
    {
        v.push(AID_MRTD_LDS1[i]);
        i = i + 1;
    }
    v
}

/// Reads a document: EF.CardAccess (whether PACE is offered), the other
/// files under the master file, then the LDS1 applet is selected, BAC is
/// run with the MRZ data, and EF.COM and the data groups it lists are read
/// under Secure Messaging. Opaque files are read only when `dump` is set.
pub fn read_document<C: Smartcard>(
    smartcard: &mut C,
    document_number: &String,
    date_of_birth: &String,
    date_of_expiry: &String,
    dump: bool,
) -> (r: Result<DocumentRead, ReadError>)
    ensures
        r matches Ok(d) ==> {
            &&& d.card_access.dg_info.id == DataGroupEnum::EFCardAccess
            &&& d.master_files@.len() == master_file_selection(
                all_data_groups(),
                d.card_access.data is Some,
            ).len()
            &&& forall|i: int|
                0 <= i < d.master_files@.len() ==> (#[trigger] d.master_files@[i]).dg_info.id
                    == master_file_selection(all_data_groups(), d.card_access.data is Some)[i]
            &&& d.ef_com.dg_info.id == DataGroupEnum::EFCom
            &&& d.ef_com.parsed matches Some(ParsedDataGroup::EFCom(c)) && d.lds1_files@.len()
                == lds1_selection(all_data_groups(), c.data_group_tag_list@, dump).len()
                && forall|i: int|
                0 <= i < d.lds1_files@.len() ==> (#[trigger] d.lds1_files@[i]).dg_info.id
                    == lds1_selection(all_data_groups(), c.data_group_tag_list@, dump)[i]
        },
{
    let (info, data, parsed) = match read_file_by_name(smartcard, DataGroupEnum::EFCardAccess) {
        Ok(x) => x,
        Err(e) => return Err(ReadError::Exchange(e)),
    };
    let pace_available = data.is_some();
    let card_access = FileRead { dg_info: info, data, parsed };
    let master_files = match read_master_files(smartcard, pace_available) {
        Ok(f) => f,
        Err(e) => return Err(ReadError::Exchange(e)),
    };
    let mut select = apdu_select_file_by_name(lds1_aid());
    match select.exchange(smartcard, true) {
        Ok(_) => {},
        Err(e) => return Err(ReadError::Exchange(e)),
    }
    let (ks_enc, ks_mac, mut ssc) = match do_authentication(
        pace_available,
        smartcard,
        document_number,
        date_of_birth,
        date_of_expiry,
    ) {
        Ok(k) => k,
        Err(e) => return Err(ReadError::Authentication(e)),
    };
    let (info, data, parsed) = match secure_read_file_by_name(
        smartcard,
        DataGroupEnum::EFCom,
        true,
        &mut ssc,
        &ks_enc,
        &ks_mac,
    ) {
        Ok(x) => x,
        Err(e) => return Err(ReadError::Exchange(e)),
    };
    let ef_com = match &parsed {
        Some(ParsedDataGroup::EFCom(c)) => c,
        _ => return Err(ReadError::MissingEfCom),
    };
    let lds1_files = match read_lds1_files(smartcard, ef_com, dump, &mut ssc, &ks_enc, &ks_mac) {
        Ok(f) => f,
        Err(e) => return Err(ReadError::Exchange(e)),
    };
    Ok(
        DocumentRead {
            card_access,
            master_files,
            ef_com: FileRead { dg_info: info, data, parsed },
            lds1_files,
        },
    )
}

} // verus!
