//! The Machine Readable Zone of EF.DG1: TD1 (ID cards, 90 characters) and
//! TD3 (passports, 88 characters), with their check digits.

use vstd::prelude::*;
use vstd::string::*;

use crate::icao9303::{calculate_check_digit, check_digit_of};
use crate::smartcard::str_equal;

verus! {

/// `s` without its trailing filler characters `<`.
pub open spec fn strip_filler(s: Seq<char>) -> Seq<char>
    decreases s.len(),
{
    if s.len() > 0 && s.last() == '<' {
        strip_filler(s.drop_last())
    } else {
        s
    }
}

/// The index of the first filler `<` in `s`, or its length when there is none.
pub open spec fn first_filler(s: Seq<char>) -> nat
    decreases s.len(),
{
    if s.len() == 0 {
        0
    } else if s[0] == '<' {
        0
    } else {
        1 + first_filler(s.subrange(1, s.len() as int))
    }
}

fn strip_filler_str(text: &str) -> (r: String)
    ensures
        r@ == strip_filler(text@),
{
    let mut end = text.unicode_len();
    assert(text@.subrange(0, end as int) =~= text@);
    while end > 0 && text.get_char(end - 1) == '<'
        invariant
            end <= text@.len(),
            strip_filler(text@) == strip_filler(text@.subrange(0, end as int)),
        decreases end,
    {
        assert(text@.subrange(0, end as int).drop_last() =~= text@.subrange(0, end - 1));
        end = end - 1;
    }
    String::from_str(text.substring_char(0, end))
}

/// Removes the filler characters `<` at the end of a field.
pub fn remove_mrz_padding(text: &String) -> (r: String)
    ensures
        r@ == strip_filler(text@),
{
    strip_filler_str(text.as_str())
}

fn find_filler(text: &str) -> (r: usize)
    ensures
        r as nat == first_filler(text@),
        r <= text@.len(),
{
    let n = text.unicode_len();
    let mut i: usize = 0;
    assert(text@.subrange(0, n as int) =~= text@);
    while i < n && text.get_char(i) != '<'
        invariant
            i <= n,
            n == text@.len(),
            first_filler(text@) == i + first_filler(text@.subrange(i as int, n as int)),
        decreases n - i,
    {
        let ghost rest = text@.subrange(i as int, n as int);
        assert(rest.subrange(1, rest.len() as int) =~= text@.subrange(i + 1, n as int));
        i = i + 1;
    }
    if i == n {
        assert(text@.subrange(n as int, n as int).len() == 0);
    }
    i
}

/// The optional data of the upper TD1 line, without trailing fillers.
pub open spec fn td1_optional_raw(s: Seq<char>) -> Seq<char> {
    strip_filler(s.subrange(15, 30))
}

/// A filler in place of the document number check digit marks a document
/// number longer than 9 characters.
pub open spec fn td1_truncated(s: Seq<char>) -> bool {
    s[14] == '<'
}

/// Where the rest of a long document number ends in the optional data: its
/// check digit stands just before this index.
pub open spec fn td1_split(s: Seq<char>) -> nat {
    first_filler(td1_optional_raw(s))
}

/// A TD1 MRZ that can be read: 90 characters.
pub open spec fn td1_readable(s: Seq<char>) -> bool {
    s.len() == 90
}

/// A long document number whose remainder stands in the optional data: a
/// filler in place of the check digit, and the remainder's check digit
/// before the first filler of the optional data. With nothing before that
/// filler the remainder is empty and the filler stays as the check digit.
pub open spec fn td1_spliced(s: Seq<char>) -> bool {
    td1_truncated(s) && td1_split(s) > 0
}

pub open spec fn td1_document_number(s: Seq<char>) -> Seq<char> {
    if td1_spliced(s) {
        strip_filler(s.subrange(5, 14)) + td1_optional_raw(s).subrange(0, td1_split(s) - 1)
    } else {
        strip_filler(s.subrange(5, 14))
    }
}

pub open spec fn td1_document_number_check_digit(s: Seq<char>) -> char {
    if td1_spliced(s) {
        td1_optional_raw(s)[td1_split(s) - 1]
    } else {
        s[14]
    }
}

pub open spec fn td1_optional_line_1(s: Seq<char>) -> Seq<char> {
    let o = td1_optional_raw(s);
    if td1_truncated(s) {
        o.subrange(
            if td1_split(s) + 1 < o.len() {
                (td1_split(s) + 1) as int
            } else {
                o.len() as int
            },
            o.len() as int,
        )
    } else {
        o
    }
}

/// A TD1 MRZ (ICAO 9303 part 5): three lines of 30 characters.
#[derive(Debug, Clone, PartialEq)]
pub struct TD1Mrz {
    /// The 90 characters of the MRZ.
    pub raw_mrz: String,
    pub document_code: String,
    pub issuing_state: String,
    /// The whole document number, also when it is longer than 9 characters.
    pub document_number: String,
    pub document_number_check_digit: char,
    pub optional_data_elements_line_1: String,
    /// YYMMDD
    pub date_of_birth: String,
    pub date_of_birth_check_digit: char,
    /// `F`, `M`, or `<` for unspecified.
    pub sex: char,
    /// YYMMDD
    pub date_of_expiry: String,
    pub date_of_expiry_check_digit: char,
    pub nationality: String,
    pub optional_data_elements_line_2: String,
    pub composite_check_digit: char,
    pub name_of_holder: String,
}

/// The fields of a TD1 MRZ read from its characters.
pub open spec fn td1_fields_of(m: TD1Mrz, s: Seq<char>) -> bool {
    &&& m.raw_mrz@ == s
    &&& m.document_code@ == s.subrange(0, 2)
    &&& m.issuing_state@ == strip_filler(s.subrange(2, 5))
    &&& m.document_number@ == td1_document_number(s)
    &&& m.document_number_check_digit == td1_document_number_check_digit(s)
    &&& m.optional_data_elements_line_1@ == td1_optional_line_1(s)
    &&& m.date_of_birth@ == s.subrange(30, 36)
    &&& m.date_of_birth_check_digit == s[36]
    &&& m.sex == s[37]
    &&& m.date_of_expiry@ == s.subrange(38, 44)
    &&& m.date_of_expiry_check_digit == s[44]
    &&& m.nationality@ == strip_filler(s.subrange(45, 48))
    &&& m.optional_data_elements_line_2@ == strip_filler(s.subrange(48, 59))
    &&& m.composite_check_digit == s[59]
    &&& m.name_of_holder@ == fillers_to_spaces(strip_filler(s.subrange(60, 90)))
}

/// The characters the TD1 composite check digit is computed over: upper
/// line positions 6 to 30, middle line positions 1 to 7, 9 to 15 and 19 to 29.
pub open spec fn td1_composite_base(s: Seq<char>) -> Seq<char> {
    s.subrange(5, 30) + s.subrange(30, 37) + s.subrange(38, 45) + s.subrange(48, 59)
}

/// The results of checking a TD1 MRZ: document number, date of birth, date
/// of expiry and composite check digits.
pub open spec fn td1_check_results(m: TD1Mrz) -> Seq<bool> {
    seq![
        check_digit_of(m.document_number@) == m.document_number_check_digit,
        check_digit_of(m.date_of_birth@) == m.date_of_birth_check_digit,
        check_digit_of(m.date_of_expiry@) == m.date_of_expiry_check_digit,
        check_digit_of(td1_composite_base(m.raw_mrz@)) == m.composite_check_digit,
    ]
}

/// The check digits that TD1 and TD3 share: document number, date of
/// birth, date of expiry and composite.
pub trait MRZChecksum {
    /// Whether the MRZ text has the length of its size.
    spec fn well_sized(&self) -> bool;

    /// Whether each of the four check digits matches its field.
    spec fn common_check_results(&self) -> (bool, bool, bool, bool);

    /// Checks the document number, date of birth, date of expiry and
    /// composite check digits, in that order.
    fn calculate_common_checksums(&self) -> (r: (bool, bool, bool, bool))
        requires
            self.well_sized(),
        ensures
            r == self.common_check_results(),
    ;
}

impl MRZChecksum for TD1Mrz {
    open spec fn well_sized(&self) -> bool {
        self.raw_mrz@.len() == 90
    }

    open spec fn common_check_results(&self) -> (bool, bool, bool, bool) {
        let c = td1_check_results(*self);
        (c[0], c[1], c[2], c[3])
    }

    fn calculate_common_checksums(&self) -> (r: (bool, bool, bool, bool)) {
        let base = self.composite_base();
        (
            calculate_check_digit(&self.document_number) == self.document_number_check_digit,
            calculate_check_digit(&self.date_of_birth) == self.date_of_birth_check_digit,
            calculate_check_digit(&self.date_of_expiry) == self.date_of_expiry_check_digit,
            calculate_check_digit(&base) == self.composite_check_digit,
        )
    }
}

impl TD1Mrz {
    /// Reads a TD1 MRZ of 90 characters. When the document number check digit
    /// is a filler, the document number continues at the start of the
    /// optional data of the upper line, followed by its check digit and a
    /// filler; the two halves are joined and the optional data keeps what
    /// follows. The holder's name reads its fillers as spaces.
    pub fn deserialize(input: &String) -> (r: Option<TD1Mrz>)
        ensures
            r is Some <==> td1_readable(input@),
            r matches Some(m) ==> td1_fields_of(m, input@),
    {
        let s = input.as_str();
        if s.unicode_len() != 90 {
            return None;
        }
        let mut document_number = strip_filler_str(s.substring_char(5, 14));
        let mut check_digit = s.get_char(14);
        let mut optional = strip_filler_str(s.substring_char(15, 30));
        if check_digit == '<' {
            let o = optional.as_str();
            let e = find_filler(o);
            let len = o.unicode_len();
            if e > 0 {
                document_number = document_number.concat(o.substring_char(0, e - 1));
                check_digit = o.get_char(e - 1);
            }
            let from = if len - e > 1 {
                e + 1
            } else {
                len
            };
            let rest = String::from_str(o.substring_char(from, len));
            optional = rest;
        }
        Some(
            TD1Mrz {
                raw_mrz: String::from_str(s),
                document_code: String::from_str(s.substring_char(0, 2)),
                issuing_state: strip_filler_str(s.substring_char(2, 5)),
                document_number,
                document_number_check_digit: check_digit,
                optional_data_elements_line_1: optional,
                date_of_birth: String::from_str(s.substring_char(30, 36)),
                date_of_birth_check_digit: s.get_char(36),
                sex: s.get_char(37),
                date_of_expiry: String::from_str(s.substring_char(38, 44)),
                date_of_expiry_check_digit: s.get_char(44),
                nationality: strip_filler_str(s.substring_char(45, 48)),
                optional_data_elements_line_2: strip_filler_str(s.substring_char(48, 59)),
                composite_check_digit: s.get_char(59),
                name_of_holder: spaced_name(s.substring_char(60, 90)),
            },
        )
    }

    /// The characters the composite check digit is computed over.
    pub fn composite_base(&self) -> (r: String)
        requires
            self.raw_mrz@.len() == 90,
        ensures
            r@ == td1_composite_base(self.raw_mrz@),
    {
        let s = self.raw_mrz.as_str();
        String::from_str(s.substring_char(5, 30)).concat(s.substring_char(30, 37)).concat(
            s.substring_char(38, 45),
        ).concat(s.substring_char(48, 59))
    }

    /// Checks the check digits: document number, date of birth, date of
    /// expiry and composite, in that order.
    pub fn validate_check_digits(&self) -> (r: Vec<bool>)
        requires
            self.raw_mrz@.len() == 90,
        ensures
            r@ == td1_check_results(*self),
    {
        let (document_number, date_of_birth, date_of_expiry, composite) =
            self.calculate_common_checksums();
        let mut v: Vec<bool> = Vec::new();
        v.push(document_number);
        v.push(date_of_birth);
        v.push(date_of_expiry);
        v.push(composite);
        assert(v@ =~= td1_check_results(*self));
        v
    }
}

/// A TD3 MRZ (ICAO 9303 part 4): two lines of 44 characters.
#[derive(Debug, Clone, PartialEq)]
pub struct TD3Mrz {
    /// The 88 characters of the MRZ.
    pub raw_mrz: String,
    pub document_code: String,
    pub issuing_state: String,
    pub name_of_holder: String,
    pub document_number: String,
    pub document_number_check_digit: char,
    pub nationality: String,
    /// YYMMDD
    pub date_of_birth: String,
    pub date_of_birth_check_digit: char,
    /// `F`, `M`, or `<` for unspecified.
    pub sex: char,
    /// YYMMDD
    pub date_of_expiry: String,
    pub date_of_expiry_check_digit: char,
    pub personal_number_or_optional_data_elements: String,
    /// `0` or `<` when the personal number is unused.
    pub personal_number_or_optional_data_elements_check_digit: char,
    pub composite_check_digit: char,
}

/// The fields of a TD3 MRZ read from its characters.
pub open spec fn td3_fields_of(m: TD3Mrz, s: Seq<char>) -> bool {
    &&& m.raw_mrz@ == s
    &&& m.document_code@ == s.subrange(0, 2)
    &&& m.issuing_state@ == strip_filler(s.subrange(2, 5))
    &&& m.name_of_holder@ == fillers_to_spaces(strip_filler(s.subrange(5, 44)))
    &&& m.document_number@ == strip_filler(s.subrange(44, 53))
    &&& m.document_number_check_digit == s[53]
    &&& m.nationality@ == strip_filler(s.subrange(54, 57))
    &&& m.date_of_birth@ == s.subrange(57, 63)
    &&& m.date_of_birth_check_digit == s[63]
    &&& m.sex == s[64]
    &&& m.date_of_expiry@ == s.subrange(65, 71)
    &&& m.date_of_expiry_check_digit == s[71]
    &&& m.personal_number_or_optional_data_elements@ == strip_filler(s.subrange(72, 86))
    &&& m.personal_number_or_optional_data_elements_check_digit == s[86]
    &&& m.composite_check_digit == s[87]
}

/// The characters the TD3 composite check digit is computed over: lower line
/// positions 1 to 10, 14 to 20 and 22 to 43.
pub open spec fn td3_composite_base(s: Seq<char>) -> Seq<char> {
    s.subrange(44, 54) + s.subrange(57, 64) + s.subrange(65, 87)
}

/// The results of checking a TD3 MRZ: document number, date of birth, date
/// of expiry, personal number (valid when it is empty) and composite check
/// digits.
pub open spec fn td3_check_results(m: TD3Mrz) -> Seq<bool> {
    seq![
        check_digit_of(m.document_number@) == m.document_number_check_digit,
        check_digit_of(m.date_of_birth@) == m.date_of_birth_check_digit,
        check_digit_of(m.date_of_expiry@) == m.date_of_expiry_check_digit,
        m.personal_number_or_optional_data_elements@.len() == 0 || check_digit_of(
            m.personal_number_or_optional_data_elements@,
        ) == m.personal_number_or_optional_data_elements_check_digit,
        check_digit_of(td3_composite_base(m.raw_mrz@)) == m.composite_check_digit,
    ]
}

impl MRZChecksum for TD3Mrz {
    open spec fn well_sized(&self) -> bool {
        self.raw_mrz@.len() == 88
    }

    open spec fn common_check_results(&self) -> (bool, bool, bool, bool) {
        let c = td3_check_results(*self);
        (c[0], c[1], c[2], c[4])
    }

    fn calculate_common_checksums(&self) -> (r: (bool, bool, bool, bool)) {
        let base = self.composite_base();
        (
            calculate_check_digit(&self.document_number) == self.document_number_check_digit,
            calculate_check_digit(&self.date_of_birth) == self.date_of_birth_check_digit,
            calculate_check_digit(&self.date_of_expiry) == self.date_of_expiry_check_digit,
            calculate_check_digit(&base) == self.composite_check_digit,
        )
    }
}

impl TD3Mrz {
    /// Reads a TD3 MRZ.
    pub fn deserialize(input: &String) -> (r: Option<TD3Mrz>)
        ensures
            r is Some <==> input@.len() == 88,
            r matches Some(m) ==> td3_fields_of(m, input@),
    {
        let s = input.as_str();
        if s.unicode_len() != 88 {
            return None;
        }
        Some(
            TD3Mrz {
                raw_mrz: String::from_str(s),
                document_code: String::from_str(s.substring_char(0, 2)),
                issuing_state: strip_filler_str(s.substring_char(2, 5)),
                name_of_holder: spaced_name(s.substring_char(5, 44)),
                document_number: strip_filler_str(s.substring_char(44, 53)),
                document_number_check_digit: s.get_char(53),
                nationality: strip_filler_str(s.substring_char(54, 57)),
                date_of_birth: String::from_str(s.substring_char(57, 63)),
                date_of_birth_check_digit: s.get_char(63),
                sex: s.get_char(64),
                date_of_expiry: String::from_str(s.substring_char(65, 71)),
                date_of_expiry_check_digit: s.get_char(71),
                personal_number_or_optional_data_elements: strip_filler_str(
                    s.substring_char(72, 86),
                ),
                personal_number_or_optional_data_elements_check_digit: s.get_char(86),
                composite_check_digit: s.get_char(87),
            },
        )
    }

    /// The characters the composite check digit is computed over.
    pub fn composite_base(&self) -> (r: String)
        requires
            self.raw_mrz@.len() == 88,
        ensures
            r@ == td3_composite_base(self.raw_mrz@),
    {
        let s = self.raw_mrz.as_str();
        String::from_str(s.substring_char(44, 54)).concat(s.substring_char(57, 64)).concat(
            s.substring_char(65, 87),
        )
    }

    /// Checks the check digits: document number, date of birth, date of
    /// expiry, personal number (valid when the personal number is empty) and
    /// composite, in that order.
    pub fn validate_check_digits(&self) -> (r: Vec<bool>)
        requires
            self.raw_mrz@.len() == 88,
        ensures
            r@ == td3_check_results(*self),
    {
        let (document_number, date_of_birth, date_of_expiry, composite) =
            self.calculate_common_checksums();
        let mut v: Vec<bool> = Vec::new();
        v.push(document_number);
        v.push(date_of_birth);
        v.push(date_of_expiry);
        let personal = &self.personal_number_or_optional_data_elements;
        let personal_valid = if personal.as_str().unicode_len() == 0 {
            true
        } else {
            calculate_check_digit(personal)
                == self.personal_number_or_optional_data_elements_check_digit
        };
        v.push(personal_valid);
        v.push(composite);
        assert(v@ =~= td3_check_results(*self));
        v
    }
}

/// The MRZ of EF.DG1, by document size.
#[derive(Debug, Clone, PartialEq)]
pub enum MRZ {
    TD1(TD1Mrz),
    TD3(TD3Mrz),
}

impl MRZ {
    /// Reads an MRZ: 90 characters are a TD1, 88 a TD3; any other length is
    /// not an MRZ this library reads.
    pub fn deserialize(input: &String) -> (r: Option<MRZ>)
        ensures
            r is Some <==> td1_readable(input@) || input@.len() == 88,
            r matches Some(MRZ::TD1(m)) ==> input@.len() == 90 && td1_fields_of(m, input@),
            r matches Some(MRZ::TD3(m)) ==> input@.len() == 88 && td3_fields_of(m, input@),
    {
        let n = input.as_str().unicode_len();
        if n == 90 {
            match TD1Mrz::deserialize(input) {
                Some(m) => Some(MRZ::TD1(m)),
                None => None,
            }
        } else if n == 88 {
            match TD3Mrz::deserialize(input) {
                Some(m) => Some(MRZ::TD3(m)),
                None => None,
            }
        } else {
            None
        }
    }

    /// Checks the check digits of the MRZ, as the TD1 or TD3 reading does.
    pub fn validate_check_digits(&self) -> (r: Vec<bool>)
        requires
            match self {
                MRZ::TD1(m) => m.raw_mrz@.len() == 90,
                MRZ::TD3(m) => m.raw_mrz@.len() == 88,
            },
        ensures
            match self {
                MRZ::TD1(m) => r@ == td1_check_results(*m),
                MRZ::TD3(m) => r@ == td3_check_results(*m),
            },
    {
        match self {
            MRZ::TD1(m) => m.validate_check_digits(),
            MRZ::TD3(m) => m.validate_check_digits(),
        }
    }
}


/// `n` filler characters.
pub open spec fn fillers(n: nat) -> Seq<char> {
    Seq::new(n, |i: int| '<')
}

proof fn lemma_strip_fillers(a: Seq<char>, k: nat)
    requires
        a.len() == 0 || a.last() != '<',
    ensures
        strip_filler(a + fillers(k)) == a,
    decreases k,
{
    if k == 0 {
        assert(a + fillers(0) =~= a);
    } else {
        assert((a + fillers(k)).drop_last() =~= a + fillers((k - 1) as nat));
        lemma_strip_fillers(a, (k - 1) as nat);
    }
}

proof fn lemma_strip_append(a: Seq<char>, b: Seq<char>)
    ensures
        strip_filler(b).len() > 0 ==> strip_filler(a + b) == a + strip_filler(b),
        strip_filler(b).len() == 0 ==> strip_filler(a + b) == strip_filler(a),
    decreases b.len(),
{
    if b.len() == 0 {
        assert(a + b =~= a);
    } else if b.last() == '<' {
        assert((a + b).drop_last() =~= a + b.drop_last());
        lemma_strip_append(a, b.drop_last());
    } else {
        assert((a + b).last() == b.last());
    }
}

proof fn lemma_strip_is_prefix(b: Seq<char>)
    ensures
        strip_filler(b).len() <= b.len(),
        strip_filler(b) == b.subrange(0, strip_filler(b).len() as int),
    decreases b.len(),
{
    if b.len() > 0 && b.last() == '<' {
        lemma_strip_is_prefix(b.drop_last());
        assert(b.drop_last().subrange(0, strip_filler(b).len() as int) =~= b.subrange(
            0,
            strip_filler(b).len() as int,
        ));
    } else {
        assert(b.subrange(0, b.len() as int) =~= b);
    }
}

proof fn lemma_first_filler_append(a: Seq<char>, b: Seq<char>)
    requires
        forall|i: int| 0 <= i < a.len() ==> a[i] != '<',
    ensures
        first_filler(a + b) == a.len() + first_filler(b),
    decreases a.len(),
{
    if a.len() == 0 {
        assert(a + b =~= b);
    } else {
        let t = a.subrange(1, a.len() as int);
        assert((a + b).subrange(1, (a + b).len() as int) =~= t + b);
        lemma_first_filler_append(t, b);
    }
}

proof fn lemma_strip_no_filler(a: Seq<char>)
    requires
        forall|i: int| 0 <= i < a.len() ==> a[i] != '<',
    ensures
        strip_filler(a) == a,
{
}

/// A TD1 document number of at most 9 characters fills its field with
/// fillers after it and is followed by its check digit: it is read back
/// whole, with its length, and the optional data of the upper line is read
/// as it stands (no splicing).
pub proof fn lemma_td1_short_document_number(s: Seq<char>, num: Seq<char>)
    requires
        s.len() == 90,
        num.len() <= 9,
        num.len() > 0 ==> num.last() != '<',
        s.subrange(5, 14) == num + fillers((9 - num.len()) as nat),
        s[14] != '<',
    ensures
        td1_readable(s),
        td1_document_number(s) == num,
        td1_document_number(s).len() == num.len(),
        td1_document_number_check_digit(s) == s[14],
        td1_optional_line_1(s) == strip_filler(s.subrange(15, 30)),
{
    lemma_strip_fillers(num, (9 - num.len()) as nat);
}

/// A TD1 document number longer than 9 characters has its first 9 in the
/// number field, a filler in place of the check digit, and the rest at the
/// start of the optional data, followed by its check digit and a filler:
/// the number is read back whole with that check digit, and the optional
/// data keeps only what follows the filler.
pub proof fn lemma_td1_long_document_number(
    s: Seq<char>,
    num: Seq<char>,
    check_digit: char,
    tail: Seq<char>,
)
    requires
        s.len() == 90,
        num.len() > 9,
        forall|i: int| 0 <= i < num.len() ==> num[i] != '<',
        check_digit != '<',
        s.subrange(5, 14) == num.subrange(0, 9),
        s[14] == '<',
        s.subrange(15, 30) == num.subrange(9, num.len() as int) + seq![check_digit] + tail,
        tail.len() > 0 ==> tail[0] == '<',
    ensures
        td1_readable(s),
        td1_document_number(s) == num,
        td1_document_number_check_digit(s) == check_digit,
        td1_optional_line_1(s) == if tail.len() == 0 {
            Seq::<char>::empty()
        } else {
            strip_filler(tail.subrange(1, tail.len() as int))
        },
{
    let head = num.subrange(0, 9);
    let x = num.subrange(9, num.len() as int);
    let xc = x + seq![check_digit];
    assert forall|i: int| 0 <= i < xc.len() implies xc[i] != '<' by {
        if i < x.len() {
            assert(xc[i] == num[i + 9]);
        }
    }
    assert forall|i: int| 0 <= i < head.len() implies head[i] != '<' by {
        assert(head[i] == num[i]);
    }
    lemma_strip_no_filler(head);
    let st = strip_filler(tail);
    lemma_strip_append(xc, tail);
    lemma_strip_is_prefix(tail);
    let o = strip_filler(s.subrange(15, 30));
    if st.len() > 0 {
        assert(o == xc + st);
        assert(st[0] == tail[0]);
        assert(st =~= seq![st[0]] + st.subrange(1, st.len() as int));
        lemma_first_filler_append(xc, st);
        assert(first_filler(st) == 0);
        let t1 = tail.subrange(1, tail.len() as int);
        assert(tail =~= seq!['<'] + t1);
        lemma_strip_append(seq!['<'], t1);
        if strip_filler(t1).len() == 0 {
            assert(seq!['<'].drop_last() =~= Seq::<char>::empty());
            assert(strip_filler(seq!['<']) == strip_filler(Seq::<char>::empty()));
            assert(strip_filler(seq!['<']).len() == 0);
            assert(false);
        }
        assert(st == seq!['<'] + strip_filler(t1));
        assert(o.subrange((xc.len() + 1) as int, o.len() as int) =~= strip_filler(t1));
    } else {
        assert(strip_filler(xc) == xc);
        assert(o == xc);
        assert(xc + Seq::<char>::empty() =~= xc);
        lemma_first_filler_append(xc, Seq::<char>::empty());
        if tail.len() > 0 {
            let t1 = tail.subrange(1, tail.len() as int);
            assert(tail =~= seq!['<'] + t1);
            lemma_strip_append(seq!['<'], t1);
            if strip_filler(t1).len() > 0 {
                assert(st == seq!['<'] + strip_filler(t1));
            }
        }
    }
    assert(o.subrange(0, x.len() as int) =~= x);
    assert(head + x =~= num);
}

/// The digit values of a text of ASCII digits; none when another character
/// occurs.
pub open spec fn digits_of(s: Seq<char>) -> Option<Seq<u8>>
    decreases s.len(),
{
    if s.len() == 0 {
        Some(Seq::empty())
    } else if '0' <= s.last() && s.last() <= '9' {
        match digits_of(s.drop_last()) {
            Some(d) => Some(d.push((s.last() as nat - 48) as u8)),
            None => None,
        }
    } else {
        None
    }
}

/// Converts a text of ASCII digits to the digit values, or none when another
/// character occurs.
pub fn text_to_numeric(text: &String) -> (r: Option<Vec<u8>>)
    ensures
        match digits_of(text@) {
            Some(d) => r is Some && r.unwrap()@ == d,
            None => r is None,
        },
{
    let s = text.as_str();
    let n = s.unicode_len();
    let mut out: Vec<u8> = Vec::new();
    let mut i: usize = 0;
    while i < n
        invariant
            i <= n,
            n == s@.len(),
            s@ == text@,
            digits_of(s@.subrange(0, i as int)) == Some(out@),
        decreases n - i,
    {
        let c = s.get_char(i);
        assert(s@.subrange(0, i + 1).drop_last() =~= s@.subrange(0, i as int));
        assert(s@.subrange(0, i + 1).last() == c);
        if '0' <= c && c <= '9' {
            out.push(((c as u32) - 48) as u8);
        } else {
            proof {
                lemma_digits_of_prefix(s@, (i + 1) as nat);
            }
            return None;
        }
        i = i + 1;
    }
    assert(s@.subrange(0, n as int) =~= text@);
    Some(out)
}

proof fn lemma_digits_of_prefix(s: Seq<char>, k: nat)
    requires
        k <= s.len(),
        digits_of(s.subrange(0, k as int)) is None,
    ensures
        digits_of(s) is None,
    decreases s.len() - k,
{
    if k < s.len() {
        assert(s.subrange(0, (k + 1) as int).drop_last() =~= s.subrange(0, k as int));
        lemma_digits_of_prefix(s, k + 1);
    } else {
        assert(s.subrange(0, k as int) =~= s);
    }
}

/// A date `YYYYMMDD` of a data group as (day, month, year).
pub open spec fn dg_date_of(s: Seq<char>) -> Option<(u8, u8, u16)> {
    if s.len() != 8 {
        None
    } else {
        match digits_of(s) {
            Some(d) => Some(
                (
                    (d[6] * 10 + d[7]) as u8,
                    (d[4] * 10 + d[5]) as u8,
                    (d[0] * 1000 + d[1] * 100 + d[2] * 10 + d[3]) as u16,
                ),
            ),
            None => None,
        }
    }
}

/// Years below this two-digit value are read as 20YY, the others as 19YY.
pub const CENTURY_CUTOFF: u8 = 40;

/// A date `YYMMDD` of an MRZ as (day, month, year).
pub open spec fn mrz_date_of(s: Seq<char>) -> Option<(u8, u8, u16)> {
    if s.len() != 6 {
        None
    } else {
        match digits_of(s) {
            Some(d) => {
                let yy = d[0] * 10 + d[1];
                Some(
                    (
                        (d[4] * 10 + d[5]) as u8,
                        (d[2] * 10 + d[3]) as u8,
                        (if yy < CENTURY_CUTOFF {
                            2000 + yy
                        } else {
                            1900 + yy
                        }) as u16,
                    ),
                )
            },
            None => None,
        }
    }
}

proof fn lemma_digits_small(s: Seq<char>)
    ensures
        digits_of(s) matches Some(d) ==> d.len() == s.len() && forall|i: int|
            0 <= i < d.len() ==> #[trigger] d[i] < 10,
    decreases s.len(),
{
    if s.len() > 0 {
        lemma_digits_small(s.drop_last());
        if let Some(d) = digits_of(s) {
            let p = digits_of(s.drop_last()).unwrap();
            assert(d == p.push((s.last() as nat - 48) as u8));
            assert forall|i: int| 0 <= i < d.len() implies #[trigger] d[i] < 10 by {
                if i < p.len() {
                    assert(d[i] == p[i]);
                }
            }
        }
    }
}

/// Reads a date `YYYYMMDD` as (day, month, year).
pub fn parse_dg_date(text: &String) -> (r: Option<(u8, u8, u16)>)
    ensures
        r == dg_date_of(text@),
{
    if text.as_str().unicode_len() != 8 {
        return None;
    }
    let d = match text_to_numeric(text) {
        Some(d) => d,
        None => return None,
    };
    proof {
        lemma_digits_small(text@);
    }
    Some(
        (
            d[6] * 10 + d[7],
            d[4] * 10 + d[5],
            (d[0] as u16) * 1000 + (d[1] as u16) * 100 + (d[2] as u16) * 10 + (d[3] as u16),
        ),
    )
}

/// Reads a date `YYMMDD` of an MRZ as (day, month, year); two-digit years
/// below 40 are in the 2000s, the others in the 1900s.
pub fn parse_mrz_date(text: &String) -> (r: Option<(u8, u8, u16)>)
    ensures
        r == mrz_date_of(text@),
{
    if text.as_str().unicode_len() != 6 {
        return None;
    }
    let d = match text_to_numeric(text) {
        Some(d) => d,
        None => return None,
    };
    proof {
        lemma_digits_small(text@);
    }
    let yy = d[0] * 10 + d[1];
    let year: u16 = if yy < CENTURY_CUTOFF {
        2000 + yy as u16
    } else {
        1900 + yy as u16
    };
    Some((d[4] * 10 + d[5], d[2] * 10 + d[3], year))
}


/// `s` with each filler `<` turned into a space.
pub open spec fn fillers_to_spaces(s: Seq<char>) -> Seq<char> {
    s.map_values(|c: char| if c == '<' { ' ' } else { c })
}

/// Where the first `<<` of `s` starts, if there is one.
pub open spec fn first_double_filler(s: Seq<char>) -> Option<nat>
    decreases s.len(),
{
    if s.len() < 2 {
        None
    } else if s[0] == '<' && s[1] == '<' {
        Some(0)
    } else {
        match first_double_filler(s.subrange(1, s.len() as int)) {
            Some(i) => Some(i + 1),
            None => None,
        }
    }
}

/// The (first names, last name) of an MRZ name: the last name comes before
/// the first `<<`, and fillers read as spaces. Without `<<` the whole name is
/// the first element.
pub open spec fn mrz_name_of(s: Seq<char>) -> (Seq<char>, Seq<char>) {
    let spaced = fillers_to_spaces(s);
    match first_double_filler(s) {
        Some(i) => (spaced.subrange((i + 2) as int, s.len() as int), spaced.subrange(0, i as int)),
        None => (spaced, Seq::empty()),
    }
}

proof fn lemma_first_double_filler_bound(s: Seq<char>)
    ensures
        first_double_filler(s) matches Some(i) ==> i + 2 <= s.len(),
    decreases s.len(),
{
    if s.len() >= 2 && !(s[0] == '<' && s[1] == '<') {
        lemma_first_double_filler_bound(s.subrange(1, s.len() as int));
    }
}

fn find_double_filler(text: &str) -> (r: Option<usize>)
    ensures
        r matches Some(i) ==> first_double_filler(text@) == Some(i as nat),
        r is None ==> first_double_filler(text@) is None,
{
    let n = text.unicode_len();
    let mut i: usize = 0;
    assert(text@.subrange(0, n as int) =~= text@);
    while i < n && n - i >= 2
        invariant
            i <= n,
            n == text@.len(),
            first_double_filler(text@) == match first_double_filler(text@.subrange(i as int, n as int)) {
                Some(k) => Some((k + i) as nat),
                None => None::<nat>,
            },
        decreases n - i,
    {
        let ghost rest = text@.subrange(i as int, n as int);
        if text.get_char(i) == '<' && text.get_char(i + 1) == '<' {
            assert(rest[0] == text@[i as int] && rest[1] == text@[i + 1]);
            return Some(i);
        }
        assert(rest[0] == text@[i as int] && rest[1] == text@[i + 1]);
        assert(rest.subrange(1, rest.len() as int) =~= text@.subrange(i + 1, n as int));
        i = i + 1;
    }
    None
}

/// `text[from..to]` with fillers turned into spaces.
fn spaced_range(text: &str, from: usize, to: usize) -> (r: String)
    requires
        from <= to <= text@.len(),
    ensures
        r@ == fillers_to_spaces(text@).subrange(from as int, to as int),
{
    let mut out = String::from_str("");
    proof {
        reveal_strlit("");
    }
    let mut i: usize = from;
    while i < to
        invariant
            from <= i <= to <= text@.len(),
            out@ == fillers_to_spaces(text@).subrange(from as int, i as int),
        decreases to - i,
    {
        let ghost before = out@;
        let ghost spaced = fillers_to_spaces(text@);
        assert(spaced.subrange(from as int, i + 1) =~= before.push(spaced[i as int]));
        if text.get_char(i) == '<' {
            proof {
                reveal_strlit(" ");
            }
            assert(" "@.len() == 1 && " "@[0] == ' ');
            assert(" "@ =~= seq![' ']);
            out = out.concat(" ");
        } else {
            let piece = text.substring_char(i, i + 1);
            assert(piece@ =~= seq![text@[i as int]]);
            out = out.concat(piece);
        }
        assert(out@ =~= spaced.subrange(from as int, i + 1));
        i = i + 1;
    }
    out
}

/// A name field without trailing fillers, its other fillers read as spaces.
fn spaced_name(field: &str) -> (r: String)
    ensures
        r@ == fillers_to_spaces(strip_filler(field@)),
{
    let stripped = strip_filler_str(field);
    let n = stripped.as_str().unicode_len();
    let r = spaced_range(stripped.as_str(), 0, n);
    assert(fillers_to_spaces(stripped@).subrange(0, n as int) =~= fillers_to_spaces(stripped@));
    r
}

/// Formats an MRZ name as (first names, last name); without `<<` the whole
/// name comes first and the last name is empty.
pub fn format_mrz_name(text: &String) -> (r: (String, String))
    ensures
        (r.0@, r.1@) == mrz_name_of(text@),
{
    let s = text.as_str();
    let n = s.unicode_len();
    proof {
        reveal_strlit("");
    }
    match find_double_filler(s) {
        Some(i) => {
            proof {
                lemma_first_double_filler_bound(text@);
            }
            (spaced_range(s, i + 2, n), spaced_range(s, 0, i))
        },
        None => {
            let all = spaced_range(s, 0, n);
            assert(fillers_to_spaces(text@).subrange(0, n as int) =~= fillers_to_spaces(text@));
            (all, String::from_str(""))
        },
    }
}

/// What kind of document an MRZ document code names, given the issuing
/// state (ICAO 9303 part 5, 4.2.2.3 note k, and the usage of some states).
pub open spec fn document_type_of(code: Seq<char>, country: Seq<char>) -> Seq<char> {
    if code.len() != 2 {
        code
    } else if code == "C<"@ && country == "ITA"@ {
        "ID Card"@
    } else if code == "I<"@ {
        "ID Card"@
    } else if code == "ID"@ {
        if country == "DNK"@ || country == "BEL"@ || country == "PLN"@ {
            "ID or Residence Permit Card"@
        } else {
            "ID Card"@
        }
    } else if code == "IP"@ {
        "Passport Card"@
    } else if code == "AD"@ || code == "AR"@ || code == "CR"@ || code == "IR"@ || code == "IT"@
        || code == "RP"@ || code == "RT"@ {
        "Residence Permit Card"@
    } else if (code == "IB"@ || code == "IW"@ || code == "IK"@ || code == "IE"@ || code == "IO"@
        || code == "IF"@ || code == "IZ"@) && country == "PLN"@ {
        "Residence Permit Card"@
    } else if code == "AI"@ || code == "CV"@ || code == "AC"@ {
        code + " (Disallowed by ICAO 9303, Part 5)"@
    } else if code[0] == 'P' {
        "Passport"@
    } else if code[0] == 'I' || code[0] == 'C' {
        "ID Card (likely)"@
    } else if code[0] == 'V' {
        code + " (Disallowed by ICAO 9303, Part 5)"@
    } else {
        "Unknown document "@ + code
    }
}

/// Names the kind of document an MRZ document code stands for.
pub fn parse_mrz_document_code(document_code: &String, country_code: &String) -> (r: String)
    ensures
        r@ == document_type_of(document_code@, country_code@),
{
    let code = document_code.as_str();
    let country = country_code.as_str();
    if code.unicode_len() != 2 {
        return document_code.clone();
    }
    if str_equal(code, "C<") && str_equal(country, "ITA") {
        return String::from_str("ID Card");
    }
    if str_equal(code, "I<") {
        return String::from_str("ID Card");
    }
    if str_equal(code, "ID") {
        if str_equal(country, "DNK") || str_equal(country, "BEL") || str_equal(country, "PLN") {
            return String::from_str("ID or Residence Permit Card");
        }
        return String::from_str("ID Card");
    }
    if str_equal(code, "IP") {
        return String::from_str("Passport Card");
    }
    if str_equal(code, "AD") || str_equal(code, "AR") || str_equal(code, "CR") || str_equal(
        code,
        "IR",
    ) || str_equal(code, "IT") || str_equal(code, "RP") || str_equal(code, "RT") {
        return String::from_str("Residence Permit Card");
    }
    if (str_equal(code, "IB") || str_equal(code, "IW") || str_equal(code, "IK") || str_equal(
        code,
        "IE",
    ) || str_equal(code, "IO") || str_equal(code, "IF") || str_equal(code, "IZ")) && str_equal(
        country,
        "PLN",
    ) {
        return String::from_str("Residence Permit Card");
    }
    if str_equal(code, "AI") || str_equal(code, "CV") || str_equal(code, "AC") {
        return document_code.clone().concat(" (Disallowed by ICAO 9303, Part 5)");
    }
    let first = code.get_char(0);
    if first == 'P' {
        String::from_str("Passport")
    } else if first == 'I' || first == 'C' {
        String::from_str("ID Card (likely)")
    } else if first == 'V' {
        document_code.clone().concat(" (Disallowed by ICAO 9303, Part 5)")
    } else {
        String::from_str("Unknown document ").concat(code)
    }
}

} // verus!
