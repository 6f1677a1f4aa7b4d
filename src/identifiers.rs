//! The identifier table: the service and characteristic UUIDs of the device,
//! read from `#define NAME "value"` lines of a header text.
use vstd::prelude::*;
use vstd::string::StringSliceAdditionalSpecFns;
use crate::text::{
    bytes_eq, copy_range, first_where, index_where, starts_with, trim, trim_byte,
};

verus! {

pub const NEWLINE: u8 = 10;

pub const CARRIAGE_RETURN: u8 = 13;

pub const SPACE: u8 = 32;

pub const QUOTE: u8 = 34;

/// What parsing the ASCII text `s` as a UUID gives, as its 128-bit value.
pub uninterp spec fn uuid_of_ascii(s: Seq<u8>) -> Option<u128>;

/// The value of an ASCII hexadecimal digit, either case.
pub open spec fn hex_digit(c: u8) -> Option<nat> {
    if 48 <= c <= 57 {
        Some((c - 48) as nat)
    } else if 97 <= c <= 102 {
        Some((c - 87) as nat)
    } else if 65 <= c <= 70 {
        Some((c - 55) as nat)
    } else {
        None
    }
}

/// Whether every byte of `s` is a hexadecimal digit.
pub open spec fn all_hex(s: Seq<u8>) -> bool {
    forall|i: int| 0 <= i < s.len() ==> #[trigger] hex_digit(s[i]) is Some
}

/// The number that the hexadecimal digits `s` write, most significant first.
pub open spec fn hex_value(s: Seq<u8>) -> nat
    decreases s.len(),
{
    if s.len() == 0 {
        0
    } else {
        hex_value(s.drop_last()) * 16 + match hex_digit(s.last()) {
            Some(d) => d,
            None => 0,
        }
    }
}

/// Whether the 36 bytes of `s` have hyphens where the 8-4-4-4-12 form has
/// them.
pub open spec fn hyphens_placed(s: Seq<u8>) -> bool {
    s.len() == 36 && s[8] == 45 && s[13] == 45 && s[18] == 45 && s[23] == 45
}

/// The 32 digits of the 8-4-4-4-12 form, without its hyphens.
pub open spec fn hyphenated_digits(s: Seq<u8>) -> Seq<u8> {
    s.subrange(0, 8) + s.subrange(9, 13) + s.subrange(14, 18) + s.subrange(19, 23) + s.subrange(
        24,
        36,
    )
}

/// What the simple and hyphenated forms of a UUID are: 32 hexadecimal digits,
/// or the same digits in groups of 8, 4, 4, 4 and 12 joined by hyphens, read
/// as one big-endian number.
pub open spec fn plain_forms(s: Seq<u8>, r: Option<u128>) -> bool {
    &&& s.len() == 32 ==> (r is Some <==> all_hex(s)) && (r is Some ==> r->0 == hex_value(s))
    &&& s.len() == 36 ==> (r is Some <==> hyphens_placed(s) && all_hex(hyphenated_digits(s))) && (
    r is Some ==> r->0 == hex_value(hyphenated_digits(s)))
}

/// Relies on `uuid::Uuid::try_parse_ascii` (and `Uuid::as_u128` to read the
/// value): the result depends on the bytes alone, only inputs of 32, 36, 38
/// or 45 bytes can parse, and the simple and hyphenated forms read as
/// `plain_forms` states.
#[verifier::external_body]
fn parse_uuid(s: &[u8]) -> (r: Option<u128>)
    ensures
        r == uuid_of_ascii(s@),
        s@.len() != 32 && s@.len() != 36 && s@.len() != 38 && s@.len() != 45 ==> r is None,
        plain_forms(s@, r),
{
    uuid::Uuid::try_parse_ascii(s).ok().map(|u| u.as_u128())
}

/// The four symbolic names that the table needs.
#[derive(Debug, Clone, Copy, PartialEq, Eq, Structural)]
pub enum UuidName {
    Service,
    Accel,
    Gyro,
    Temp,
}

/// The name as it is written in the header.
pub open spec fn name_text(n: UuidName) -> Seq<u8> {
    match n {
        UuidName::Service => "BLE_SERVICE_UUID".spec_bytes(),
        UuidName::Accel => "BLE_CHAR_ACCEL_UUID".spec_bytes(),
        UuidName::Gyro => "BLE_CHAR_GYRO_UUID".spec_bytes(),
        UuidName::Temp => "BLE_CHAR_TEMP_UUID".spec_bytes(),
    }
}

impl UuidName {
    /// The name as it is written in the header.
    pub fn text(self) -> (r: &'static [u8])
        ensures
            r@ == name_text(self),
    {
        match self {
            UuidName::Service => "BLE_SERVICE_UUID".as_bytes(),
            UuidName::Accel => "BLE_CHAR_ACCEL_UUID".as_bytes(),
            UuidName::Gyro => "BLE_CHAR_GYRO_UUID".as_bytes(),
            UuidName::Temp => "BLE_CHAR_TEMP_UUID".as_bytes(),
        }
    }
}

/// The service UUID and the UUIDs of the three sensor characteristics.
#[derive(Debug, Clone, Copy, PartialEq, Eq, Structural)]
pub struct BleIdentifiers {
    pub service_uuid: u128,
    pub char_accel_uuid: u128,
    pub char_gyro_uuid: u128,
    pub char_temp_uuid: u128,
}

/// Why the header does not give a table.
#[derive(Debug, Clone, Copy, PartialEq, Eq, Structural)]
pub enum IdentifierError {
    /// No `#define` line gives the name.
    Missing(UuidName),
    /// The value given for the name is not a UUID.
    Malformed(UuidName),
}

/// The text that starts a definition line.
pub open spec fn define_prefix() -> Seq<u8> {
    "#define ".spec_bytes()
}

/// The name and the unquoted value that a line defines, if it is a
/// definition: it starts with `#define `, the name runs to the next space and
/// the value is the rest with every surrounding `"` removed.
pub open spec fn define_of(line: Seq<u8>) -> Option<(Seq<u8>, Seq<u8>)> {
    let p = define_prefix().len();
    if p <= line.len() && line.take(p as int) == define_prefix() {
        let rest = line.skip(p as int);
        let k = first_where(rest, SPACE, true);
        if k < rest.len() {
            Some((rest.take(k as int), trim_byte(rest.skip(k + 1 as int), QUOTE)))
        } else {
            None
        }
    } else {
        None
    }
}

/// The first line of `s`, given the index `k` of its end: a `\r` before the
/// ending `\n` is not part of it.
pub open spec fn line_before(s: Seq<u8>, k: int) -> Seq<u8> {
    if 0 < k < s.len() && s[k - 1] == CARRIAGE_RETURN {
        s.take(k - 1)
    } else {
        s.take(k)
    }
}

/// The value of the last definition of `name` in `s`, or `found` when `s`
/// holds none.
pub open spec fn last_define(s: Seq<u8>, name: Seq<u8>, found: Option<Seq<u8>>) -> Option<
    Seq<u8>,
>
    decreases s.len(),
{
    if s.len() == 0 {
        found
    } else {
        let k = first_where(s, NEWLINE, true);
        let d = define_of(line_before(s, k as int));
        let now = match d {
            Some(def) if def.0 == name => Some(def.1),
            _ => found,
        };
        if k < s.len() {
            last_define(s.skip(k + 1 as int), name, now)
        } else {
            now
        }
    }
}

/// The value that the header text gives to `name`: that of its last
/// definition, as a later definition overrides an earlier one.
pub open spec fn define_value(text: Seq<u8>, name: Seq<u8>) -> Option<Seq<u8>> {
    last_define(text, name, None)
}

/// The bytes that an optional buffer holds.
pub open spec fn bytes_of(o: Option<Vec<u8>>) -> Option<Seq<u8>> {
    match o {
        Some(v) => Some(v@),
        None => None,
    }
}

/// The bytes that a pair of buffers holds.
pub open spec fn pair_bytes(p: (Vec<u8>, Vec<u8>)) -> (Seq<u8>, Seq<u8>) {
    (p.0@, p.1@)
}

/// The name and the unquoted value that a line defines, if it is a
/// definition.
pub fn parse_define(line: &[u8]) -> (r: Option<(Vec<u8>, Vec<u8>)>)
    ensures
        r is Some <==> define_of(line@) is Some,
        r is Some ==> pair_bytes(r->0) == define_of(line@)->0,
{
    let prefix = "#define ".as_bytes();
    if !starts_with(line, prefix) {
        return None;
    }
    let p = prefix.len();
    let k = index_where(line, p, SPACE, true);
    if k >= line.len() {
        return None;
    }
    let name = copy_range(line, p, k);
    let value = copy_range(line, k + 1, line.len());
    let value = trim(value.as_slice(), QUOTE);
    proof {
        let rest = line@.skip(p as int);
        assert(rest.take(k - p) =~= name@.subrange(0, name@.len() as int));
        assert(rest.take(k - p) =~= line@.subrange(p as int, k as int));
        assert(rest.skip(k - p + 1) =~= line@.subrange(k + 1, line@.len() as int));
    }
    Some((name, value))
}

/// The value that `text` gives to `name` in its last `#define` line for it.
pub fn find_define(text: &[u8], name: &[u8]) -> (r: Option<Vec<u8>>)
    ensures
        bytes_of(r) == define_value(text@, name@),
{
    let mut pos: usize = 0;
    let mut found: Option<Vec<u8>> = None;
    assert(text@.skip(0) =~= text@);
    while pos < text.len()
        invariant
            pos <= text@.len(),
            last_define(text@.skip(pos as int), name@, bytes_of(found)) == define_value(
                text@,
                name@,
            ),
        decreases text@.len() - pos,
    {
        let k = index_where(text, pos, NEWLINE, true);
        let end = if k > pos && k < text.len() && text[k - 1] == CARRIAGE_RETURN {
            k - 1
        } else {
            k
        };
        let line = copy_range(text, pos, end);
        let ghost s = text@.skip(pos as int);
        let ghost before = bytes_of(found);
        proof {
            assert(line@ =~= line_before(s, k - pos));
        }
        match parse_define(line.as_slice()) {
            Some((n, v)) => {
                if bytes_eq(n.as_slice(), name) {
                    found = Some(v);
                }
            },
            None => {},
        }
        if k < text.len() {
            proof {
                assert(s.skip(k - pos + 1) =~= text@.skip(k + 1));
            }
            pos = k + 1;
        } else {
            proof {
                assert(text@.skip(text@.len() as int) =~= Seq::<u8>::empty());
            }
            pos = text.len();
        }
    }
    found
}

/// The UUID that the header gives to `n`, if it gives one.
pub open spec fn uuid_for(text: Seq<u8>, n: UuidName) -> Result<u128, IdentifierError> {
    match define_value(text, name_text(n)) {
        None => Err(IdentifierError::Missing(n)),
        Some(v) => match uuid_of_ascii(v) {
            None => Err(IdentifierError::Malformed(n)),
            Some(u) => Ok(u),
        },
    }
}

/// The table that a header text gives: the first name, in the order service,
/// accelerometer, gyroscope, temperature, that is missing or malformed is the
/// error.
pub open spec fn table_of(text: Seq<u8>) -> Result<BleIdentifiers, IdentifierError> {
    let s = uuid_for(text, UuidName::Service);
    let a = uuid_for(text, UuidName::Accel);
    let g = uuid_for(text, UuidName::Gyro);
    let t = uuid_for(text, UuidName::Temp);
    if s is Err {
        Err(s->Err_0)
    } else if a is Err {
        Err(a->Err_0)
    } else if g is Err {
        Err(g->Err_0)
    } else if t is Err {
        Err(t->Err_0)
    } else {
        Ok(
            BleIdentifiers {
                service_uuid: s->Ok_0,
                char_accel_uuid: a->Ok_0,
                char_gyro_uuid: g->Ok_0,
                char_temp_uuid: t->Ok_0,
            },
        )
    }
}

fn lookup_uuid(text: &[u8], n: UuidName) -> (r: Result<u128, IdentifierError>)
    ensures
        r == uuid_for(text@, n),
{
    match find_define(text, n.text()) {
        None => Err(IdentifierError::Missing(n)),
        Some(v) => match parse_uuid(v.as_slice()) {
            None => Err(IdentifierError::Malformed(n)),
            Some(u) => Ok(u),
        },
    }
}

/// Reads the identifier table from a header text of `#define NAME "value"`
/// lines.
pub fn parse_header_for_uuids(text: &[u8]) -> (r: Result<BleIdentifiers, IdentifierError>)
    ensures
        r == table_of(text@),
{
    let service_uuid = match lookup_uuid(text, UuidName::Service) {
        Ok(u) => u,
        Err(e) => return Err(e),
    };
    let char_accel_uuid = match lookup_uuid(text, UuidName::Accel) {
        Ok(u) => u,
        Err(e) => return Err(e),
    };
    let char_gyro_uuid = match lookup_uuid(text, UuidName::Gyro) {
        Ok(u) => u,
        Err(e) => return Err(e),
    };
    let char_temp_uuid = match lookup_uuid(text, UuidName::Temp) {
        Ok(u) => u,
        Err(e) => return Err(e),
    };
    Ok(BleIdentifiers { service_uuid, char_accel_uuid, char_gyro_uuid, char_temp_uuid })
}

/// A header that gives a UUID to each of the four names yields the table of
/// exactly those UUIDs.
pub proof fn lemma_table_holds_defined_values(text: Seq<u8>)
    requires
        uuid_for(text, UuidName::Service) is Ok,
        uuid_for(text, UuidName::Accel) is Ok,
        uuid_for(text, UuidName::Gyro) is Ok,
        uuid_for(text, UuidName::Temp) is Ok,
    ensures
        table_of(text) == Ok::<BleIdentifiers, IdentifierError>(
            BleIdentifiers {
                service_uuid: uuid_for(text, UuidName::Service)->Ok_0,
                char_accel_uuid: uuid_for(text, UuidName::Accel)->Ok_0,
                char_gyro_uuid: uuid_for(text, UuidName::Gyro)->Ok_0,
                char_temp_uuid: uuid_for(text, UuidName::Temp)->Ok_0,
            },
        ),
{
}

/// A header that does not define one of the four names yields no table.
pub proof fn lemma_missing_name_refused(text: Seq<u8>, n: UuidName)
    requires
        define_value(text, name_text(n)) is None,
    ensures
        table_of(text) is Err,
{
}

} // verus!
