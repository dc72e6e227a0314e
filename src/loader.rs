use vstd::arithmetic::div_mod::lemma_fundamental_div_mod_converse;
use vstd::prelude::*;
use vstd::string::*;

use crate::error::{CommonError, DocsError};
use crate::steam::{join_path, path_join};
use crate::text::strip_byte_order_mark;

verus! {

/// The 16-bit little-endian code units that `bytes` hold, two bytes each.
pub open spec fn units_of(bytes: Seq<u8>) -> Seq<u16> {
    Seq::new(
        (bytes.len() / 2) as nat,
        |i: int| (bytes[2 * i] as int + 256 * bytes[2 * i + 1] as int) as u16,
    )
}

pub open spec fn is_high_surrogate(u: u16) -> bool {
    0xD800 <= u < 0xDC00
}

pub open spec fn is_low_surrogate(u: u16) -> bool {
    0xDC00 <= u < 0xE000
}

/// The code points that UTF-16 `units` encode, or none where a surrogate is
/// unpaired.
pub open spec fn utf16_code_points(units: Seq<u16>) -> Option<Seq<int>>
    decreases units.len(),
{
    if units.len() == 0 {
        Some(Seq::empty())
    } else if is_high_surrogate(units[0]) {
        if units.len() >= 2 && is_low_surrogate(units[1]) {
            match utf16_code_points(units.skip(2)) {
                Some(rest) => Some(
                    seq![0x10000 + (units[0] - 0xD800) * 0x400 + (units[1] - 0xDC00)] + rest,
                ),
                None => None,
            }
        } else {
            None
        }
    } else if is_low_surrogate(units[0]) {
        None
    } else {
        match utf16_code_points(units.skip(1)) {
            Some(rest) => Some(seq![units[0] as int] + rest),
            None => None,
        }
    }
}

/// The UTF-16 code units of the code points `cps`.
pub open spec fn utf16_encode(cps: Seq<int>) -> Seq<u16>
    decreases cps.len(),
{
    if cps.len() == 0 {
        Seq::empty()
    } else {
        let c = cps[0];
        let head = if c >= 0x10000 {
            seq![(0xD800 + (c - 0x10000) / 0x400) as u16, (0xDC00 + (c - 0x10000) % 0x400) as u16]
        } else {
            seq![c as u16]
        };
        head + utf16_encode(cps.drop_first())
    }
}

/// The bytes of `units`, little-endian.
pub open spec fn bytes_of(units: Seq<u16>) -> Seq<u8>
    decreases units.len(),
{
    if units.len() == 0 {
        Seq::empty()
    } else {
        seq![(units[0] % 256) as u8, (units[0] / 256) as u8] + bytes_of(units.drop_first())
    }
}

/// Whether the text `t` consists of the code points `cps`.
pub open spec fn text_is(t: Seq<char>, cps: Seq<int>) -> bool {
    t.len() == cps.len() && forall|i: int| 0 <= i < t.len() ==> t[i] as int == cps[i]
}

/// `cps` without one leading byte-order mark.
pub open spec fn without_bom(cps: Seq<int>) -> Seq<int> {
    if cps.len() > 0 && cps[0] == 0xFEFF {
        cps.drop_first()
    } else {
        cps
    }
}

/// The reason given for a byte count that is odd.
pub open spec fn odd_length_reason() -> Seq<char> {
    "File is not UTF-16 encoded/is missing bytes."@
}

/// The path of the export file for `locale` in the docs folder `dir`.
pub open spec fn docs_file_of(dir: Seq<char>, locale: Seq<char>) -> Seq<char> {
    path_join(dir, locale + ".json"@)
}

/// Relies on `std::char::decode_utf16`: decodes UTF-16 code units, failing
/// on an unpaired surrogate; the error is its debug text.
#[verifier::external_body]
fn decode_utf16_units(units: &Vec<u16>) -> (r: Result<String, String>)
    ensures
        match utf16_code_points(units@) {
            Some(cps) => r matches Ok(s) && text_is(s@, cps),
            None => r is Err,
        },
{
    std::char::decode_utf16(units.iter().copied()).collect::<Result<String, _>>().map_err(|e| format!("{:?}", e))
}

/// The code units that `bytes` hold.
pub fn units_from_bytes(bytes: &Vec<u8>) -> (r: Vec<u16>)
    requires
        bytes@.len() % 2 == 0,
    ensures
        r@ == units_of(bytes@),
{
    let len = bytes.len();
    let n = len / 2;
    let mut r: Vec<u16> = Vec::new();
    let mut i: usize = 0;
    while i < n
        invariant
            len == bytes@.len(),
            n == len / 2,
            len % 2 == 0,
            i <= n,
            r@ =~= units_of(bytes@).take(i as int),
        decreases n - i,
    {
        assert(2 * i + 1 < bytes@.len());
        let lo = bytes[2 * i] as u16;
        let hi = bytes[2 * i + 1] as u16;
        r.push(lo + 256 * hi);
        i = i + 1;
    }
    r
}

/// The path of the export file for `locale` in the docs folder `dir`.
pub fn docs_file_path(dir: &str, locale: &str) -> (r: String)
    ensures
        r@ == docs_file_of(dir@, locale@),
{
    let mut name = String::from_str(locale);
    name.append(".json");
    join_path(dir, name.as_str())
}

/// The text of an export file's bytes: UTF-16 little-endian, without a
/// leading byte-order mark.
pub fn decode_docs(bytes: &Vec<u8>) -> (r: Result<String, DocsError>)
    ensures
        bytes@.len() % 2 == 1 ==> (r matches Err(e) && e.is_invalid_format(odd_length_reason())),
        bytes@.len() % 2 == 0 ==> match utf16_code_points(units_of(bytes@)) {
            Some(cps) => r matches Ok(s) && text_is(s@, without_bom(cps)),
            None => r matches Err(e) && e is InvalidFormat,
        },
{
    if bytes.len() % 2 != 0 {
        return Err(DocsError::invalid_format("File is not UTF-16 encoded/is missing bytes."));
    }
    let units = units_from_bytes(bytes);
    match decode_utf16_units(&units) {
        Ok(text) => {
            let stripped = strip_byte_order_mark(text.as_str());
            let ghost cps = utf16_code_points(units@).unwrap();
            proof {
                if text@.len() > 0 {
                    assert(text@[0] as int == cps[0]);
                    assert(('\u{feff}' as int) == 0xFEFF);
                }
                assert(text_is(stripped@, without_bom(cps)));
            }
            Ok(String::from_str(stripped))
        },
        Err(diagnostic) => {
            let mut reason = String::from_str("Bad UTF-16 encoding: ");
            reason.append(diagnostic.as_str());
            Err(DocsError::invalid_format(reason.as_str()))
        },
    }
}

/// The text of the export for `locale`, from what reading its file at
/// `path` gave: `None` where no such file exists, else the bytes read or
/// the read error's text.
pub fn docs_text_from_read(
    locale: &str,
    path: &str,
    contents: Option<Result<Vec<u8>, String>>,
) -> (r: Result<String, CommonError>)
    ensures
        match contents {
            None => r matches Err(CommonError::Docs { error: e }) && e.is_unknown_locale(locale@),
            Some(Err(reason)) => r matches Err(CommonError::Docs { error: e })
                && e matches DocsError::FailedRead { path: p, reason: m } && p@ == path@ && m@ == reason@,
            Some(Ok(bytes)) => match decode_docs_result(bytes@) {
                DecodeOutcome::OddLength => r matches Err(CommonError::Docs { error: e })
                    && e.is_invalid_format(odd_length_reason()),
                DecodeOutcome::BadUnits => r matches Err(CommonError::Docs { error: e }) && e is InvalidFormat,
                DecodeOutcome::Text(cps) => r matches Ok(s) && text_is(s@, without_bom(cps)),
            },
        },
{
    match contents {
        None => Err(CommonError::Docs { error: DocsError::unknown_locale(locale) }),
        Some(Err(reason)) => Err(CommonError::Docs { error: DocsError::failed_read(path, reason.as_str()) }),
        Some(Ok(bytes)) => match decode_docs(&bytes) {
            Ok(text) => Ok(text),
            Err(e) => Err(CommonError::Docs { error: e }),
        },
    }
}

/// How the bytes of an export file decode.
pub enum DecodeOutcome {
    OddLength,
    BadUnits,
    Text(Seq<int>),
}

pub open spec fn decode_docs_result(bytes: Seq<u8>) -> DecodeOutcome {
    if bytes.len() % 2 == 1 {
        DecodeOutcome::OddLength
    } else {
        match utf16_code_points(units_of(bytes)) {
            Some(cps) => DecodeOutcome::Text(cps),
            None => DecodeOutcome::BadUnits,
        }
    }
}

/// Re-encoding decoded UTF-16 code points gives back the code units.
pub proof fn lemma_utf16_round_trip(units: Seq<u16>)
    requires
        utf16_code_points(units) is Some,
    ensures
        utf16_encode(utf16_code_points(units).unwrap()) == units,
    decreases units.len(),
{
    if units.len() > 0 {
        let cps = utf16_code_points(units).unwrap();
        if is_high_surrogate(units[0]) {
            let rest = units.skip(2);
            lemma_utf16_round_trip(rest);
            let a = units[0] - 0xD800;
            let b = units[1] - 0xDC00;
            lemma_fundamental_div_mod_converse(a * 0x400 + b, 0x400, a, b);
            assert(cps.drop_first() =~= utf16_code_points(rest).unwrap());
            assert(units =~= seq![units[0], units[1]] + rest);
        } else {
            let rest = units.skip(1);
            lemma_utf16_round_trip(rest);
            assert(cps.drop_first() =~= utf16_code_points(rest).unwrap());
            assert(units =~= seq![units[0]] + rest);
        }
    }
}

/// Writing the code units of an even number of bytes back as bytes gives
/// back those bytes.
pub proof fn lemma_bytes_round_trip(bytes: Seq<u8>)
    requires
        bytes.len() % 2 == 0,
    ensures
        bytes_of(units_of(bytes)) == bytes,
    decreases bytes.len(),
{
    if bytes.len() > 0 {
        let rest = bytes.skip(2);
        lemma_bytes_round_trip(rest);
        assert(units_of(bytes).drop_first() =~= units_of(rest));
        let lo = bytes[0] as int;
        let hi = bytes[1] as int;
        lemma_fundamental_div_mod_converse(lo + 256 * hi, 256, hi, lo);
        assert(bytes =~= seq![bytes[0], bytes[1]] + rest);
    }
}

/// Decoding an export file's bytes and encoding the characters again,
/// little-endian, gives back the file; the text handed on is those
/// characters without a leading byte-order mark.
pub proof fn lemma_docs_round_trip(bytes: Seq<u8>)
    requires
        bytes.len() % 2 == 0,
        utf16_code_points(units_of(bytes)) is Some,
    ensures
        ({
            let cps = utf16_code_points(units_of(bytes)).unwrap();
            &&& bytes_of(utf16_encode(cps)) == bytes
            &&& cps == (if cps.len() > 0 && cps[0] == 0xFEFF {
                seq![0xFEFF] + without_bom(cps)
            } else {
                without_bom(cps)
            })
        }),
{
    let cps = utf16_code_points(units_of(bytes)).unwrap();
    lemma_utf16_round_trip(units_of(bytes));
    lemma_bytes_round_trip(bytes);
    if cps.len() > 0 && cps[0] == 0xFEFF {
        assert(cps =~= seq![0xFEFF] + without_bom(cps));
    }
}

} // verus!
