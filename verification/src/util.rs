//! The value codec: canonical conversion of database column values into
//! deterministic strings.
//!
//! A column value is modelled by the closed tagged type [`SqlValue`]; the
//! driver layer translates the database library's own value type into it
//! before decoding.  [`sql_value_text`] is the specification of the codec:
//! every conversion is proved to return exactly that character sequence.

use vstd::prelude::*;
use vstd::utf8::{valid_utf8, decode_utf8};
use crate::text::{
    dec_rep, dec_pad, signed_dec_rep, hex_rep, push_dec, push_dec_pad, push_hex,
};

verus! {

/// One database column value, tagged by its runtime type.
///
/// `Float` carries the value's canonical decimal text, rendered by the
/// driver layer, since the codec itself never handles floating point.
pub enum SqlValue {
    Null,
    Int(i64),
    UInt(u64),
    Float(String),
    Date(u16, u8, u8, u8, u8, u8, u32),
    Time(bool, u32, u8, u8, u8, u32),
    Bytes(Vec<u8>),
}

/// `YYYY-MM-DD` (each field zero-padded, wider if the value needs it).
pub open spec fn date_text(y: u16, m: u8, d: u8) -> Seq<char> {
    dec_pad(y as nat, 4) + seq!['-'] + dec_pad(m as nat, 2) + seq!['-'] + dec_pad(d as nat, 2)
}

/// `HH:MM:SS` (each field zero-padded, wider if the value needs it).
pub open spec fn clock_text(h: u8, mi: u8, s: u8) -> Seq<char> {
    dec_pad(h as nat, 2) + seq![':'] + dec_pad(mi as nat, 2) + seq![':'] + dec_pad(s as nat, 2)
}

/// The canonical text of one column value:
/// - `Null` is the empty string;
/// - integers are plain decimal;
/// - a date with zero time and zero fraction is `YYYY-MM-DD`; with a time
///   but zero fraction, `YYYY-MM-DD HH:MM:SS`; with a non-zero microsecond
///   fraction, single-quoted `'YYYY-MM-DD HH:MM:SS.FFFFFF'`;
/// - a duration is `HHH:MM:SS` with days folded into the hour field,
///   a `-` prefix when negative, and `.FFFFFF` when the fraction is
///   non-zero;
/// - bytes decode as text when they are well-formed UTF-8, else as `0x`
///   followed by uppercase hexadecimal pairs.
pub open spec fn sql_value_text(v: SqlValue) -> Seq<char> {
    match v {
        SqlValue::Null => Seq::empty(),
        SqlValue::Int(x) => signed_dec_rep(x as int),
        SqlValue::UInt(x) => dec_rep(x as nat),
        SqlValue::Float(s) => s@,
        SqlValue::Date(y, m, d, h, mi, s, u) => {
            if h == 0 && mi == 0 && s == 0 && u == 0 {
                date_text(y, m, d)
            } else if u == 0 {
                date_text(y, m, d) + seq![' '] + clock_text(h, mi, s)
            } else {
                seq!['\''] + date_text(y, m, d) + seq![' '] + clock_text(h, mi, s)
                    + seq!['.'] + dec_pad(u as nat, 6) + seq!['\'']
            }
        },
        SqlValue::Time(neg, d, h, mi, s, u) => {
            let hours = (d as nat) * 24 + (h as nat);
            let sign: Seq<char> = if neg { seq!['-'] } else { Seq::empty() };
            let frac: Seq<char> = if u == 0 { Seq::empty() } else {
                seq!['.'] + dec_pad(u as nat, 6)
            };
            sign + dec_pad(hours, 3) + seq![':'] + dec_pad(mi as nat, 2)
                + seq![':'] + dec_pad(s as nat, 2) + frac
        },
        SqlValue::Bytes(bs) => {
            if valid_utf8(bs@) {
                decode_utf8(bs@)
            } else {
                seq!['0', 'x'] + hex_rep(bs@)
            }
        },
    }
}

/// Relies on std's `FromIterator` impl for `String`: collecting an iterator
/// of characters yields the string of exactly those characters, in order.
#[verifier::external_body]
fn chars_to_string(cs: &Vec<char>) -> (r: String)
    ensures
        r@ == cs@,
{
    cs.iter().collect()
}

/// Relies on `String::from_utf8`: it succeeds exactly on well-formed UTF-8
/// input and yields the character sequence that the bytes encode.
#[verifier::external_body]
fn bytes_to_text(bytes: &Vec<u8>) -> (r: Option<String>)
    ensures
        match r {
            Some(s) => valid_utf8(bytes@) && s@ == decode_utf8(bytes@),
            None => !valid_utf8(bytes@),
        },
{
    match String::from_utf8(bytes.clone()) {
        Ok(s) => Some(s),
        Err(_) => None,
    }
}

pub struct MySqlUtils {}

impl MySqlUtils {
    /// Converts one column value into its canonical text, exactly as
    /// [`sql_value_text`] states.  Total: every value has a rendering.
    #[verifier::rlimit(60)]
    pub fn convert_to_sql_string(val: SqlValue) -> (r: String)
        ensures
            r@ == sql_value_text(val),
    {
        match val {
            SqlValue::Null => String::new(),
            SqlValue::Int(x) => {
                let mut cs: Vec<char> = Vec::new();
                if x < 0 {
                    cs.push('-');
                    let mag: u64 = (-(x as i128)) as u64;
                    push_dec(mag, &mut cs);
                    proof {
                        assert(cs@ =~= sql_value_text(SqlValue::Int(x)));
                    }
                } else {
                    push_dec(x as u64, &mut cs);
                }
                chars_to_string(&cs)
            },
            SqlValue::UInt(x) => {
                let mut cs: Vec<char> = Vec::new();
                push_dec(x, &mut cs);
                chars_to_string(&cs)
            },
            SqlValue::Float(s) => s,
            SqlValue::Date(y, m, d, h, mi, s, u) => {
                let mut cs: Vec<char> = Vec::new();
                if u != 0 {
                    cs.push('\'');
                }
                push_dec_pad(y as u64, 4, &mut cs);
                cs.push('-');
                push_dec_pad(m as u64, 2, &mut cs);
                cs.push('-');
                push_dec_pad(d as u64, 2, &mut cs);
                if h != 0 || mi != 0 || s != 0 || u != 0 {
                    cs.push(' ');
                    push_dec_pad(h as u64, 2, &mut cs);
                    cs.push(':');
                    push_dec_pad(mi as u64, 2, &mut cs);
                    cs.push(':');
                    push_dec_pad(s as u64, 2, &mut cs);
                    if u != 0 {
                        cs.push('.');
                        push_dec_pad(u as u64, 6, &mut cs);
                        cs.push('\'');
                    }
                }
                proof {
                    assert(cs@ =~= sql_value_text(SqlValue::Date(y, m, d, h, mi, s, u)));
                }
                chars_to_string(&cs)
            },
            SqlValue::Time(neg, d, h, mi, s, u) => {
                let mut cs: Vec<char> = Vec::new();
                if neg {
                    cs.push('-');
                }
                let hours: u64 = (d as u64) * 24 + (h as u64);
                push_dec_pad(hours, 3, &mut cs);
                cs.push(':');
                push_dec_pad(mi as u64, 2, &mut cs);
                cs.push(':');
                push_dec_pad(s as u64, 2, &mut cs);
                if u != 0 {
                    cs.push('.');
                    push_dec_pad(u as u64, 6, &mut cs);
                }
                proof {
                    assert(cs@ =~= sql_value_text(SqlValue::Time(neg, d, h, mi, s, u)));
                }
                chars_to_string(&cs)
            },
            SqlValue::Bytes(bytes) => {
                match bytes_to_text(&bytes) {
                    Some(text) => text,
                    None => {
                        let mut cs: Vec<char> = Vec::new();
                        cs.push('0');
                        cs.push('x');
                        push_hex(&bytes, &mut cs);
                        proof {
                            assert(cs@ =~= sql_value_text(SqlValue::Bytes(bytes)));
                        }
                        chars_to_string(&cs)
                    },
                }
            },
        }
    }

    /// Decodes every column of every row through the codec, preserving row
    /// and column order.
    pub fn decode_rows(rows: Vec<Vec<SqlValue>>) -> (out: Vec<Vec<String>>)
        ensures
            out@.len() == rows@.len(),
            forall|i: int| 0 <= i < rows@.len() ==> {
                &&& (#[trigger] out@[i])@.len() == rows@[i]@.len()
                &&& forall|j: int|
                    0 <= j < rows@[i]@.len() ==> (#[trigger] out@[i]@[j])@
                        == sql_value_text(rows@[i]@[j])
            },
    {
        let ghost orig = rows@;
        let mut rest = rows;
        let mut out: Vec<Vec<String>> = Vec::new();
        while rest.len() > 0
            invariant
                out@.len() + rest@.len() == orig.len(),
                rest@ == orig.skip(out@.len() as int),
                forall|i: int| 0 <= i < out@.len() ==> {
                    &&& (#[trigger] out@[i])@.len() == orig[i]@.len()
                    &&& forall|j: int|
                        0 <= j < orig[i]@.len() ==> (#[trigger] out@[i]@[j])@
                            == sql_value_text(orig[i]@[j])
                },
            decreases rest@.len(),
        {
            let ghost k = out@.len() as int;
            let row = rest.remove(0);
            proof {
                assert(row == orig[k]);
                assert(rest@ =~= orig.skip(k + 1));
            }
            let decoded = Self::decode_row(row);
            out.push(decoded);
        }
        proof {
            assert(rows@ == orig);
        }
        out
    }

    /// Decodes one row, column order preserved.
    fn decode_row(row: Vec<SqlValue>) -> (out: Vec<String>)
        ensures
            out@.len() == row@.len(),
            forall|j: int|
                0 <= j < row@.len() ==> (#[trigger] out@[j])@ == sql_value_text(row@[j]),
    {
        let ghost orig = row@;
        let mut rest = row;
        let mut out: Vec<String> = Vec::new();
        while rest.len() > 0
            invariant
                out@.len() + rest@.len() == orig.len(),
                rest@ == orig.skip(out@.len() as int),
                forall|j: int|
                    0 <= j < out@.len() ==> (#[trigger] out@[j])@ == sql_value_text(orig[j]),
            decreases rest@.len(),
        {
            let ghost k = out@.len() as int;
            let v = rest.remove(0);
            proof {
                assert(v == orig[k]);
                assert(rest@ =~= orig.skip(k + 1));
            }
            out.push(MySqlUtils::convert_to_sql_string(v));
        }
        out
    }
}

} // verus!
