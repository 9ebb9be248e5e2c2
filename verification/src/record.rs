//! The persisted stats record: a compact structured text object with
//! exactly three named numeric fields, `total`, `won` and `lost`, in that
//! order. This module renders a record from the three counters, parses one
//! back, and proves that the two are inverses.

use vstd::prelude::*;
use vstd::string::StrSliceExecFns;
use vstd::string::StringExecFns;
use crate::text::all_digits;
use crate::text::check_at;
use crate::text::digit_run_end;
use crate::text::digit_run_scan;
use crate::text::digit_run_val;
use crate::text::digits_val;
use crate::text::is_digit_char;
use crate::text::lemma_digit_run_end;
use crate::text::lemma_digit_run_end_concat;
use crate::text::lemma_spec_digits;
use crate::text::matches_at;
use crate::text::spec_digits;
use crate::text::u32_to_string;

verus! {

/// The serialized form of the counters: `{"total":T,"won":W,"lost":L}`,
/// each value in plain decimal.
pub open spec fn spec_serialize(total: u32, won: u32, lost: u32) -> Seq<char> {
    "{\"total\":"@ + spec_digits(total as nat) + ",\"won\":"@ + spec_digits(won as nat)
        + ",\"lost\":"@ + spec_digits(lost as nat) + "}"@
}

/// What parsing a persisted record yields: the three counters when the text
/// has exactly the serialized shape (each field a nonempty run of decimal
/// digits whose value fits a `u32`, nothing before, between or after the
/// fixed punctuation), and nothing otherwise.
pub open spec fn spec_deserialize(s: Seq<char>) -> Option<(u32, u32, u32)> {
    let p1 = "{\"total\":"@;
    let p2 = ",\"won\":"@;
    let p3 = ",\"lost\":"@;
    let p4 = "}"@;
    if matches_at(s, 0, p1) {
        let a = p1.len() as int;
        let ae = digit_run_end(s, a);
        if ae > a && digits_val(s.subrange(a, ae)) <= u32::MAX && matches_at(s, ae, p2) {
            let b = ae + p2.len();
            let be = digit_run_end(s, b);
            if be > b && digits_val(s.subrange(b, be)) <= u32::MAX && matches_at(s, be, p3) {
                let c = be + p3.len();
                let ce = digit_run_end(s, c);
                if ce > c && digits_val(s.subrange(c, ce)) <= u32::MAX && matches_at(s, ce, p4)
                    && ce + p4.len() == s.len() {
                    Some(
                        (
                            digits_val(s.subrange(a, ae)) as u32,
                            digits_val(s.subrange(b, be)) as u32,
                            digits_val(s.subrange(c, ce)) as u32,
                        ),
                    )
                } else {
                    None
                }
            } else {
                None
            }
        } else {
            None
        }
    } else {
        None
    }
}

/// The record text for the three counters.
pub fn render_record(total: u32, won: u32, lost: u32) -> (r: String)
    ensures
        r@ == spec_serialize(total, won, lost),
{
    let mut s = "{\"total\":".to_owned();
    s.append(u32_to_string(total).as_str());
    s.append(",\"won\":");
    s.append(u32_to_string(won).as_str());
    s.append(",\"lost\":");
    s.append(u32_to_string(lost).as_str());
    s.append("}");
    proof {
        assert(s@ =~= spec_serialize(total, won, lost));
    }
    s
}

/// Parses a record text, exactly as `spec_deserialize` describes.
pub fn parse_record(s: &str) -> (r: Option<(u32, u32, u32)>)
    ensures
        r == spec_deserialize(s@),
{
    let n = s.unicode_len();
    if !check_at(s, 0, "{\"total\":") {
        return None;
    }
    let a = "{\"total\":".unicode_len();
    let ae = digit_run_scan(s, a);
    proof {
        lemma_digit_run_end(s@, a as int);
    }
    if ae == a {
        return None;
    }
    let v1 = match digit_run_val(s, a, ae, u32::MAX) {
        Some(v) => v,
        None => {
            return None;
        },
    };
    if !check_at(s, ae, ",\"won\":") {
        return None;
    }
    let b = ae + ",\"won\":".unicode_len();
    let be = digit_run_scan(s, b);
    proof {
        lemma_digit_run_end(s@, b as int);
    }
    if be == b {
        return None;
    }
    let v2 = match digit_run_val(s, b, be, u32::MAX) {
        Some(v) => v,
        None => {
            return None;
        },
    };
    if !check_at(s, be, ",\"lost\":") {
        return None;
    }
    let c = be + ",\"lost\":".unicode_len();
    let ce = digit_run_scan(s, c);
    proof {
        lemma_digit_run_end(s@, c as int);
    }
    if ce == c {
        return None;
    }
    let v3 = match digit_run_val(s, c, ce, u32::MAX) {
        Some(v) => v,
        None => {
            return None;
        },
    };
    if !check_at(s, ce, "}") {
        return None;
    }
    if ce + "}".unicode_len() != n {
        return None;
    }
    Some((v1, v2, v3))
}

/// Round trip: the record text of any three counters parses back to
/// exactly those counters.
pub proof fn lemma_record_round_trip(total: u32, won: u32, lost: u32)
    ensures
        spec_deserialize(spec_serialize(total, won, lost)) == Some((total, won, lost)),
{
    reveal_strlit("{\"total\":");
    reveal_strlit(",\"won\":");
    reveal_strlit(",\"lost\":");
    reveal_strlit("}");
    let p1 = "{\"total\":"@;
    let p2 = ",\"won\":"@;
    let p3 = ",\"lost\":"@;
    let p4 = "}"@;
    let d1 = spec_digits(total as nat);
    let d2 = spec_digits(won as nat);
    let d3 = spec_digits(lost as nat);
    lemma_spec_digits(total as nat);
    lemma_spec_digits(won as nat);
    lemma_spec_digits(lost as nat);
    let s = spec_serialize(total, won, lost);
    assert(p1.len() == 9);
    assert(p2.len() == 7);
    assert(p3.len() == 8);
    assert(p4.len() == 1);
    let a: int = 9;
    let ae = a + d1.len() as int;
    let b = ae + 7;
    let be = b + d2.len() as int;
    let c = be + 8;
    let ce = c + d3.len() as int;
    assert(s.len() == ce + 1);
    assert(s.subrange(0, a) =~= p1);
    assert(s.subrange(a, ae) =~= d1);
    assert(s.subrange(ae, b) =~= p2);
    assert(s.subrange(b, be) =~= d2);
    assert(s.subrange(be, c) =~= p3);
    assert(s.subrange(c, ce) =~= d3);
    assert(s.subrange(ce, ce + 1) =~= p4);
    assert(matches_at(s, 0, p1));
    assert(matches_at(s, ae, p2));
    assert(matches_at(s, be, p3));
    assert(matches_at(s, ce, p4));
    assert(s[ae] == ',' && !is_digit_char(s[ae]));
    assert(s[be] == ',' && !is_digit_char(s[be]));
    assert(s[ce] == '}' && !is_digit_char(s[ce]));
    assert forall|j: int| a <= j < ae implies is_digit_char(#[trigger] s[j]) by {
        assert(s[j] == d1[j - a]);
    }
    assert forall|j: int| b <= j < be implies is_digit_char(#[trigger] s[j]) by {
        assert(s[j] == d2[j - b]);
    }
    assert forall|j: int| c <= j < ce implies is_digit_char(#[trigger] s[j]) by {
        assert(s[j] == d3[j - c]);
    }
    lemma_digit_run_end_concat(s, a, d1.len() as int);
    lemma_digit_run_end_concat(s, b, d2.len() as int);
    lemma_digit_run_end_concat(s, c, d3.len() as int);
    assert(digits_val(s.subrange(a, ae)) == total as nat);
    assert(digits_val(s.subrange(b, be)) == won as nat);
    assert(digits_val(s.subrange(c, ce)) == lost as nat);
}

} // verus!
