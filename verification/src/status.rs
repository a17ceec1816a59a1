//! Decoding of the device's fixed-format, comma-delimited status response
//! lines into structured status records.
//!
//! Decoding is best-effort by design: a field that does not parse, or is
//! missing, leaves the corresponding slot at its type's default, because
//! some fields are vendor-specific reserved slots this decoder does not
//! model. A line that is not valid UTF-8 is ignored wholesale, leaving every
//! slot of its record at the default.

use vstd::prelude::*;

use crate::command::{spec_total_response_lines, CommandSequence, ZplCommand};
verus! {

/// Device identification: model, firmware version, print density, memory.
pub struct HostIdentification {
    pub model: String,
    pub version: String,
    /// Print resolution in dots per millimetre.
    pub dpmm: u32,
    pub memory: String,
}

/// First status register: communication and paper state.
pub struct HostStatus1 {
    pub a_communication: u32,
    pub b_paper_out: bool,
    pub c_pause: bool,
    pub d_label_length: u32,
    pub e_number_formats: u32,
    pub f_buffer_full: bool,
    pub g_communication_diagnostics: bool,
    pub h_partial_format: bool,
    pub j_corrupt_ram: bool,
    pub k_temperature_low: bool,
    pub l_temperature_high: bool,
}

/// Second status register: print-mode state.
pub struct HostStatus2 {
    pub m_settings: u8,
    pub o_head_up: bool,
    pub p_ribbon_out: bool,
    pub q_thermal_transfer_mode: bool,
    pub r_print_mode: u32,
    pub s_print_width_mode: u8,
    pub t_label_waiting: bool,
    pub u_labels_remaining: u32,
    pub v_format_printing: bool,
    pub w_number_graphics_stored: u32,
}

/// Third status register: password and RAM flags.
pub struct HostStatus3 {
    pub x_password: String,
    pub y_static_ram: bool,
}

/// RAM usage report.
pub struct HostRamStatus {
    pub total: u32,
    pub maximum_to_user: u64,
    pub available_to_user: u64,
}

/// A full status snapshot, created fresh on every status query.
pub struct HostStatus {
    pub string1: HostStatus1,
    pub string2: HostStatus2,
    pub string3: HostStatus3,
    pub identification: HostIdentification,
    pub ram_status: HostRamStatus,
}

/// Position of the first occurrence of `b` in `s`.
pub open spec fn spec_find(s: Seq<u8>, b: u8) -> Option<int>
    decreases s.len(),
{
    if s.len() == 0 {
        None
    } else if s[0] == b {
        Some(0int)
    } else {
        match spec_find(s.drop_first(), b) {
            Some(i) => Some(i + 1),
            None => None,
        }
    }
}

/// `spec_find` returns the first position of `b`, or `None` when `b` does
/// not occur.
pub proof fn lemma_find_first(s: Seq<u8>, b: u8)
    ensures
        match spec_find(s, b) {
            Some(i) => 0 <= i < s.len() && s[i] == b && forall|j: int| 0 <= j < i ==> s[j] != b,
            None => forall|j: int| 0 <= j < s.len() ==> s[j] != b,
        },
    decreases s.len(),
{
    if s.len() > 0 && s[0] != b {
        lemma_find_first(s.drop_first(), b);
        assert(forall|j: int| 1 <= j < s.len() ==> s[j] == s.drop_first()[j - 1]);
    }
}

/// `s` split at every occurrence of `b`: `n` separators yield `n + 1`
/// parts, none containing `b`.
pub open spec fn spec_split(s: Seq<u8>, b: u8) -> Seq<Seq<u8>>
    decreases s.len(),
    via spec_split_decreases
{
    match spec_find(s, b) {
        None => seq![s],
        Some(i) => seq![s.take(i)] + spec_split(s.skip(i + 1), b),
    }
}

#[via_fn]
proof fn spec_split_decreases(s: Seq<u8>, b: u8) {
    lemma_find_first(s, b);
}

/// Field `i` of a split line; a missing field reads as empty.
pub open spec fn spec_opt_field(fields: Seq<Seq<u8>>, i: int) -> Seq<u8> {
    if 0 <= i < fields.len() {
        fields[i]
    } else {
        seq![]
    }
}

/// Field `i` of `line` split on commas; a missing field reads as empty.
pub open spec fn spec_field(line: Seq<u8>, i: int) -> Seq<u8> {
    spec_opt_field(spec_split(line, 44), i)
}

/// Splits a line on commas.
pub fn split_fields(line: &Vec<u8>) -> (r: Vec<Vec<u8>>)
    ensures
        r@.map_values(|f: Vec<u8>| f@) == spec_split(line@, 44),
{
    let mut fields: Vec<Vec<u8>> = Vec::new();
    let mut p: usize = 0;
    proof {
        assert(line@.skip(0) =~= line@);
    }
    loop
        invariant_except_break
            0 <= p <= line@.len(),
            fields@.map_values(|f: Vec<u8>| f@) + spec_split(line@.skip(p as int), 44)
                == spec_split(line@, 44),
        ensures
            fields@.map_values(|f: Vec<u8>| f@) == spec_split(line@, 44),
        decreases line@.len() - p,
    {
        let ghost old_fields = fields@.map_values(|f: Vec<u8>| f@);
        let ghost rest = line@.skip(p as int);
        // Scan for the next comma at or after p.
        let mut q: usize = p;
        while q < line.len() && line[q] != 44
            invariant
                p <= q <= line@.len(),
                forall|j: int| p <= j < q ==> line@[j] != 44,
            decreases line@.len() - q,
        {
            q = q + 1;
        }
        proof {
            lemma_find_first(rest, 44);
            assert(forall|j: int| 0 <= j < rest.len() ==> rest[j] == line@[j + p as int]);
            if q < line@.len() {
                assert(rest[q - p as int] == line@[q as int]);
                assert(spec_find(rest, 44) == Some(q - p as int));
                assert(rest.take(q - p as int) =~= line@.subrange(p as int, q as int));
                assert(rest.skip(q - p as int + 1) =~= line@.skip(q as int + 1));
            } else {
                assert(spec_find(rest, 44) is None);
                assert(rest =~= line@.subrange(p as int, line@.len() as int));
            }
        }
        let mut field: Vec<u8> = Vec::new();
        field.extend_from_slice(&line.as_slice()[p..q]);
        fields.push(field);
        proof {
            assert(field@ =~= line@.subrange(p as int, q as int));
            assert(fields@.map_values(|f: Vec<u8>| f@) =~= old_fields.push(field@));
        }
        if q == line.len() {
            proof {
                assert(spec_split(rest, 44) == seq![rest]);
                assert(old_fields.push(field@) =~= old_fields + spec_split(rest, 44));
            }
            break;
        }
        proof {
            assert(spec_split(rest, 44) == seq![line@.subrange(p as int, q as int)] + spec_split(
                line@.skip(q as int + 1),
                44,
            ));
            assert(old_fields.push(field@) + spec_split(line@.skip(q as int + 1), 44)
                =~= old_fields + spec_split(rest, 44));
        }
        p = q + 1;
    }
    fields
}

/// Every byte is an ASCII decimal digit.
pub open spec fn spec_all_digits(s: Seq<u8>) -> bool {
    forall|i: int| 0 <= i < s.len() ==> 48 <= #[trigger] s[i] <= 57
}

/// The numeric value of a digit string.
pub open spec fn spec_digits_val(s: Seq<u8>) -> int
    decreases s.len(),
{
    if s.len() == 0 {
        0
    } else {
        spec_digits_val(s.drop_last()) * 10 + s.last() - 48
    }
}

pub proof fn lemma_digits_val_nonneg(s: Seq<u8>)
    requires
        spec_all_digits(s),
    ensures
        spec_digits_val(s) >= 0,
    decreases s.len(),
{
    if s.len() > 0 {
        assert(spec_all_digits(s.drop_last()));
        lemma_digits_val_nonneg(s.drop_last());
    }
}

/// A digit string's value is at least the value of any of its prefixes.
pub proof fn lemma_digits_val_prefix(s: Seq<u8>, j: int)
    requires
        spec_all_digits(s),
        0 <= j <= s.len(),
    ensures
        spec_digits_val(s.take(j)) <= spec_digits_val(s),
    decreases s.len() - j,
{
    if j < s.len() {
        lemma_digits_val_prefix(s, j + 1);
        let t = s.take(j + 1);
        assert(t.drop_last() =~= s.take(j));
        assert(spec_all_digits(s.take(j)));
        lemma_digits_val_nonneg(s.take(j));
        assert(spec_digits_val(t) == spec_digits_val(s.take(j)) * 10 + t.last() - 48);
    } else {
        assert(s.take(j) =~= s);
    }
}

/// The numeric reading of a field, as the device sends it: an optional `+`
/// sign, then decimal digits; `None` when empty, malformed, or over `max`.
pub open spec fn spec_parse_uint(s: Seq<u8>, max: int) -> Option<int> {
    let t = if s.len() > 0 && s[0] == 43 {
        s.drop_first()
    } else {
        s
    };
    if t.len() > 0 && spec_all_digits(t) && spec_digits_val(t) <= max {
        Some(spec_digits_val(t))
    } else {
        None
    }
}

/// Parses a decimal field into a `u64`.
pub fn parse_u64(field: &Vec<u8>) -> (r: Option<u64>)
    ensures
        match r {
            Some(v) => spec_parse_uint(field@, u64::MAX as int) == Some(v as int),
            None => spec_parse_uint(field@, u64::MAX as int) is None,
        },
{
    let ghost whole = field@;
    let start: usize = if field.len() > 0 && field[0] == 43 {
        1
    } else {
        0
    };
    let ghost t = if whole.len() > 0 && whole[0] == 43 {
        whole.drop_first()
    } else {
        whole
    };
    proof {
        assert(t =~= whole.skip(start as int));
    }
    if field.len() == start {
        return None;
    }
    let mut acc: u64 = 0;
    let mut i: usize = start;
    proof {
        assert(t.take(0int) =~= Seq::<u8>::empty());
    }
    while i < field.len()
        invariant
            start <= i <= field@.len(),
            t == field@.skip(start as int),
            t == (if field@.len() > 0 && field@[0] == 43 {
                field@.drop_first()
            } else {
                field@
            }),
            start as int == (if field@.len() > 0 && field@[0] == 43 {
                1int
            } else {
                0int
            }),
            field@.len() > start,
            acc as int == spec_digits_val(t.take(i - start as int)),
            spec_all_digits(t.take(i - start as int)),
        decreases field@.len() - i,
    {
        let d = field[i];
        if d < 48 || d > 57 {
            proof {
                assert(t[i - start as int] == field@[i as int]);
                assert(!spec_all_digits(t));
                assert(spec_parse_uint(field@, u64::MAX as int) is None);
            }
            return None;
        }
        proof {
            assert(t.take(i + 1 - start as int).drop_last() =~= t.take(i - start as int));
            assert(t.take(i + 1 - start as int).last() == field@[i as int]);
        }
        if acc > (u64::MAX - (d - 48) as u64) / 10 {
            proof {
                let j = i + 1 - start as int;
                assert(spec_digits_val(t.take(j)) > u64::MAX);
                if spec_all_digits(t) {
                    lemma_digits_val_prefix(t, j);
                    assert(t.take(t.len() as int) =~= t);
                    assert(spec_digits_val(t) > u64::MAX);
                }
                assert(!spec_all_digits(t) || spec_digits_val(t) > u64::MAX);
                assert(spec_parse_uint(field@, u64::MAX as int) is None);
            }
            return None;
        }
        acc = acc * 10 + (d - 48) as u64;
        i = i + 1;
    }
    proof {
        assert(t.take(t.len() as int) =~= t);
        assert(t =~= t.take(field@.len() - start as int));
    }
    Some(acc)
}

/// Parses a decimal field into a `u32`.
pub fn parse_u32(field: &Vec<u8>) -> (r: Option<u32>)
    ensures
        match r {
            Some(v) => spec_parse_uint(field@, u32::MAX as int) == Some(v as int),
            None => spec_parse_uint(field@, u32::MAX as int) is None,
        },
{
    match parse_u64(field) {
        Some(v) => if v <= 0xFFFF_FFFFu64 {
            Some(v as u32)
        } else {
            None
        },
        None => None,
    }
}

/// Parses a decimal field into a `u8`.
pub fn parse_u8(field: &Vec<u8>) -> (r: Option<u8>)
    ensures
        match r {
            Some(v) => spec_parse_uint(field@, u8::MAX as int) == Some(v as int),
            None => spec_parse_uint(field@, u8::MAX as int) is None,
        },
{
    match parse_u64(field) {
        Some(v) => if v <= 0xFFu64 {
            Some(v as u8)
        } else {
            None
        },
        None => None,
    }
}

/// The `u32` reading of a field, default 0.
pub open spec fn spec_u32_field(line: Seq<u8>, i: int) -> u32 {
    match spec_parse_uint(spec_field(line, i), u32::MAX as int) {
        Some(v) => v as u32,
        None => 0,
    }
}

/// The `u64` reading of a field, default 0.
pub open spec fn spec_u64_field(line: Seq<u8>, i: int) -> u64 {
    match spec_parse_uint(spec_field(line, i), u64::MAX as int) {
        Some(v) => v as u64,
        None => 0,
    }
}

/// The `u8` reading of a field, default 0.
pub open spec fn spec_u8_field(line: Seq<u8>, i: int) -> u8 {
    match spec_parse_uint(spec_field(line, i), u8::MAX as int) {
        Some(v) => v as u8,
        None => 0,
    }
}

/// The boolean reading of a field: a field reading 0 or 1 sets the flag,
/// anything else leaves it at its default, false.
pub open spec fn spec_bool_field(line: Seq<u8>, i: int) -> bool {
    spec_parse_uint(spec_field(line, i), u8::MAX as int) == Some(1int)
}

/// The text reading of a field: the characters its bytes encode.
pub open spec fn spec_string_field(line: Seq<u8>, i: int) -> Seq<char> {
    let f = spec_field(line, i);
    if vstd::utf8::valid_utf8(f) {
        vstd::utf8::decode_utf8(f)
    } else {
        Seq::empty()
    }
}

/// Relies on String::from_utf8: it succeeds exactly on valid UTF-8 and
/// returns the text those bytes encode.
#[verifier::external_body]
fn utf8_string(bytes: &Vec<u8>) -> (r: Option<String>)
    ensures
        match r {
            Some(s) => vstd::utf8::valid_utf8(bytes@) && s@ == vstd::utf8::decode_utf8(bytes@)
                && vstd::utf8::encode_utf8(s@) == bytes@,
            None => !vstd::utf8::valid_utf8(bytes@),
        },
{
    String::from_utf8(bytes.clone()).ok()
}

/// Whether the line is valid UTF-8 text.
fn line_is_text(line: &Vec<u8>) -> (r: bool)
    ensures
        r == vstd::utf8::valid_utf8(line@),
{
    utf8_string(line).is_some()
}

/// Field `i` of the split line, empty when missing.
fn opt_field<'a>(fields: &'a Vec<Vec<u8>>, i: usize, empty: &'a Vec<u8>) -> (r: &'a Vec<u8>)
    requires
        empty@.len() == 0,
    ensures
        r@ == spec_opt_field(fields@.map_values(|f: Vec<u8>| f@), i as int),
{
    if i < fields.len() {
        proof {
            assert(fields@.map_values(|f: Vec<u8>| f@)[i as int] == fields@[i as int]@);
        }
        &fields[i]
    } else {
        proof {
            assert(empty@ =~= Seq::<u8>::empty());
        }
        empty
    }
}

/// What decoding the identification line yields.
pub open spec fn spec_identification_ok(line: Seq<u8>, r: HostIdentification) -> bool {
    if vstd::utf8::valid_utf8(line) {
        &&& r.model@ == spec_string_field(line, 0)
        &&& r.version@ == spec_string_field(line, 1)
        &&& r.dpmm == spec_u32_field(line, 2)
        &&& r.memory@ == spec_string_field(line, 3)
    } else {
        &&& r.model@ == Seq::<char>::empty()
        &&& r.version@ == Seq::<char>::empty()
        &&& r.dpmm == 0
        &&& r.memory@ == Seq::<char>::empty()
    }
}

/// What decoding the first status line yields.
pub open spec fn spec_status1_ok(line: Seq<u8>, r: HostStatus1) -> bool {
    let l = if vstd::utf8::valid_utf8(line) {
        line
    } else {
        seq![]
    };
    &&& r.a_communication == spec_u32_field(l, 0)
    &&& r.b_paper_out == spec_bool_field(l, 1)
    &&& r.c_pause == spec_bool_field(l, 2)
    &&& r.d_label_length == spec_u32_field(l, 3)
    &&& r.e_number_formats == spec_u32_field(l, 4)
    &&& r.f_buffer_full == spec_bool_field(l, 5)
    &&& r.g_communication_diagnostics == spec_bool_field(l, 6)
    &&& r.h_partial_format == spec_bool_field(l, 7)
    &&& r.j_corrupt_ram == spec_bool_field(l, 9)
    &&& r.k_temperature_low == spec_bool_field(l, 10)
    &&& r.l_temperature_high == spec_bool_field(l, 11)
}

/// What decoding the second status line yields.
pub open spec fn spec_status2_ok(line: Seq<u8>, r: HostStatus2) -> bool {
    let l = if vstd::utf8::valid_utf8(line) {
        line
    } else {
        seq![]
    };
    &&& r.m_settings == spec_u8_field(l, 0)
    &&& r.o_head_up == spec_bool_field(l, 2)
    &&& r.p_ribbon_out == spec_bool_field(l, 3)
    &&& r.q_thermal_transfer_mode == spec_bool_field(l, 4)
    &&& r.r_print_mode == spec_u32_field(l, 5)
    &&& r.s_print_width_mode == spec_u8_field(l, 6)
    &&& r.t_label_waiting == spec_bool_field(l, 7)
    &&& r.u_labels_remaining == spec_u32_field(l, 8)
    &&& r.v_format_printing == spec_bool_field(l, 9)
    &&& r.w_number_graphics_stored == spec_u32_field(l, 10)
}

/// What decoding the third status line yields.
pub open spec fn spec_status3_ok(line: Seq<u8>, r: HostStatus3) -> bool {
    if vstd::utf8::valid_utf8(line) {
        &&& r.x_password@ == spec_string_field(line, 0)
        &&& r.y_static_ram == spec_bool_field(line, 1)
    } else {
        &&& r.x_password@ == Seq::<char>::empty()
        &&& r.y_static_ram == false
    }
}

/// What decoding the RAM line yields.
pub open spec fn spec_ram_ok(line: Seq<u8>, r: HostRamStatus) -> bool {
    let l = if vstd::utf8::valid_utf8(line) {
        line
    } else {
        seq![]
    };
    &&& r.total == spec_u32_field(l, 0)
    &&& r.maximum_to_user == spec_u64_field(l, 1)
    &&& r.available_to_user == spec_u64_field(l, 2)
}

/// Field `i` read as `u32`, default 0.
fn field_u32(fields: &Vec<Vec<u8>>, i: usize, empty: &Vec<u8>, Ghost(line): Ghost<Seq<u8>>) -> (r:
    u32)
    requires
        empty@.len() == 0,
        fields@.map_values(|f: Vec<u8>| f@) == spec_split(line, 44),
    ensures
        r == spec_u32_field(line, i as int),
{
    let f = opt_field(fields, i, empty);
    match parse_u32(f) {
        Some(v) => v,
        None => 0,
    }
}

/// Field `i` read as `u64`, default 0.
fn field_u64(fields: &Vec<Vec<u8>>, i: usize, empty: &Vec<u8>, Ghost(line): Ghost<Seq<u8>>) -> (r:
    u64)
    requires
        empty@.len() == 0,
        fields@.map_values(|f: Vec<u8>| f@) == spec_split(line, 44),
    ensures
        r == spec_u64_field(line, i as int),
{
    let f = opt_field(fields, i, empty);
    match parse_u64(f) {
        Some(v) => v,
        None => 0,
    }
}

/// Field `i` read as `u8`, default 0.
fn field_u8(fields: &Vec<Vec<u8>>, i: usize, empty: &Vec<u8>, Ghost(line): Ghost<Seq<u8>>) -> (r:
    u8)
    requires
        empty@.len() == 0,
        fields@.map_values(|f: Vec<u8>| f@) == spec_split(line, 44),
    ensures
        r == spec_u8_field(line, i as int),
{
    let f = opt_field(fields, i, empty);
    match parse_u8(f) {
        Some(v) => v,
        None => 0,
    }
}

/// Field `i` read as a flag, default false.
fn field_bool(fields: &Vec<Vec<u8>>, i: usize, empty: &Vec<u8>, Ghost(line): Ghost<Seq<u8>>) -> (r:
    bool)
    requires
        empty@.len() == 0,
        fields@.map_values(|f: Vec<u8>| f@) == spec_split(line, 44),
    ensures
        r == spec_bool_field(line, i as int),
{
    let f = opt_field(fields, i, empty);
    match parse_u8(f) {
        Some(v) => v == 1,
        None => false,
    }
}

/// Field `i` read as text.
fn field_text(fields: &Vec<Vec<u8>>, i: usize, empty: &Vec<u8>, Ghost(line): Ghost<Seq<u8>>) -> (r:
    String)
    requires
        empty@.len() == 0,
        fields@.map_values(|f: Vec<u8>| f@) == spec_split(line, 44),
    ensures
        r@ == spec_string_field(line, i as int),
{
    let f = opt_field(fields, i, empty);
    match utf8_string(f) {
        Some(s) => s,
        None => String::new(),
    }
}

/// Decodes the identification response line.
pub fn decode_identification(line: &Vec<u8>) -> (r: HostIdentification)
    ensures
        spec_identification_ok(line@, r),
{
    if !line_is_text(line) {
        return HostIdentification {
            model: String::new(),
            version: String::new(),
            dpmm: 0,
            memory: String::new(),
        };
    }
    let empty: Vec<u8> = Vec::new();
    let fields = split_fields(line);
    let ghost l = line@;
    HostIdentification {
        model: field_text(&fields, 0, &empty, Ghost(l)),
        version: field_text(&fields, 1, &empty, Ghost(l)),
        dpmm: field_u32(&fields, 2, &empty, Ghost(l)),
        memory: field_text(&fields, 3, &empty, Ghost(l)),
    }
}

/// Decodes the first status response line.
pub fn decode_status1(line: &Vec<u8>) -> (r: HostStatus1)
    ensures
        spec_status1_ok(line@, r),
{
    let empty: Vec<u8> = Vec::new();
    let blank: Vec<u8> = Vec::new();
    let usable = if line_is_text(line) {
        line
    } else {
        proof {
            assert(blank@ =~= Seq::<u8>::empty());
        }
        &blank
    };
    let fields = split_fields(usable);
    let ghost l = usable@;
    HostStatus1 {
        a_communication: field_u32(&fields, 0, &empty, Ghost(l)),
        b_paper_out: field_bool(&fields, 1, &empty, Ghost(l)),
        c_pause: field_bool(&fields, 2, &empty, Ghost(l)),
        d_label_length: field_u32(&fields, 3, &empty, Ghost(l)),
        e_number_formats: field_u32(&fields, 4, &empty, Ghost(l)),
        f_buffer_full: field_bool(&fields, 5, &empty, Ghost(l)),
        g_communication_diagnostics: field_bool(&fields, 6, &empty, Ghost(l)),
        h_partial_format: field_bool(&fields, 7, &empty, Ghost(l)),
        j_corrupt_ram: field_bool(&fields, 9, &empty, Ghost(l)),
        k_temperature_low: field_bool(&fields, 10, &empty, Ghost(l)),
        l_temperature_high: field_bool(&fields, 11, &empty, Ghost(l)),
    }
}

/// Decodes the second status response line.
pub fn decode_status2(line: &Vec<u8>) -> (r: HostStatus2)
    ensures
        spec_status2_ok(line@, r),
{
    let empty: Vec<u8> = Vec::new();
    let blank: Vec<u8> = Vec::new();
    let usable = if line_is_text(line) {
        line
    } else {
        proof {
            assert(blank@ =~= Seq::<u8>::empty());
        }
        &blank
    };
    let fields = split_fields(usable);
    let ghost l = usable@;
    HostStatus2 {
        m_settings: field_u8(&fields, 0, &empty, Ghost(l)),
        o_head_up: field_bool(&fields, 2, &empty, Ghost(l)),
        p_ribbon_out: field_bool(&fields, 3, &empty, Ghost(l)),
        q_thermal_transfer_mode: field_bool(&fields, 4, &empty, Ghost(l)),
        r_print_mode: field_u32(&fields, 5, &empty, Ghost(l)),
        s_print_width_mode: field_u8(&fields, 6, &empty, Ghost(l)),
        t_label_waiting: field_bool(&fields, 7, &empty, Ghost(l)),
        u_labels_remaining: field_u32(&fields, 8, &empty, Ghost(l)),
        v_format_printing: field_bool(&fields, 9, &empty, Ghost(l)),
        w_number_graphics_stored: field_u32(&fields, 10, &empty, Ghost(l)),
    }
}

/// Decodes the third status response line.
pub fn decode_status3(line: &Vec<u8>) -> (r: HostStatus3)
    ensures
        spec_status3_ok(line@, r),
{
    if !line_is_text(line) {
        return HostStatus3 { x_password: String::new(), y_static_ram: false };
    }
    let empty: Vec<u8> = Vec::new();
    let fields = split_fields(line);
    let ghost l = line@;
    HostStatus3 {
        x_password: field_text(&fields, 0, &empty, Ghost(l)),
        y_static_ram: field_bool(&fields, 1, &empty, Ghost(l)),
    }
}

/// Decodes the RAM response line.
pub fn decode_ram(line: &Vec<u8>) -> (r: HostRamStatus)
    ensures
        spec_ram_ok(line@, r),
{
    let empty: Vec<u8> = Vec::new();
    let blank: Vec<u8> = Vec::new();
    let usable = if line_is_text(line) {
        line
    } else {
        proof {
            assert(blank@ =~= Seq::<u8>::empty());
        }
        &blank
    };
    let fields = split_fields(usable);
    let ghost l = usable@;
    HostRamStatus {
        total: field_u32(&fields, 0, &empty, Ghost(l)),
        maximum_to_user: field_u64(&fields, 1, &empty, Ghost(l)),
        available_to_user: field_u64(&fields, 2, &empty, Ghost(l)),
    }
}

/// The three discovery commands of a status query, in send order.
pub fn status_query_commands() -> (r: CommandSequence)
    ensures
        r.0@ =~= seq![
            ZplCommand::RequestHostIdentification,
            ZplCommand::RequestHostStatus,
            ZplCommand::RequestHostRamStatus,
        ],
        spec_total_response_lines(r.0@) == 5,
{
    let mut v: Vec<ZplCommand> = Vec::new();
    v.push(ZplCommand::RequestHostIdentification);
    v.push(ZplCommand::RequestHostStatus);
    v.push(ZplCommand::RequestHostRamStatus);
    let r = CommandSequence(v);
    proof {
        assert(r.0@ =~= seq![
            ZplCommand::RequestHostIdentification,
            ZplCommand::RequestHostStatus,
            ZplCommand::RequestHostRamStatus,
        ]);
        assert(r.0@.drop_first() =~= seq![
            ZplCommand::RequestHostStatus,
            ZplCommand::RequestHostRamStatus,
        ]);
        assert(r.0@.drop_first().drop_first() =~= seq![ZplCommand::RequestHostRamStatus]);
        assert(r.0@.drop_first().drop_first().drop_first() =~= Seq::<ZplCommand>::empty());
        assert(spec_total_response_lines(r.0@.drop_first().drop_first().drop_first()) == 0);
        assert(spec_total_response_lines(r.0@.drop_first().drop_first()) == 1);
        assert(spec_total_response_lines(r.0@.drop_first()) == 4);
        assert(spec_total_response_lines(r.0@) == 5);
    }
    r
}

/// Decodes the five response lines of a status query, in the order the
/// discovery commands provoke them: identification, the three status
/// registers, RAM usage.
pub fn decode_host_status(lines: &Vec<Vec<u8>>) -> (r: HostStatus)
    requires
        lines@.len() == 5,
    ensures
        spec_identification_ok(lines@[0]@, r.identification),
        spec_status1_ok(lines@[1]@, r.string1),
        spec_status2_ok(lines@[2]@, r.string2),
        spec_status3_ok(lines@[3]@, r.string3),
        spec_ram_ok(lines@[4]@, r.ram_status),
{
    HostStatus {
        identification: decode_identification(&lines[0]),
        string1: decode_status1(&lines[1]),
        string2: decode_status2(&lines[2]),
        string3: decode_status3(&lines[3]),
        ram_status: decode_ram(&lines[4]),
    }
}

/// The pair of fields of the second status register that signal whether the
/// physical print has finished: the "label waiting to be taken" flag and the
/// "labels remaining in batch" counter.
pub struct PrintProgress {
    /// A label is waiting in the peel-off position.
    pub label_waiting: bool,
    /// Labels remaining in the current batch, when the field parsed.
    pub labels_remaining: Option<u32>,
}

impl PrintProgress {
    /// The device has finished printing: no label is waiting and the batch
    /// counter reads zero.
    pub fn complete(&self) -> (r: bool)
        ensures
            r == (!self.label_waiting && self.labels_remaining == Some(0u32)),
    {
        !self.label_waiting && match self.labels_remaining {
            Some(v) => v == 0,
            None => false,
        }
    }
}

/// Reads the print-progress field pair from the second status line of a
/// status query, raw: the flag is set only by a field reading exactly `1`.
pub fn print_progress(status2_line: &Vec<u8>) -> (r: PrintProgress)
    ensures
        r.label_waiting == (spec_field(status2_line@, 7) =~= seq![49u8]),
        match r.labels_remaining {
            Some(v) => spec_parse_uint(spec_field(status2_line@, 8), u32::MAX as int) == Some(
                v as int,
            ),
            None => spec_parse_uint(spec_field(status2_line@, 8), u32::MAX as int) is None,
        },
{
    let empty: Vec<u8> = Vec::new();
    let fields = split_fields(status2_line);
    let ghost l = status2_line@;
    let waiting_field = opt_field(&fields, 7, &empty);
    let label_waiting = waiting_field.len() == 1 && waiting_field[0] == 49;
    proof {
        if label_waiting {
            assert(waiting_field@ =~= seq![49u8]);
        } else {
            assert(waiting_field@ !~= seq![49u8]);
        }
    }
    let remaining_field = opt_field(&fields, 8, &empty);
    let labels_remaining = parse_u32(remaining_field);
    PrintProgress { label_waiting, labels_remaining }
}

} // verus!
