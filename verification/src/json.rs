//! JSON encoding of the wire payload values.
//!
//! The wire protocol carries each payload as a single JSON value: a string,
//! a signed integer, or an array of integers. Encoding and decoding are done
//! by serde_json behind the trusted wrappers below. The integer and array
//! encodings are small enough to state exactly (compact decimal form);
//! the string encoding and all decodings are named by uninterpreted spec
//! functions, tied together by the round-trip clauses on the encoders.
use vstd::prelude::*;

verus! {

/// The decimal digit character for `d` in `0..=9`.
pub open spec fn digit_char(d: int) -> char {
    if d == 0 {
        '0'
    } else if d == 1 {
        '1'
    } else if d == 2 {
        '2'
    } else if d == 3 {
        '3'
    } else if d == 4 {
        '4'
    } else if d == 5 {
        '5'
    } else if d == 6 {
        '6'
    } else if d == 7 {
        '7'
    } else if d == 8 {
        '8'
    } else {
        '9'
    }
}

/// The decimal representation of `n`, without sign or leading zeros.
pub open spec fn dec_nat(n: nat) -> Seq<char>
    decreases n,
{
    if n < 10 {
        seq![digit_char(n as int)]
    } else {
        dec_nat(n / 10).push(digit_char((n % 10) as int))
    }
}

/// The decimal representation of a signed value: a leading `-` when negative.
pub open spec fn dec_int(i: int) -> Seq<char> {
    if i < 0 {
        seq!['-'] + dec_nat((-i) as nat)
    } else {
        dec_nat(i as nat)
    }
}

/// `elts` joined by single commas.
pub open spec fn join_comma(elts: Seq<Seq<char>>) -> Seq<char>
    decreases elts.len(),
{
    if elts.len() == 0 {
        Seq::empty()
    } else if elts.len() == 1 {
        elts[0]
    } else {
        join_comma(elts.drop_last()) + seq![','] + elts.last()
    }
}

/// Compact JSON form of an array of unsigned 32-bit integers: `[1,2,3]`.
pub open spec fn json_u32_arr(v: Seq<u32>) -> Seq<char> {
    seq!['['] + join_comma(v.map_values(|x: u32| dec_int(x as int))) + seq![']']
}

/// Compact JSON form of an array of signed 32-bit integers.
pub open spec fn json_i32_arr(v: Seq<i32>) -> Seq<char> {
    seq!['['] + join_comma(v.map_values(|x: i32| dec_int(x as int))) + seq![']']
}

/// No character of a decimal representation is a newline.
pub proof fn lemma_dec_nat_no_newline(n: nat)
    ensures
        forall|i: int| 0 <= i < dec_nat(n).len() ==> dec_nat(n)[i] != '\n',
    decreases n,
{
    if n >= 10 {
        lemma_dec_nat_no_newline(n / 10);
        assert forall|i: int| 0 <= i < dec_nat(n).len() implies dec_nat(n)[i] != '\n' by {
            if i < dec_nat(n / 10).len() {
                assert(dec_nat(n)[i] == dec_nat(n / 10)[i]);
            } else {
                assert(dec_nat(n)[i] == digit_char((n % 10) as int));
            }
        }
    }
}

/// No character of a signed decimal representation is a newline.
pub proof fn lemma_dec_int_no_newline(i: int)
    ensures
        forall|j: int| 0 <= j < dec_int(i).len() ==> dec_int(i)[j] != '\n',
{
    if i < 0 {
        lemma_dec_nat_no_newline((-i) as nat);
    } else {
        lemma_dec_nat_no_newline(i as nat);
    }
}

/// Joining newline-free pieces with commas stays newline-free.
pub proof fn lemma_join_comma_no_newline(elts: Seq<Seq<char>>)
    requires
        forall|k: int, i: int|
            0 <= k < elts.len() && 0 <= i < elts[k].len() ==> #[trigger] elts[k][i] != '\n',
    ensures
        forall|i: int| 0 <= i < join_comma(elts).len() ==> join_comma(elts)[i] != '\n',
    decreases elts.len(),
{
    if elts.len() == 1 {
        assert forall|i: int| 0 <= i < join_comma(elts).len() implies join_comma(elts)[i] != '\n' by {
            assert(join_comma(elts)[i] == elts[0][i]);
        }
    } else if elts.len() > 1 {
        assert forall|k: int, i: int|
            0 <= k < elts.drop_last().len() && 0 <= i < elts.drop_last()[k].len() implies #[trigger] elts
            .drop_last()[k][i] != '\n' by {
            assert(elts.drop_last()[k] == elts[k]);
        }
        lemma_join_comma_no_newline(elts.drop_last());
        assert forall|i: int| 0 <= i < join_comma(elts).len() implies join_comma(elts)[i] != '\n' by {
            let j = join_comma(elts.drop_last());
            if i < j.len() {
                assert(join_comma(elts)[i] == j[i]);
            } else if i == j.len() {
                assert(join_comma(elts)[i] == ',');
            } else {
                assert(join_comma(elts)[i] == elts.last()[i - j.len() - 1]);
                assert(elts.last() == elts[elts.len() - 1]);
            }
        }
    }
}

/// The compact JSON array form of a `u32` sequence holds no newline.
pub proof fn lemma_json_u32_arr_no_newline(v: Seq<u32>)
    ensures
        forall|i: int| 0 <= i < json_u32_arr(v).len() ==> json_u32_arr(v)[i] != '\n',
{
    let elts = v.map_values(|x: u32| dec_int(x as int));
    assert forall|k: int, i: int|
        0 <= k < elts.len() && 0 <= i < elts[k].len() implies #[trigger] elts[k][i] != '\n' by {
        lemma_dec_int_no_newline(v[k] as int);
    }
    lemma_join_comma_no_newline(elts);
}

/// The compact JSON array form of an `i32` sequence holds no newline.
pub proof fn lemma_json_i32_arr_no_newline(v: Seq<i32>)
    ensures
        forall|i: int| 0 <= i < json_i32_arr(v).len() ==> json_i32_arr(v)[i] != '\n',
{
    let elts = v.map_values(|x: i32| dec_int(x as int));
    assert forall|k: int, i: int|
        0 <= k < elts.len() && 0 <= i < elts[k].len() implies #[trigger] elts[k][i] != '\n' by {
        lemma_dec_int_no_newline(v[k] as int);
    }
    lemma_join_comma_no_newline(elts);
}

/// The JSON encoding of a string value (quoted, with escapes), as produced
/// by serde_json.
pub uninterp spec fn json_string_enc(s: Seq<char>) -> Seq<char>;

/// What serde_json's decoder yields for `s` when one JSON string value is
/// expected: the string's contents, or `None` when `s` is not such a value.
pub uninterp spec fn json_string_dec(s: Seq<char>) -> Option<Seq<char>>;

/// What serde_json's decoder yields for `s` when one JSON array of `u32` is
/// expected.
pub uninterp spec fn json_u32_arr_dec(s: Seq<char>) -> Option<Seq<u32>>;

/// What serde_json's decoder yields for `s` when one JSON array of `i32` is
/// expected.
pub uninterp spec fn json_i32_arr_dec(s: Seq<char>) -> Option<Seq<i32>>;

/// What serde_json's decoder yields for `s` when one JSON `i32` is expected.
pub uninterp spec fn json_i32_dec(s: Seq<char>) -> Option<i32>;

/// Relies on `serde_json::to_string` for a `String` value: it produces an
/// RFC 8259 string (control characters escaped, hence no raw newline), it
/// cannot fail for a plain string, and `serde_json::from_str` parses the
/// result back to the same string.
#[verifier::external_body]
pub(crate) fn json_encode_string(s: &String) -> (r: String)
    ensures
        r@ == json_string_enc(s@),
        json_string_dec(r@) == Some(s@),
        forall|i: int| 0 <= i < r@.len() ==> r@[i] != '\n',
{
    serde_json::to_string(s).unwrap_or(String::new())
}

/// Relies on `serde_json::from_str::<String>`: it accepts exactly one JSON
/// string value (surrounded by optional whitespace) and yields its contents.
#[verifier::external_body]
pub(crate) fn json_parse_string(s: &str) -> (r: Option<String>)
    ensures
        r matches Some(t) ==> json_string_dec(s@) == Some(t@),
        r is None <==> json_string_dec(s@) is None,
{
    serde_json::from_str::<String>(s).ok()
}

/// Relies on `serde_json::to_string` for `Vec<u32>`: compact decimal array
/// form, infallible for integers, parsed back to the same vector by
/// `serde_json::from_str`.
#[verifier::external_body]
pub(crate) fn json_encode_u32_vec(v: &Vec<u32>) -> (r: String)
    ensures
        r@ == json_u32_arr(v@),
        json_u32_arr_dec(r@) == Some(v@),
{
    serde_json::to_string(v).unwrap_or(String::new())
}

/// Relies on `serde_json::to_string` for `Vec<i32>`: compact decimal array
/// form, infallible for integers, parsed back to the same vector by
/// `serde_json::from_str`.
#[verifier::external_body]
pub(crate) fn json_encode_i32_vec(v: &Vec<i32>) -> (r: String)
    ensures
        r@ == json_i32_arr(v@),
        json_i32_arr_dec(r@) == Some(v@),
{
    serde_json::to_string(v).unwrap_or(String::new())
}

/// Relies on `serde_json::to_string` for `i32`: plain decimal form,
/// infallible, parsed back to the same value by `serde_json::from_str`.
#[verifier::external_body]
pub(crate) fn json_encode_i32(i: i32) -> (r: String)
    ensures
        r@ == dec_int(i as int),
        json_i32_dec(r@) == Some(i),
{
    serde_json::to_string(&i).unwrap_or(String::new())
}

/// Relies on `serde_json::from_str::<Vec<u32>>`: it accepts exactly one JSON
/// array of `u32` values and yields them in order.
#[verifier::external_body]
pub(crate) fn json_parse_u32_vec(s: &str) -> (r: Option<Vec<u32>>)
    ensures
        r matches Some(v) ==> json_u32_arr_dec(s@) == Some(v@),
        r is None <==> json_u32_arr_dec(s@) is None,
{
    serde_json::from_str::<Vec<u32>>(s).ok()
}

/// Relies on `serde_json::from_str::<Vec<i32>>`: it accepts exactly one JSON
/// array of `i32` values and yields them in order.
#[verifier::external_body]
pub(crate) fn json_parse_i32_vec(s: &str) -> (r: Option<Vec<i32>>)
    ensures
        r matches Some(v) ==> json_i32_arr_dec(s@) == Some(v@),
        r is None <==> json_i32_arr_dec(s@) is None,
{
    serde_json::from_str::<Vec<i32>>(s).ok()
}

/// Relies on `serde_json::from_str::<i32>`: it accepts exactly one JSON
/// integer in the `i32` range and yields its value.
#[verifier::external_body]
pub(crate) fn json_parse_i32(s: &str) -> (r: Option<i32>)
    ensures
        r matches Some(i) ==> json_i32_dec(s@) == Some(i),
        r is None <==> json_i32_dec(s@) is None,
{
    serde_json::from_str::<i32>(s).ok()
}

} // verus!
