//! The JSON value model the protocol is spoken in, together with its
//! canonical text form: minified, with object fields in the order they were
//! built, strings escaped to plain ASCII. Every byte of the wire text is
//! pinned down by the spec functions here.
use vstd::prelude::*;

use vstd::string::StrSliceExecFns;

verus! {

broadcast use vstd::seq::group_seq_axioms, vstd::std_specs::vec::group_vec_axioms;

/// A JSON value. Numbers are integral: the protocol's ids, sizes and option
/// fields are integers end to end.
pub enum JsonValue {
    Null,
    Bool(bool),
    Int(i64),
    Str(String),
    Arr(Vec<JsonValue>),
    Obj(Vec<(String, JsonValue)>),
}

/// Structural equality on JSON values, comparing strings by their characters.
pub open spec fn json_eq(a: JsonValue, b: JsonValue) -> bool
    decreases a,
{
    match (a, b) {
        (JsonValue::Null, JsonValue::Null) => true,
        (JsonValue::Bool(x), JsonValue::Bool(y)) => x == y,
        (JsonValue::Int(x), JsonValue::Int(y)) => x == y,
        (JsonValue::Str(x), JsonValue::Str(y)) => x@ == y@,
        (JsonValue::Arr(xs), JsonValue::Arr(ys)) => arr_eq(xs@, ys@),
        (JsonValue::Obj(xs), JsonValue::Obj(ys)) => obj_eq(xs@, ys@),
        _ => false,
    }
}

/// Elementwise equality of two JSON arrays.
pub open spec fn arr_eq(xs: Seq<JsonValue>, ys: Seq<JsonValue>) -> bool
    decreases xs,
{
    &&& xs.len() == ys.len()
    &&& (xs.len() > 0 ==> arr_eq(xs.drop_last(), ys.drop_last()) && json_eq(
        xs.last(),
        ys.last(),
    ))
}

/// Fieldwise equality of two JSON objects: same names in the same order,
/// equal values.
pub open spec fn obj_eq(xs: Seq<(String, JsonValue)>, ys: Seq<(String, JsonValue)>) -> bool
    decreases xs,
{
    &&& xs.len() == ys.len()
    &&& (xs.len() > 0 ==> obj_eq(xs.drop_last(), ys.drop_last()) && xs.last().0@
        == ys.last().0@ && json_eq(xs.last().1, ys.last().1))
}

/// The byte of a single decimal digit.
pub open spec fn digit_byte(n: nat) -> u8
    recommends
        n < 10,
{
    (0x30 + n) as u8
}

/// The byte of a single lowercase hexadecimal digit.
pub open spec fn hex_digit_byte(n: nat) -> u8
    recommends
        n < 16,
{
    if n < 10 {
        (0x30 + n) as u8
    } else {
        (0x61 + n - 10) as u8
    }
}

/// Decimal digits of a natural number, most significant first, no leading
/// zeros.
pub open spec fn dec_digits(n: nat) -> Seq<u8>
    decreases n,
{
    if n < 10 {
        seq![digit_byte(n)]
    } else {
        dec_digits(n / 10).push(digit_byte(n % 10))
    }
}

/// Canonical text of an integer: optional minus sign, then decimal digits.
pub open spec fn int_text(i: int) -> Seq<u8> {
    if i < 0 {
        seq![0x2du8] + dec_digits((-i) as nat)
    } else {
        dec_digits(i as nat)
    }
}

/// Escape of one character inside a JSON string: the two-character escapes
/// JSON names, `\u` escapes for other control and all non-ASCII characters
/// (a supplementary-plane character as a surrogate pair), and the plain byte
/// for everything else.
pub open spec fn escape_char(c: char) -> Seq<u8> {
    let n = c as u32;
    if n == 0x22 {
        seq![0x5cu8, 0x22u8]
    } else if n == 0x5c {
        seq![0x5cu8, 0x5cu8]
    } else if n == 0x08 {
        seq![0x5cu8, 0x62u8]
    } else if n == 0x09 {
        seq![0x5cu8, 0x74u8]
    } else if n == 0x0a {
        seq![0x5cu8, 0x6eu8]
    } else if n == 0x0c {
        seq![0x5cu8, 0x66u8]
    } else if n == 0x0d {
        seq![0x5cu8, 0x72u8]
    } else if n < 0x20 {
        seq![0x5cu8, 0x75u8, 0x30u8, 0x30u8]
            + seq![hex_digit_byte((n / 16) as nat), hex_digit_byte((n % 16) as nat)]
    } else if n < 0x80 {
        seq![n as u8]
    } else if n < 0x10000 {
        seq![0x5cu8, 0x75u8]
            + seq![
            hex_digit_byte((n / 0x1000) as nat),
            hex_digit_byte((n / 0x100 % 16) as nat),
            hex_digit_byte((n / 16 % 16) as nat),
            hex_digit_byte((n % 16) as nat),
        ]
    } else {
        let m = (n - 0x10000) as u32;
        let hi = (0xd800 + m / 0x400) as u32;
        let lo = (0xdc00 + m % 0x400) as u32;
        seq![0x5cu8, 0x75u8]
            + seq![
            hex_digit_byte((hi / 0x1000) as nat),
            hex_digit_byte((hi / 0x100 % 16) as nat),
            hex_digit_byte((hi / 16 % 16) as nat),
            hex_digit_byte((hi % 16) as nat),
        ] + seq![0x5cu8, 0x75u8]
            + seq![
            hex_digit_byte((lo / 0x1000) as nat),
            hex_digit_byte((lo / 0x100 % 16) as nat),
            hex_digit_byte((lo / 16 % 16) as nat),
            hex_digit_byte((lo % 16) as nat),
        ]
    }
}

/// Escaped bytes of a whole string body.
pub open spec fn escaped_str(s: Seq<char>) -> Seq<u8>
    decreases s.len(),
{
    if s.len() == 0 {
        Seq::empty()
    } else {
        escaped_str(s.drop_last()) + escape_char(s.last())
    }
}

/// A quoted, escaped JSON string.
pub open spec fn quoted(s: Seq<char>) -> Seq<u8> {
    seq![0x22u8] + escaped_str(s) + seq![0x22u8]
}

/// Canonical minified text of a JSON value.
pub open spec fn json_text(v: JsonValue) -> Seq<u8>
    decreases v,
{
    match v {
        JsonValue::Null => seq![0x6eu8, 0x75u8, 0x6cu8, 0x6cu8],
        JsonValue::Bool(b) => if b {
            seq![0x74u8, 0x72u8, 0x75u8, 0x65u8]
        } else {
            seq![0x66u8, 0x61u8, 0x6cu8, 0x73u8, 0x65u8]
        },
        JsonValue::Int(i) => int_text(i as int),
        JsonValue::Str(s) => quoted(s@),
        JsonValue::Arr(xs) => seq![0x5bu8] + arr_items_text(xs@) + seq![0x5du8],
        JsonValue::Obj(fs) => seq![0x7bu8] + obj_items_text(fs@) + seq![0x7du8],
    }
}

/// Comma-separated text of an array's items.
pub open spec fn arr_items_text(xs: Seq<JsonValue>) -> Seq<u8>
    decreases xs,
{
    if xs.len() == 0 {
        Seq::empty()
    } else if xs.len() == 1 {
        json_text(xs.last())
    } else {
        arr_items_text(xs.drop_last()) + seq![0x2cu8] + json_text(xs.last())
    }
}

/// Text of one object field: quoted name, colon, value.
pub open spec fn field_text(f: (String, JsonValue)) -> Seq<u8>
    decreases f,
{
    quoted(f.0@) + seq![0x3au8] + json_text(f.1)
}

/// Comma-separated text of an object's fields, in the order they were built.
pub open spec fn obj_items_text(fs: Seq<(String, JsonValue)>) -> Seq<u8>
    decreases fs,
{
    if fs.len() == 0 {
        Seq::empty()
    } else if fs.len() == 1 {
        field_text(fs.last())
    } else {
        obj_items_text(fs.drop_last()) + seq![0x2cu8] + field_text(fs.last())
    }
}

/// One lowercase hexadecimal digit as a byte.
fn hex_digit(n: u32) -> (r: u8)
    requires
        n < 16,
    ensures
        r == hex_digit_byte(n as nat),
{
    if n < 10 {
        0x30 + n as u8
    } else {
        0x61 + (n as u8 - 10)
    }
}

/// Appends the decimal digits of `n`.
fn write_dec(out: &mut Vec<u8>, n: u64)
    ensures
        final(out)@ == old(out)@ + dec_digits(n as nat),
    decreases n,
{
    if n < 10 {
        out.push(0x30 + n as u8);
    } else {
        write_dec(out, n / 10);
        out.push(0x30 + (n % 10) as u8);
    }
}

/// Appends the canonical text of a signed integer.
fn write_int(out: &mut Vec<u8>, i: i64)
    ensures
        final(out)@ == old(out)@ + int_text(i as int),
{
    if i < 0 {
        out.push(0x2d);
        let mag: u64 = if i == i64::MIN {
            9223372036854775808u64
        } else {
            (-i) as u64
        };
        assert(mag == -(i as int));
        write_dec(out, mag);
        assert(out@ =~= old(out)@ + int_text(i as int));
    } else {
        write_dec(out, i as u64);
    }
}

/// Appends the escape of one character.
fn push_escape(out: &mut Vec<u8>, c: char)
    ensures
        final(out)@ == old(out)@ + escape_char(c),
{
    let n: u32 = c as u32;
    if n == 0x22 {
        out.push(0x5c);
        out.push(0x22);
    } else if n == 0x5c {
        out.push(0x5c);
        out.push(0x5c);
    } else if n == 0x08 {
        out.push(0x5c);
        out.push(0x62);
    } else if n == 0x09 {
        out.push(0x5c);
        out.push(0x74);
    } else if n == 0x0a {
        out.push(0x5c);
        out.push(0x6e);
    } else if n == 0x0c {
        out.push(0x5c);
        out.push(0x66);
    } else if n == 0x0d {
        out.push(0x5c);
        out.push(0x72);
    } else if n < 0x20 {
        out.push(0x5c);
        out.push(0x75);
        out.push(0x30);
        out.push(0x30);
        out.push(hex_digit(n / 16));
        out.push(hex_digit(n % 16));
    } else if n < 0x80 {
        out.push(n as u8);
    } else if n < 0x10000 {
        out.push(0x5c);
        out.push(0x75);
        out.push(hex_digit(n / 0x1000));
        out.push(hex_digit(n / 0x100 % 16));
        out.push(hex_digit(n / 16 % 16));
        out.push(hex_digit(n % 16));
    } else {
        proof {
            vstd::utf8::char_is_scalar(c);
        }
        let m: u32 = n - 0x10000;
        let hi: u32 = 0xd800 + m / 0x400;
        let lo: u32 = 0xdc00 + m % 0x400;
        out.push(0x5c);
        out.push(0x75);
        out.push(hex_digit(hi / 0x1000));
        out.push(hex_digit(hi / 0x100 % 16));
        out.push(hex_digit(hi / 16 % 16));
        out.push(hex_digit(hi % 16));
        out.push(0x5c);
        out.push(0x75);
        out.push(hex_digit(lo / 0x1000));
        out.push(hex_digit(lo / 0x100 % 16));
        out.push(hex_digit(lo / 16 % 16));
        out.push(hex_digit(lo % 16));
    }
    assert(out@ =~= old(out)@ + escape_char(c));
}

/// Appends the quoted, escaped form of a string.
fn write_quoted(out: &mut Vec<u8>, s: &str)
    ensures
        final(out)@ == old(out)@ + quoted(s@),
{
    out.push(0x22);
    let len = s.unicode_len();
    let mut i: usize = 0;
    while i < len
        invariant
            i <= len,
            len == s@.len(),
            out@ == old(out)@ + seq![0x22u8] + escaped_str(s@.subrange(0, i as int)),
        decreases len - i,
    {
        let c = s.get_char(i);
        push_escape(out, c);
        i += 1;
        proof {
            let pre = s@.subrange(0, i as int);
            assert(pre.drop_last() =~= s@.subrange(0, i - 1));
            assert(pre.last() == s@[i - 1]);
            assert(out@ =~= old(out)@ + seq![0x22u8] + escaped_str(pre));
        }
    }
    out.push(0x22);
    proof {
        assert(s@.subrange(0, s@.len() as int) =~= s@);
        assert(out@ =~= old(out)@ + quoted(s@));
    }
}

/// Appends the canonical text of a value.
pub fn write_value(out: &mut Vec<u8>, v: &JsonValue)
    ensures
        final(out)@ == old(out)@ + json_text(*v),
    decreases *v,
{
    match v {
        JsonValue::Null => {
            out.push(0x6e);
            out.push(0x75);
            out.push(0x6c);
            out.push(0x6c);
            assert(out@ =~= old(out)@ + json_text(*v));
        },
        JsonValue::Bool(b) => {
            if *b {
                out.push(0x74);
                out.push(0x72);
                out.push(0x75);
                out.push(0x65);
            } else {
                out.push(0x66);
                out.push(0x61);
                out.push(0x6c);
                out.push(0x73);
                out.push(0x65);
            }
            assert(out@ =~= old(out)@ + json_text(*v));
        },
        JsonValue::Int(i) => {
            write_int(out, *i);
        },
        JsonValue::Str(s) => {
            write_quoted(out, s.as_str());
        },
        JsonValue::Arr(xs) => {
            out.push(0x5b);
            let ghost entry = old(out)@;
            let mut i: usize = 0;
            while i < xs.len()
                invariant
                    *v == JsonValue::Arr(*xs),
                    i <= xs@.len(),
                    out@ == entry + seq![0x5bu8] + arr_items_text(xs@.subrange(0, i as int)),
                decreases xs@.len() - i,
            {
                if i > 0 {
                    out.push(0x2c);
                }
                proof {
                    assert(*xs == (*v)->Arr_0);
                    assert(decreases_to!(*v => (*v)->Arr_0));
                    assert(decreases_to!(*xs => xs@));
                    assert(decreases_to!(xs@ => xs@[i as int]));
                    assert(decreases_to!(*v => xs@[i as int]));
                }
                write_value(out, &xs[i]);
                i += 1;
                proof {
                    let pre = xs@.subrange(0, i as int);
                    assert(pre.drop_last() =~= xs@.subrange(0, i - 1));
                    assert(pre.last() == xs@[i - 1]);
                    assert(out@ =~= entry + seq![0x5bu8] + arr_items_text(pre));
                }
            }
            out.push(0x5d);
            proof {
                assert(xs@.subrange(0, xs@.len() as int) =~= xs@);
                assert(out@ =~= old(out)@ + json_text(*v));
            }
        },
        JsonValue::Obj(fs) => {
            out.push(0x7b);
            let ghost entry = old(out)@;
            let mut i: usize = 0;
            while i < fs.len()
                invariant
                    *v == JsonValue::Obj(*fs),
                    i <= fs@.len(),
                    out@ == entry + seq![0x7bu8] + obj_items_text(fs@.subrange(0, i as int)),
                decreases fs@.len() - i,
            {
                if i > 0 {
                    out.push(0x2c);
                }
                write_quoted(out, fs[i].0.as_str());
                out.push(0x3a);
                proof {
                    assert(*fs == (*v)->Obj_0);
                    assert(decreases_to!(*v => (*v)->Obj_0));
                    assert(decreases_to!(*fs => fs@));
                    assert(decreases_to!(fs@ => fs@[i as int]));
                    assert(decreases_to!(fs@[i as int] => fs@[i as int].1));
                    assert(decreases_to!(*v => fs@[i as int].1));
                }
                write_value(out, &fs[i].1);
                i += 1;
                proof {
                    let pre = fs@.subrange(0, i as int);
                    assert(pre.len() == i);
                    assert(pre.drop_last() =~= fs@.subrange(0, i - 1));
                    assert(pre.last() == fs@[i - 1]);
                    assert(field_text(fs@[i - 1]) == quoted(fs@[i - 1].0@) + seq![0x3au8]
                        + json_text(fs@[i - 1].1));
                    if i == 1 {
                        assert(obj_items_text(pre) == field_text(pre.last()));
                    } else {
                        assert(obj_items_text(pre) == obj_items_text(pre.drop_last())
                            + seq![0x2cu8] + field_text(pre.last()));
                    }
                    assert(out@ =~= entry + seq![0x7bu8] + obj_items_text(pre));
                }
            }
            out.push(0x7d);
            proof {
                assert(fs@.subrange(0, fs@.len() as int) =~= fs@);
                assert(out@ =~= old(out)@ + json_text(*v));
            }
        },
    }
}

/// The canonical minified text of a value, as bytes.
pub fn to_bytes(v: &JsonValue) -> (r: Vec<u8>)
    ensures
        r@ == json_text(*v),
{
    let mut out: Vec<u8> = Vec::new();
    write_value(&mut out, v);
    out
}


/// Pointwise characterization of array equality.
pub proof fn lemma_arr_eq_pointwise(xs: Seq<JsonValue>, ys: Seq<JsonValue>)
    ensures
        arr_eq(xs, ys) <==> (xs.len() == ys.len() && (forall|i: int|
            0 <= i < xs.len() ==> json_eq(#[trigger] xs[i], ys[i]))),
    decreases xs.len(),
{
    if xs.len() > 0 && xs.len() == ys.len() {
        lemma_arr_eq_pointwise(xs.drop_last(), ys.drop_last());
        if arr_eq(xs, ys) {
            assert forall|i: int| 0 <= i < xs.len() implies json_eq(#[trigger] xs[i], ys[i]) by {
                if i < xs.len() - 1 {
                    assert(json_eq(xs.drop_last()[i], ys.drop_last()[i]));
                }
            }
        }
        if xs.len() == ys.len() && (forall|i: int|
            0 <= i < xs.len() ==> json_eq(#[trigger] xs[i], ys[i])) {
            assert forall|i: int|
                0 <= i < xs.drop_last().len() implies json_eq(
                #[trigger] xs.drop_last()[i],
                ys.drop_last()[i],
            ) by {
                assert(json_eq(xs[i], ys[i]));
            }
            assert(json_eq(xs.last(), ys.last()));
        }
    }
}

} // verus!
