//! Document model: a rendered document is a list of chunks.  Text chunks
//! hold literal bytes; `Scalar` chunks carry the bit pattern of a 32-bit
//! float and `Ratio` chunks an 8-bit ratio numerator (value over 255), both
//! left for the caller to print as decimal numbers.

use vstd::prelude::*;
use vstd::string::StringSliceAdditionalSpecFns;

verus! {

/// One piece of a rendered document.
#[derive(Debug, Clone, PartialEq, Eq)]
pub enum Chunk {
    /// Literal bytes, already escaped where needed.
    Text(Vec<u8>),
    /// The bit pattern of a 32-bit float, to be printed as its decimal value.
    Scalar(u32),
    /// A raw ratio numerator, to be printed as the decimal value over 255.
    Ratio(u16),
}

/// The mathematical value of one chunk.
pub enum ChunkV {
    Text(Seq<u8>),
    Scalar(u32),
    Ratio(u16),
}

impl DeepView for Chunk {
    type V = ChunkV;

    open spec fn deep_view(&self) -> ChunkV {
        match self {
            Chunk::Text(v) => ChunkV::Text(v@),
            Chunk::Scalar(x) => ChunkV::Scalar(*x),
            Chunk::Ratio(x) => ChunkV::Ratio(*x),
        }
    }
}

/// Appends the bytes of `s` to `out`.
pub fn push_slice(out: &mut Vec<u8>, s: &[u8])
    ensures
        final(out)@ == old(out)@ + s@,
{
    let mut i: usize = 0;
    while i < s.len()
        invariant
            0 <= i <= s@.len(),
            out@ == old(out)@ + s@.subrange(0, i as int),
        decreases s@.len() - i,
    {
        out.push(s[i]);
        assert(old(out)@ + s@.subrange(0, i + 1) =~= (old(out)@ + s@.subrange(0, i as int)).push(
            s@[i as int],
        ));
        i = i + 1;
    }
    assert(out@ =~= old(out)@ + s@);
}

/// Appends the bytes of the literal `s` to `out`.
pub fn push_str_bytes(out: &mut Vec<u8>, s: &str)
    ensures
        final(out)@ == old(out)@ + s.spec_bytes(),
{
    push_slice(out, s.as_bytes());
}

/// The decimal digits of `v`, most significant first.
pub open spec fn dec_nat(v: nat) -> Seq<u8>
    decreases v,
{
    if v < 10 {
        seq![(48 + v) as u8]
    } else {
        dec_nat(v / 10) + seq![(48 + v % 10) as u8]
    }
}

/// The decimal rendering of the signed `v`: a minus sign before the digits
/// of its magnitude when it is negative.
pub open spec fn dec_i32(v: int) -> Seq<u8> {
    if v >= 0 {
        dec_nat(v as nat)
    } else {
        "-".spec_bytes() + dec_nat((-v) as nat)
    }
}

/// Appends the decimal digits of `v` to `out`.
pub fn push_dec_u32(out: &mut Vec<u8>, v: u32)
    ensures
        final(out)@ == old(out)@ + dec_nat(v as nat),
    decreases v,
{
    if v < 10 {
        out.push(48 + (v as u8));
        assert(out@ =~= old(out)@ + dec_nat(v as nat));
    } else {
        push_dec_u32(out, v / 10);
        out.push(48 + ((v % 10) as u8));
        assert(out@ =~= old(out)@ + dec_nat(v as nat));
    }
}

/// Appends the decimal rendering of the signed `v` to `out`.
pub fn push_dec_i32(out: &mut Vec<u8>, v: i32)
    ensures
        final(out)@ == old(out)@ + dec_i32(v as int),
{
    if v >= 0 {
        push_dec_u32(out, v as u32);
    } else {
        push_str_bytes(out, "-");
        let m: u32 = if v == i32::MIN {
            2147483648u32
        } else {
            (-v) as u32
        };
        assert(m == -(v as int));
        push_dec_u32(out, m);
        assert(out@ =~= old(out)@ + dec_i32(v as int));
    }
}

/// One uppercase hexadecimal digit for `d` below 16.
pub open spec fn hex_digit(d: nat) -> u8 {
    if d < 10 {
        (48 + d) as u8
    } else {
        (55 + d) as u8
    }
}

/// The uppercase hexadecimal digits of `v`, most significant first, with no
/// leading zeroes.
pub open spec fn hex_nat(v: nat) -> Seq<u8>
    decreases v,
{
    if v < 16 {
        seq![hex_digit(v)]
    } else {
        hex_nat(v / 16) + seq![hex_digit(v % 16)]
    }
}

/// Appends the uppercase hexadecimal digits of `v` to `out`.
pub fn push_hex_u32(out: &mut Vec<u8>, v: u32)
    ensures
        final(out)@ == old(out)@ + hex_nat(v as nat),
    decreases v,
{
    if v < 16 {
        let d: u8 = if v < 10 {
            48 + (v as u8)
        } else {
            55 + (v as u8)
        };
        out.push(d);
        assert(out@ =~= old(out)@ + hex_nat(v as nat));
    } else {
        push_hex_u32(out, v / 16);
        let m: u32 = v % 16;
        let d: u8 = if m < 10 {
            48 + (m as u8)
        } else {
            55 + (m as u8)
        };
        out.push(d);
        assert(out@ =~= old(out)@ + hex_nat(v as nat));
    }
}

/// The replacement for one byte of text content: the five XML-special bytes
/// become entity references, every other byte stands as itself.
pub open spec fn esc_byte(c: u8) -> Seq<u8> {
    if c == 38 {
        "&amp;".spec_bytes()
    } else if c == 60 {
        "&lt;".spec_bytes()
    } else if c == 62 {
        "&gt;".spec_bytes()
    } else if c == 39 {
        "&apos;".spec_bytes()
    } else if c == 34 {
        "&quot;".spec_bytes()
    } else {
        seq![c]
    }
}

/// `s` with every XML-special byte replaced by its entity reference.
pub open spec fn esc(s: Seq<u8>) -> Seq<u8>
    decreases s.len(),
{
    if s.len() == 0 {
        Seq::<u8>::empty()
    } else {
        esc(s.drop_last()) + esc_byte(s.last())
    }
}

/// `s` with the XML-special bytes escaped, as a fresh vector.
pub fn escape_to_vec(s: &Vec<u8>) -> (r: Vec<u8>)
    ensures
        r@ == esc(s@),
{
    let mut o: Vec<u8> = Vec::new();
    assert(o@ =~= esc(s@.subrange(0, 0)));
    let mut i: usize = 0;
    while i < s.len()
        invariant
            0 <= i <= s@.len(),
            o@ == esc(s@.subrange(0, i as int)),
        decreases s@.len() - i,
    {
        let c = s[i];
        if c == 38 {
            push_str_bytes(&mut o, "&amp;");
        } else if c == 60 {
            push_str_bytes(&mut o, "&lt;");
        } else if c == 62 {
            push_str_bytes(&mut o, "&gt;");
        } else if c == 39 {
            push_str_bytes(&mut o, "&apos;");
        } else if c == 34 {
            push_str_bytes(&mut o, "&quot;");
        } else {
            o.push(c);
            assert(seq![c] =~= esc_byte(c));
        }
        proof {
            let pre = s@.subrange(0, i + 1);
            assert(pre.drop_last() =~= s@.subrange(0, i as int));
            assert(pre.last() == s@[i as int]);
            assert(o@ =~= esc(pre));
        }
        i = i + 1;
    }
    assert(s@.subrange(0, s@.len() as int) =~= s@);
    o
}

/// The bytes of an opening tag.
pub open spec fn open_b(tag: Seq<u8>) -> Seq<u8> {
    "<".spec_bytes() + tag + ">".spec_bytes()
}

/// The bytes of a closing tag.
pub open spec fn close_b(tag: Seq<u8>) -> Seq<u8> {
    "</".spec_bytes() + tag + ">".spec_bytes()
}

/// Appends an opening tag to `out`.
pub fn push_open(out: &mut Vec<u8>, tag: &str)
    ensures
        final(out)@ == old(out)@ + open_b(tag.spec_bytes()),
{
    push_str_bytes(out, "<");
    push_str_bytes(out, tag);
    push_str_bytes(out, ">");
    assert(out@ =~= old(out)@ + open_b(tag.spec_bytes()));
}

/// Appends a closing tag to `out`.
pub fn push_close(out: &mut Vec<u8>, tag: &str)
    ensures
        final(out)@ == old(out)@ + close_b(tag.spec_bytes()),
{
    push_str_bytes(out, "</");
    push_str_bytes(out, tag);
    push_str_bytes(out, ">");
    assert(out@ =~= old(out)@ + close_b(tag.spec_bytes()));
}

/// Appends a float-valued chunk to `doc`.
pub fn push_scalar(doc: &mut Vec<Chunk>, bits: u32)
    ensures
        final(doc).deep_view() == old(doc).deep_view().push(ChunkV::Scalar(bits)),
{
    doc.push(Chunk::Scalar(bits));
    assert(doc.deep_view() =~= old(doc).deep_view().push(ChunkV::Scalar(bits)));
}

/// Appends a ratio-valued chunk to `doc`.
pub fn push_ratio(doc: &mut Vec<Chunk>, v: u16)
    ensures
        final(doc).deep_view() == old(doc).deep_view().push(ChunkV::Ratio(v)),
{
    doc.push(Chunk::Ratio(v));
    assert(doc.deep_view() =~= old(doc).deep_view().push(ChunkV::Ratio(v)));
}

/// The chunk holding one literal.
pub open spec fn tc(s: &str) -> ChunkV {
    ChunkV::Text(s.spec_bytes())
}

/// Appends one literal text chunk to `doc`.
pub fn push_text(doc: &mut Vec<Chunk>, s: &str)
    ensures
        final(doc).deep_view() == old(doc).deep_view().push(tc(s)),
{
    let ghost g = doc.deep_view();
    doc.push(Chunk::Text(s.as_bytes_vec()));
    assert(doc.deep_view() =~= g.push(tc(s)));
}

/// Appends the accumulated bytes `v` to `doc` as one text chunk.
pub fn push_text_vec(doc: &mut Vec<Chunk>, v: Vec<u8>)
    ensures
        final(doc).deep_view() == old(doc).deep_view().push(ChunkV::Text(v@)),
{
    let ghost g = doc.deep_view();
    let ghost vv = v@;
    doc.push(Chunk::Text(v));
    assert(doc.deep_view() =~= g.push(ChunkV::Text(vv)));
}

/// Appends `v` to `doc` as one text chunk, escaped.
pub fn push_esc(doc: &mut Vec<Chunk>, v: &Vec<u8>)
    ensures
        final(doc).deep_view() == old(doc).deep_view().push(ChunkV::Text(esc(v@))),
{
    push_text_vec(doc, escape_to_vec(v));
}

/// Appends the decimal digits of `v` to `doc` as one text chunk.
pub fn push_dec(doc: &mut Vec<Chunk>, v: u32)
    ensures
        final(doc).deep_view() == old(doc).deep_view().push(ChunkV::Text(dec_nat(v as nat))),
{
    let mut b: Vec<u8> = Vec::new();
    push_dec_u32(&mut b, v);
    assert(b@ =~= dec_nat(v as nat));
    push_text_vec(doc, b);
}

/// Appends the decimal digits of a wide counter to `out`.
pub fn push_dec_u64v(out: &mut Vec<u8>, v: u64)
    ensures
        final(out)@ == old(out)@ + dec_nat(v as nat),
    decreases v,
{
    if v < 10 {
        out.push(48 + (v as u8));
        assert(out@ =~= old(out)@ + dec_nat(v as nat));
    } else {
        push_dec_u64v(out, v / 10);
        out.push(48 + ((v % 10) as u8));
        assert(out@ =~= old(out)@ + dec_nat(v as nat));
    }
}

/// Appends the decimal digits of a wide counter to `doc` as one text
/// chunk.
pub fn push_dec64(doc: &mut Vec<Chunk>, v: u64)
    ensures
        final(doc).deep_view() == old(doc).deep_view().push(ChunkV::Text(dec_nat(v as nat))),
{
    let mut b: Vec<u8> = Vec::new();
    push_dec_u64v(&mut b, v);
    assert(b@ =~= dec_nat(v as nat));
    push_text_vec(doc, b);
}

/// Appends the signed decimal rendering of `v` to `doc` as one text
/// chunk.
pub fn push_dec_i(doc: &mut Vec<Chunk>, v: i32)
    ensures
        final(doc).deep_view() == old(doc).deep_view().push(ChunkV::Text(dec_i32(v as int))),
{
    let mut b: Vec<u8> = Vec::new();
    push_dec_i32(&mut b, v);
    assert(b@ =~= dec_i32(v as int));
    push_text_vec(doc, b);
}

/// Appends the uppercase hexadecimal digits of `v` to `doc` as one text
/// chunk.
pub fn push_hex(doc: &mut Vec<Chunk>, v: u32)
    ensures
        final(doc).deep_view() == old(doc).deep_view().push(ChunkV::Text(hex_nat(v as nat))),
{
    let mut b: Vec<u8> = Vec::new();
    push_hex_u32(&mut b, v);
    assert(b@ =~= hex_nat(v as nat));
    push_text_vec(doc, b);
}

/// Appends an opening tag for a tag name held in a variable.
pub fn push_open_chunk(doc: &mut Vec<Chunk>, tag: &str)
    ensures
        final(doc).deep_view() == old(doc).deep_view().push(ChunkV::Text(open_b(tag.spec_bytes()))),
{
    let mut b: Vec<u8> = Vec::new();
    push_open(&mut b, tag);
    assert(b@ =~= open_b(tag.spec_bytes()));
    push_text_vec(doc, b);
}

/// Appends a closing tag for a tag name held in a variable.
pub fn push_close_chunk(doc: &mut Vec<Chunk>, tag: &str)
    ensures
        final(doc).deep_view() == old(doc).deep_view().push(
            ChunkV::Text(close_b(tag.spec_bytes())),
        ),
{
    let mut b: Vec<u8> = Vec::new();
    push_close(&mut b, tag);
    assert(b@ =~= close_b(tag.spec_bytes()));
    push_text_vec(doc, b);
}

/// The chunks of the inner `value` elements of a name list, one per name,
/// escaped, in order.
pub open spec fn name_values(s: Seq<ChunkV>, values: Seq<Seq<u8>>) -> Seq<ChunkV>
    decreases values.len(),
{
    if values.len() == 0 {
        s
    } else {
        name_values(s, values.drop_last()).push(tc("<value>")).push(
            ChunkV::Text(esc(values.last())),
        ).push(tc("</value>"))
    }
}

/// The chunks of a whole name list element: every name of `values` as an
/// escaped `value` element, wrapped in `tag`.
pub open spec fn name_list_chunks(s: Seq<ChunkV>, tag: &str, values: Seq<Seq<u8>>) -> Seq<ChunkV> {
    name_values(s.push(ChunkV::Text(open_b(tag.spec_bytes()))), values).push(
        ChunkV::Text(close_b(tag.spec_bytes())),
    )
}

/// Appends a name list element: each of `values` as an escaped `value`
/// element, wrapped in `tag`.
pub fn create_name_list(doc: &mut Vec<Chunk>, tag: &str, values: &Vec<Vec<u8>>)
    ensures
        final(doc).deep_view() == name_list_chunks(
            old(doc).deep_view(),
            tag,
            values.deep_view(),
        ),
{
    push_open_chunk(doc, tag);
    let ghost s0 = doc.deep_view();
    let ghost vv = values.deep_view();
    let mut i: usize = 0;
    assert(vv.take(0) =~= Seq::<Seq<u8>>::empty());
    while i < values.len()
        invariant
            0 <= i <= values@.len(),
            vv == values.deep_view(),
            vv.len() == values@.len(),
            doc.deep_view() == name_values(s0, vv.take(i as int)),
        decreases values@.len() - i,
    {
        push_text(doc, "<value>");
        push_esc(doc, &values[i]);
        push_text(doc, "</value>");
        proof {
            assert(vv[i as int] =~= values@[i as int]@);
            assert(vv.take(i + 1).drop_last() =~= vv.take(i as int));
            assert(vv.take(i + 1).last() == vv[i as int]);
        }
        i = i + 1;
    }
    assert(vv.take(values@.len() as int) =~= vv);
    push_close_chunk(doc, tag);
}


} // verus!
