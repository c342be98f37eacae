//! Little-endian integer encoding shared by every HCI field.
use vstd::prelude::*;

verus! {

/// The two bytes of a `u16`, least significant first.
pub open spec fn spec_u16_le_bytes(v: u16) -> Seq<u8> {
    seq![(v & 0xff) as u8, (v >> 8) as u8]
}

/// The `u16` whose little-endian bytes are `b0`, `b1`.
pub open spec fn spec_u16_from_le(b0: u8, b1: u8) -> u16 {
    (b0 as u16) | ((b1 as u16) << 8u16)
}

/// The eight bytes of a `u64`, least significant first.
pub open spec fn spec_u64_le_bytes(v: u64) -> Seq<u8> {
    seq![
        (v & 0xff) as u8,
        ((v >> 8u64) & 0xff) as u8,
        ((v >> 16u64) & 0xff) as u8,
        ((v >> 24u64) & 0xff) as u8,
        ((v >> 32u64) & 0xff) as u8,
        ((v >> 40u64) & 0xff) as u8,
        ((v >> 48u64) & 0xff) as u8,
        ((v >> 56u64) & 0xff) as u8,
    ]
}

/// The `u64` whose little-endian bytes are the first eight bytes of `s`.
pub open spec fn spec_u64_from_le(s: Seq<u8>) -> u64 {
    (s[0] as u64) | ((s[1] as u64) << 8u64) | ((s[2] as u64) << 16u64) | ((s[3] as u64) << 24u64)
        | ((s[4] as u64) << 32u64) | ((s[5] as u64) << 40u64) | ((s[6] as u64) << 48u64)
        | ((s[7] as u64) << 56u64)
}

/// Decoding the encoding of a `u16` gives the value back.
pub proof fn lemma_u16_le_roundtrip(v: u16)
    ensures
        spec_u16_from_le(spec_u16_le_bytes(v)[0], spec_u16_le_bytes(v)[1]) == v,
{
    assert(((v & 0xff) as u8 as u16) | (((v >> 8u16) as u8 as u16) << 8u16) == v) by (bit_vector);
}

/// Encoding the decoding of two bytes gives the bytes back.
pub proof fn lemma_u16_le_bytes_roundtrip(b0: u8, b1: u8)
    ensures
        spec_u16_le_bytes(spec_u16_from_le(b0, b1)) == seq![b0, b1],
{
    let v = spec_u16_from_le(b0, b1);
    assert((((b0 as u16) | ((b1 as u16) << 8u16)) & 0xff) as u8 == b0) by (bit_vector);
    assert((((b0 as u16) | ((b1 as u16) << 8u16)) >> 8u16) as u8 == b1) by (bit_vector);
    assert(spec_u16_le_bytes(v) =~= seq![b0, b1]);
}

/// Decoding the encoding of a `u64` gives the value back.
pub proof fn lemma_u64_le_roundtrip(v: u64)
    ensures
        spec_u64_from_le(spec_u64_le_bytes(v)) == v,
{
    let s = spec_u64_le_bytes(v);
    assert(((v & 0xff) as u8 as u64) | ((((v >> 8u64) & 0xff) as u8 as u64) << 8u64) | ((((v
        >> 16u64) & 0xff) as u8 as u64) << 16u64) | ((((v >> 24u64) & 0xff) as u8 as u64) << 24u64)
        | ((((v >> 32u64) & 0xff) as u8 as u64) << 32u64) | ((((v >> 40u64) & 0xff) as u8 as u64)
        << 40u64) | ((((v >> 48u64) & 0xff) as u8 as u64) << 48u64) | ((((v >> 56u64) & 0xff) as u8
        as u64) << 56u64) == v) by (bit_vector);
}

/// Encoding the decoding of eight bytes gives the bytes back.
pub proof fn lemma_u64_le_bytes_roundtrip(s: Seq<u8>)
    requires
        s.len() == 8,
    ensures
        spec_u64_le_bytes(spec_u64_from_le(s)) == s,
{
    let b0 = s[0];
    let b1 = s[1];
    let b2 = s[2];
    let b3 = s[3];
    let b4 = s[4];
    let b5 = s[5];
    let b6 = s[6];
    let b7 = s[7];
    assert(
        ((((b0 as u64) | ((b1 as u64) << 8u64) | ((b2 as u64) << 16u64) | ((b3 as u64) << 24u64) | ((b4 as u64) << 32u64) | ((b5 as u64) << 40u64) | ((b6 as u64) << 48u64) | ((b7 as u64) << 56u64))) & 0xff) as u8 == b0
        && ((((b0 as u64) | ((b1 as u64) << 8u64) | ((b2 as u64) << 16u64) | ((b3 as u64) << 24u64) | ((b4 as u64) << 32u64) | ((b5 as u64) << 40u64) | ((b6 as u64) << 48u64) | ((b7 as u64) << 56u64)) >> 8u64) & 0xff) as u8 == b1
        && ((((b0 as u64) | ((b1 as u64) << 8u64) | ((b2 as u64) << 16u64) | ((b3 as u64) << 24u64) | ((b4 as u64) << 32u64) | ((b5 as u64) << 40u64) | ((b6 as u64) << 48u64) | ((b7 as u64) << 56u64)) >> 16u64) & 0xff) as u8 == b2
        && ((((b0 as u64) | ((b1 as u64) << 8u64) | ((b2 as u64) << 16u64) | ((b3 as u64) << 24u64) | ((b4 as u64) << 32u64) | ((b5 as u64) << 40u64) | ((b6 as u64) << 48u64) | ((b7 as u64) << 56u64)) >> 24u64) & 0xff) as u8 == b3
        && ((((b0 as u64) | ((b1 as u64) << 8u64) | ((b2 as u64) << 16u64) | ((b3 as u64) << 24u64) | ((b4 as u64) << 32u64) | ((b5 as u64) << 40u64) | ((b6 as u64) << 48u64) | ((b7 as u64) << 56u64)) >> 32u64) & 0xff) as u8 == b4
        && ((((b0 as u64) | ((b1 as u64) << 8u64) | ((b2 as u64) << 16u64) | ((b3 as u64) << 24u64) | ((b4 as u64) << 32u64) | ((b5 as u64) << 40u64) | ((b6 as u64) << 48u64) | ((b7 as u64) << 56u64)) >> 40u64) & 0xff) as u8 == b5
        && ((((b0 as u64) | ((b1 as u64) << 8u64) | ((b2 as u64) << 16u64) | ((b3 as u64) << 24u64) | ((b4 as u64) << 32u64) | ((b5 as u64) << 40u64) | ((b6 as u64) << 48u64) | ((b7 as u64) << 56u64)) >> 48u64) & 0xff) as u8 == b6
        && ((((b0 as u64) | ((b1 as u64) << 8u64) | ((b2 as u64) << 16u64) | ((b3 as u64) << 24u64) | ((b4 as u64) << 32u64) | ((b5 as u64) << 40u64) | ((b6 as u64) << 48u64) | ((b7 as u64) << 56u64)) >> 56u64) & 0xff) as u8 == b7
    ) by (bit_vector);
    assert(spec_u64_le_bytes(spec_u64_from_le(s)) =~= s);
}

/// Appends the little-endian bytes of `v`.
pub fn push_u16_le(buffer: &mut Vec<u8>, v: u16)
    ensures
        final(buffer)@ == old(buffer)@ + spec_u16_le_bytes(v),
{
    buffer.push((v & 0xff) as u8);
    buffer.push((v >> 8) as u8);
}

/// Appends the little-endian bytes of `v`.
pub fn push_u64_le(buffer: &mut Vec<u8>, v: u64)
    ensures
        final(buffer)@ == old(buffer)@ + spec_u64_le_bytes(v),
{
    buffer.push((v & 0xff) as u8);
    buffer.push(((v >> 8) & 0xff) as u8);
    buffer.push(((v >> 16) & 0xff) as u8);
    buffer.push(((v >> 24) & 0xff) as u8);
    buffer.push(((v >> 32) & 0xff) as u8);
    buffer.push(((v >> 40) & 0xff) as u8);
    buffer.push(((v >> 48) & 0xff) as u8);
    buffer.push(((v >> 56) & 0xff) as u8);
}

/// Appends all the bytes of `data`.
pub fn push_slice(buffer: &mut Vec<u8>, data: &[u8])
    ensures
        final(buffer)@ == old(buffer)@ + data@,
{
    let ghost start = buffer@;
    let mut i: usize = 0;
    while i < data.len()
        invariant
            i <= data@.len(),
            buffer@ == start + data@.subrange(0, i as int),
        decreases data@.len() - i,
    {
        buffer.push(data[i]);
        i = i + 1;
        assert(buffer@ =~= start + data@.subrange(0, i as int));
    }
    assert(data@.subrange(0, data@.len() as int) =~= data@);
}

/// Reads the little-endian `u16` stored at `pos`.
pub fn read_u16_le(input: &[u8], pos: usize) -> (r: u16)
    requires
        pos + 2 <= input@.len(),
    ensures
        r == spec_u16_from_le(input@[pos as int], input@[pos + 1]),
{
    (input[pos] as u16) | ((input[pos + 1] as u16) << 8)
}

/// Reads the little-endian `u64` stored at `pos`.
pub fn read_u64_le(input: &[u8], pos: usize) -> (r: u64)
    requires
        pos + 8 <= input@.len(),
    ensures
        r == spec_u64_from_le(input@.subrange(pos as int, pos + 8)),
{
    let ghost s = input@.subrange(pos as int, pos + 8);
    assert(s[0] == input@[pos as int] && s[7] == input@[pos + 7]);
    (input[pos] as u64) | ((input[pos + 1] as u64) << 8) | ((input[pos + 2] as u64) << 16) | ((
    input[pos + 3] as u64) << 24) | ((input[pos + 4] as u64) << 32) | ((input[pos + 5] as u64)
        << 40) | ((input[pos + 6] as u64) << 48) | ((input[pos + 7] as u64) << 56)
}

/// Appends the six bytes of an address.
pub fn push_array6(buffer: &mut Vec<u8>, data: &[u8; 6])
    ensures
        final(buffer)@ == old(buffer)@ + data@,
{
    let ghost start = buffer@;
    buffer.push(data[0]);
    buffer.push(data[1]);
    buffer.push(data[2]);
    buffer.push(data[3]);
    buffer.push(data[4]);
    buffer.push(data[5]);
    assert(buffer@ =~= start + data@);
}

/// Reads the six bytes stored at `pos`.
pub fn read_array6(input: &[u8], pos: usize) -> (r: [u8; 6])
    requires
        pos + 6 <= input@.len(),
    ensures
        r@ == input@.subrange(pos as int, pos + 6),
{
    let r = [input[pos], input[pos + 1], input[pos + 2], input[pos + 3], input[pos + 4], input[
        pos + 5]];
    assert(r@ =~= input@.subrange(pos as int, pos + 6));
    r
}

/// The bytes of an address array.
pub open spec fn spec_bytes6(a: [u8; 6]) -> Seq<u8> {
    a@
}

/// The address array holding the six bytes of `s`.
pub open spec fn spec_array6(s: Seq<u8>) -> [u8; 6] {
    choose|a: [u8; 6]| #[trigger] spec_bytes6(a) == s
}

/// An address array is the array of its bytes.
pub proof fn lemma_array6_of_bytes(a: [u8; 6])
    ensures
        spec_array6(a@) == a,
{
    assert(spec_bytes6(a) == a@);
    let c = spec_array6(a@);
    assert(c@ =~= a@);
    assert(c =~= a);
}

/// The array of six bytes holds those bytes.
pub proof fn lemma_bytes_of_array6(s: Seq<u8>)
    requires
        s.len() == 6,
    ensures
        spec_array6(s)@ == s,
{
    let a = [s[0], s[1], s[2], s[3], s[4], s[5]];
    assert(a@ =~= s);
    assert(spec_bytes6(a) == s);
}

/// The bytes of a 64-byte array.
pub open spec fn spec_bytes64(a: [u8; 64]) -> Seq<u8> {
    a@
}

/// The 64-byte array holding the bytes of `s`.
pub open spec fn spec_array64(s: Seq<u8>) -> [u8; 64] {
    choose|a: [u8; 64]| #[trigger] spec_bytes64(a) == s
}

/// A 64-byte array is the array of its bytes.
pub proof fn lemma_array64_of_bytes(a: [u8; 64])
    ensures
        spec_array64(a@) == a,
        spec_array64(a@)@ == a@,
{
    assert(spec_bytes64(a) == a@);
    let c = spec_array64(a@);
    assert(c@ =~= a@);
    assert(c =~= a);
}

/// The bytes of a 32-byte array.
pub open spec fn spec_bytes32(a: [u8; 32]) -> Seq<u8> {
    a@
}

/// The 32-byte array holding the bytes of `s`.
pub open spec fn spec_array32(s: Seq<u8>) -> [u8; 32] {
    choose|a: [u8; 32]| #[trigger] spec_bytes32(a) == s
}

/// A 32-byte array is the array of its bytes.
pub proof fn lemma_array32_of_bytes(a: [u8; 32])
    ensures
        spec_array32(a@) == a,
{
    assert(spec_bytes32(a) == a@);
    let c = spec_array32(a@);
    assert(c@ =~= a@);
    assert(c =~= a);
}

/// The array of 32 bytes holds those bytes.
pub proof fn lemma_bytes_of_array32(s: Seq<u8>)
    requires
        s.len() == 32,
    ensures
        spec_array32(s)@ == s,
{
    let a = [
        s[0], s[1], s[2], s[3], s[4], s[5], s[6], s[7], s[8], s[9], s[10], s[11], s[12], s[13],
        s[14], s[15], s[16], s[17], s[18], s[19], s[20], s[21], s[22], s[23], s[24], s[25], s[26],
        s[27], s[28], s[29], s[30], s[31],
    ];
    assert(a@ =~= s);
    assert(spec_bytes32(a) == s);
}

/// The bytes of an 8-byte array.
pub open spec fn spec_bytes8(a: [u8; 8]) -> Seq<u8> {
    a@
}

/// The 8-byte array holding the bytes of `s`.
pub open spec fn spec_array8(s: Seq<u8>) -> [u8; 8] {
    choose|a: [u8; 8]| #[trigger] spec_bytes8(a) == s
}

/// An 8-byte array is the array of its bytes.
pub proof fn lemma_array8_of_bytes(a: [u8; 8])
    ensures
        spec_array8(a@) == a,
{
    assert(spec_bytes8(a) == a@);
    let c = spec_array8(a@);
    assert(c@ =~= a@);
    assert(c =~= a);
}

/// Reads the eight bytes stored at `pos`.
pub fn read_array8(input: &[u8], pos: usize) -> (r: [u8; 8])
    requires
        pos + 8 <= input@.len(),
    ensures
        r@ == input@.subrange(pos as int, pos + 8),
        r == spec_array8(input@.subrange(pos as int, pos + 8)),
{
    let r = [
        input[pos], input[pos + 1], input[pos + 2], input[pos + 3], input[pos + 4], input[pos + 5],
        input[pos + 6], input[pos + 7],
    ];
    assert(r@ =~= input@.subrange(pos as int, pos + 8));
    proof {
        lemma_array8_of_bytes(r);
    }
    r
}

/// Reads the 64 bytes stored at `pos`.
pub fn read_array64(input: &[u8], pos: usize) -> (r: [u8; 64])
    requires
        pos + 64 <= input@.len(),
    ensures
        r@ == input@.subrange(pos as int, pos + 64),
{
    let len = input.len();
    let mut r = [0u8; 64];
    let mut i: usize = 0;
    while i < 64
        invariant
            len == input@.len(),
            pos + 64 <= input@.len(),
            i <= 64,
            r@.len() == 64,
            forall|j: int| 0 <= j < i ==> r@[j] == input@[pos + j],
        decreases 64 - i,
    {
        r[i] = input[pos + i];
        i += 1;
    }
    assert(r@ =~= input@.subrange(pos as int, pos + 64));
    r
}

/// The bytes of a 31-byte array.
pub open spec fn spec_bytes31(a: [u8; 31]) -> Seq<u8> {
    a@
}

/// The 31-byte array holding the bytes of `s`.
pub open spec fn spec_array31(s: Seq<u8>) -> [u8; 31] {
    choose|a: [u8; 31]| #[trigger] spec_bytes31(a) == s
}

/// A 31-byte array is the array of its bytes.
pub proof fn lemma_array31_of_bytes(a: [u8; 31])
    ensures
        spec_array31(a@) == a,
{
    assert(spec_bytes31(a) == a@);
    let c = spec_array31(a@);
    assert(c@ =~= a@);
    assert(c =~= a);
}

/// The bytes of a 251-byte array.
pub open spec fn spec_bytes251(a: [u8; 251]) -> Seq<u8> {
    a@
}

/// The 251-byte array holding the bytes of `s`.
pub open spec fn spec_array251(s: Seq<u8>) -> [u8; 251] {
    choose|a: [u8; 251]| #[trigger] spec_bytes251(a) == s
}

/// A 251-byte array is the array of its bytes.
pub proof fn lemma_array251_of_bytes(a: [u8; 251])
    ensures
        spec_array251(a@) == a,
{
    assert(spec_bytes251(a) == a@);
    let c = spec_array251(a@);
    assert(c@ =~= a@);
    assert(c =~= a);
}

/// The array of 251 bytes holds those bytes.
pub proof fn lemma_bytes_of_array251(s: Seq<u8>)
    requires
        s.len() == 251,
    ensures
        spec_array251(s)@ == s,
{
    let a = [
        s[0], s[1], s[2], s[3], s[4], s[5], s[6], s[7], s[8], s[9], s[10], s[11], s[12],
        s[13], s[14], s[15], s[16], s[17], s[18], s[19], s[20], s[21], s[22], s[23], s[24],
        s[25], s[26], s[27], s[28], s[29], s[30], s[31], s[32], s[33], s[34], s[35], s[36],
        s[37], s[38], s[39], s[40], s[41], s[42], s[43], s[44], s[45], s[46], s[47], s[48],
        s[49], s[50], s[51], s[52], s[53], s[54], s[55], s[56], s[57], s[58], s[59], s[60],
        s[61], s[62], s[63], s[64], s[65], s[66], s[67], s[68], s[69], s[70], s[71], s[72],
        s[73], s[74], s[75], s[76], s[77], s[78], s[79], s[80], s[81], s[82], s[83], s[84],
        s[85], s[86], s[87], s[88], s[89], s[90], s[91], s[92], s[93], s[94], s[95], s[96],
        s[97], s[98], s[99], s[100], s[101], s[102], s[103], s[104], s[105], s[106], s[107],
        s[108], s[109], s[110], s[111], s[112], s[113], s[114], s[115], s[116], s[117],
        s[118], s[119], s[120], s[121], s[122], s[123], s[124], s[125], s[126], s[127],
        s[128], s[129], s[130], s[131], s[132], s[133], s[134], s[135], s[136], s[137],
        s[138], s[139], s[140], s[141], s[142], s[143], s[144], s[145], s[146], s[147],
        s[148], s[149], s[150], s[151], s[152], s[153], s[154], s[155], s[156], s[157],
        s[158], s[159], s[160], s[161], s[162], s[163], s[164], s[165], s[166], s[167],
        s[168], s[169], s[170], s[171], s[172], s[173], s[174], s[175], s[176], s[177],
        s[178], s[179], s[180], s[181], s[182], s[183], s[184], s[185], s[186], s[187],
        s[188], s[189], s[190], s[191], s[192], s[193], s[194], s[195], s[196], s[197],
        s[198], s[199], s[200], s[201], s[202], s[203], s[204], s[205], s[206], s[207],
        s[208], s[209], s[210], s[211], s[212], s[213], s[214], s[215], s[216], s[217],
        s[218], s[219], s[220], s[221], s[222], s[223], s[224], s[225], s[226], s[227],
        s[228], s[229], s[230], s[231], s[232], s[233], s[234], s[235], s[236], s[237],
        s[238], s[239], s[240], s[241], s[242], s[243], s[244], s[245], s[246], s[247],
        s[248], s[249], s[250]
    ];
    assert(a@ =~= s);
    assert(spec_bytes251(a) == s);
}

/// The bytes of a 27-byte array.
pub open spec fn spec_bytes27(a: [u8; 27]) -> Seq<u8> {
    a@
}

/// The 27-byte array holding the bytes of `s`.
pub open spec fn spec_array27(s: Seq<u8>) -> [u8; 27] {
    choose|a: [u8; 27]| #[trigger] spec_bytes27(a) == s
}

/// A 27-byte array is the array of its bytes.
pub proof fn lemma_array27_of_bytes(a: [u8; 27])
    ensures
        spec_array27(a@) == a,
{
    assert(spec_bytes27(a) == a@);
    let c = spec_array27(a@);
    assert(c@ =~= a@);
    assert(c =~= a);
}

/// The `u16` of two little-endian bytes is the first plus 256 times the second.
pub proof fn lemma_u16_from_le_value(b0: u8, b1: u8)
    ensures
        spec_u16_from_le(b0, b1) as int == b0 as int + 256 * (b1 as int),
{
    assert((b0 as u16) | ((b1 as u16) << 8u16) == (b0 as u16) + (b1 as u16) * 256u16) by (bit_vector);
}

/// The array of 31 bytes holds those bytes.
pub proof fn lemma_bytes_of_array31(s: Seq<u8>)
    requires
        s.len() == 31,
    ensures
        spec_array31(s)@ == s,
{
    let a = [
        s[0], s[1], s[2], s[3], s[4], s[5], s[6], s[7], s[8], s[9], s[10], s[11], s[12],
        s[13], s[14], s[15], s[16], s[17], s[18], s[19], s[20], s[21], s[22], s[23], s[24],
        s[25], s[26], s[27], s[28], s[29], s[30]
    ];
    assert(a@ =~= s);
    assert(spec_bytes31(a) == s);
}

} // verus!
