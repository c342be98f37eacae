//! Advertising data packets: normal advertising data and scan response data.
use vstd::prelude::*;

use vstd::slice::slice_subrange;

use crate::bytes::{lemma_array32_of_bytes, lemma_bytes_of_array32, push_slice, spec_array32};
use crate::encode::EncodeToBuffer;
use crate::error::Error;

verus! {

/// Advertising data sent when advertising.
///
/// The 32 bytes hold the length of the data, then the data; the bytes after the data are zero.
#[derive(Debug, Clone, Copy, PartialEq, Eq)]
pub struct AdvertisingData {
    buffer: [u8; 32],
    offset: usize,
}

impl AdvertisingData {
    /// The 32 bytes of the buffer: the length, the data and zeros.
    pub closed spec fn spec_buffer(self) -> Seq<u8> {
        self.buffer@
    }

    /// The number of bytes in use: the length byte and the data.
    pub closed spec fn spec_offset(self) -> nat {
        self.offset as nat
    }

    /// Well-formedness: the length byte counts the data, which fits, and the rest is zero.
    pub open spec fn wf(self) -> bool {
        &&& 1 <= self.spec_offset() <= 32
        &&& self.spec_buffer()[0] == self.spec_offset() - 1
        &&& forall|i: int| self.spec_offset() <= i < 32 ==> self.spec_buffer()[i] == 0
    }

    /// The buffer holds 32 bytes.
    pub proof fn lemma_spec_buffer_len(self)
        ensures
            self.spec_buffer().len() == 32,
    {
    }

    /// The data, preceded by its length.
    pub open spec fn spec_data(self) -> Seq<u8> {
        self.spec_buffer().subrange(0, self.spec_offset() as int)
    }

    /// The value whose length byte is `len` and whose data is the first `len` bytes of `value`.
    pub closed spec fn spec_from_parts(len: u8, value: Seq<u8>) -> AdvertisingData {
        AdvertisingData {
            buffer: spec_array32(Seq::new(32, |i: int| if i == 0 { len } else if i <= len { value[i - 1] } else { 0u8 })),
            offset: (len + 1) as usize,
        }
    }

    /// The outcome of `try_from_parts`.
    pub open spec fn spec_try_from_parts(len: u8, value: Seq<u8>) -> Result<AdvertisingData, Error> {
        if len >= 32 {
            Err(Error::BufferTooSmall)
        } else {
            Ok(AdvertisingData::spec_from_parts(len, value))
        }
    }

    /// Creates a value from a length and 31 bytes, of which the first `len` are the data.
    pub fn try_from_parts(len: u8, value: [u8; 31]) -> (r: Result<AdvertisingData, Error>)
        ensures
            r == AdvertisingData::spec_try_from_parts(len, value@),
            r matches Ok(d) ==> d.wf() && d.spec_data() == seq![len] + value@.subrange(0, len as int),
    {
        if len >= 32 {
            return Err(Error::BufferTooSmall);
        }
        let mut buffer = [0u8; 32];
        buffer[0] = len;
        let n: usize = len as usize;
        let mut i: usize = 0;
        while i < n
            invariant
                n == len as usize,
                n < 32,
                i <= n,
                buffer@.len() == 32,
                buffer@[0] == len,
                forall|j: int| 1 <= j <= i ==> buffer@[j] == value@[j - 1],
                forall|j: int| i < j < 32 ==> buffer@[j] == 0,
            decreases n - i,
        {
            buffer[i + 1] = value[i];
            i += 1;
        }
        let r = AdvertisingData { buffer, offset: n + 1 };
        proof {
            let s = Seq::new(32, |i: int| if i == 0 { len } else if i <= len { value@[i - 1] } else { 0u8 });
            assert(buffer@ =~= s);
            lemma_array32_of_bytes(buffer);
            assert(r.spec_data() =~= seq![len] + value@.subrange(0, len as int));
        }
        Ok(r)
    }

    /// Appends bytes to the data; fails, changing nothing, where they do not fit.
    pub fn fill(&mut self, data: &[u8]) -> (r: Result<usize, Error>)
        requires
            old(self).wf(),
        ensures
            r is Ok <==> old(self).spec_offset() + data@.len() <= 32,
            r matches Ok(n) ==> {
                &&& n == data@.len()
                &&& final(self).wf()
                &&& final(self).spec_data() == seq![(old(self).spec_offset() - 1 + n) as u8]
                    + old(self).spec_data().subrange(1, old(self).spec_offset() as int) + data@
            },
            r is Err ==> r == Err::<usize, Error>(Error::BufferTooSmall) && *final(self) == *old(self),
    {
        let n = data.len();
        if n > 32 - self.offset {
            return Err(Error::BufferTooSmall);
        }
        let ghost old_buffer = self.buffer@;
        let start = self.offset;
        let mut i: usize = 0;
        while i < n
            invariant
                n == data@.len(),
                start == old(self).offset,
                1 <= start <= 32,
                start + n <= 32,
                i <= n,
                self.offset == start,
                self.buffer@.len() == 32,
                old_buffer == old(self).buffer@,
                forall|j: int| 0 <= j < start ==> self.buffer@[j] == old_buffer[j],
                forall|j: int| start <= j < start + i ==> self.buffer@[j] == data@[j - start],
                forall|j: int| start + i <= j < 32 ==> self.buffer@[j] == old_buffer[j],
            decreases n - i,
        {
            self.buffer[start + i] = data[i];
            i += 1;
        }
        self.offset = start + n;
        self.buffer[0] = self.buffer[0] + (n as u8);
        proof {
            assert forall|j: int| self.spec_offset() <= j < 32 implies self.spec_buffer()[j] == 0 by {
                assert(old(self).spec_buffer()[j] == 0);
            }
            assert(self.spec_data() =~= seq![(old(self).spec_offset() - 1 + n) as u8]
                + old(self).spec_data().subrange(1, old(self).spec_offset() as int) + data@);
        }
        Ok(n)
    }

    /// The data, preceded by its length.
    pub fn data(&self) -> (r: &[u8])
        requires
            self.wf(),
        ensures
            r@ == self.spec_data(),
    {
        slice_subrange(self.buffer.as_slice(), 0, self.offset)
    }

    /// The 32 bytes of the buffer.
    pub fn full_data(&self) -> (r: [u8; 32])
        ensures
            r@ == self.spec_buffer(),
    {
        self.buffer
    }

    /// The outcome of parsing exactly 32 bytes: a length below 32, then 31 bytes of which the
    /// first `len` are the data.
    pub open spec fn spec_parse(s: Seq<u8>) -> Option<AdvertisingData> {
        if s.len() == 32 && s[0] < 32 {
            Some(AdvertisingData::spec_from_parts(s[0], s.subrange(1, 32)))
        } else {
            None
        }
    }

    /// Parses exactly 32 bytes.
    pub fn parse(input: &[u8]) -> (r: Option<AdvertisingData>)
        ensures
            r == AdvertisingData::spec_parse(input@),
    {
        if input.len() != 32 || input[0] >= 32 {
            return None;
        }
        let mut value = [0u8; 31];
        let mut i: usize = 0;
        while i < 31
            invariant
                input@.len() == 32,
                i <= 31,
                value@.len() == 31,
                forall|j: int| 0 <= j < i ==> value@[j] == input@[j + 1],
            decreases 31 - i,
        {
            value[i] = input[i + 1];
            i += 1;
        }
        assert(value@ =~= input@.subrange(1, 32));
        match AdvertisingData::try_from_parts(input[0], value) {
            Ok(d) => Some(d),
            Err(_) => None,
        }
    }

    /// Parsing the encoding of a well-formed value gives it back.
    pub proof fn lemma_parse_encode(self)
        requires
            self.wf(),
        ensures
            AdvertisingData::spec_parse(self.spec_encode()) == Some(self),
    {
        let s = self.spec_encode();
        let len = s[0];
        let t = Seq::new(32, |i: int| if i == 0 { len } else if i <= len { s.subrange(1, 32)[i - 1] } else { 0u8 });
        assert(t =~= self.buffer@);
        lemma_array32_of_bytes(self.buffer);
    }

    /// A parsed value is well-formed, and its encoding is the bytes parsed where the bytes after
    /// the data are zero.
    pub proof fn lemma_encode_parse(s: Seq<u8>)
        ensures
            AdvertisingData::spec_parse(s) matches Some(d) ==> {
                &&& d.wf()
                &&& (forall|i: int| s[0] < i < 32 ==> s[i] == 0) ==> d.spec_encode() == s
            },
    {
        if let Some(d) = AdvertisingData::spec_parse(s) {
            let len = s[0];
            let t = Seq::new(32, |i: int| if i == 0 { len } else if i <= len { s.subrange(1, 32)[i - 1] } else { 0u8 });
            lemma_bytes_of_array32(t);
            if forall|i: int| s[0] < i < 32 ==> s[i] == 0 {
                assert(t =~= s);
            }
        }
    }
}

impl Default for AdvertisingData {
    fn default() -> (r: AdvertisingData)
        ensures
            r.wf(),
            r.spec_offset() == 1,
            r.spec_buffer() == Seq::new(32, |i: int| 0u8),
    {
        let r = AdvertisingData { buffer: [0u8; 32], offset: 1 };
        assert(r.buffer@ =~= Seq::new(32, |i: int| 0u8));
        r
    }
}

impl TryFrom<(u8, [u8; 31])> for AdvertisingData {
    type Error = Error;

    fn try_from(value: (u8, [u8; 31])) -> Result<AdvertisingData, Error> {
        AdvertisingData::try_from_parts(value.0, value.1)
    }
}

impl vstd::std_specs::convert::TryFromSpecImpl<(u8, [u8; 31])> for AdvertisingData {
    open spec fn obeys_try_from_spec() -> bool {
        true
    }

    open spec fn try_from_spec(v: (u8, [u8; 31])) -> Result<AdvertisingData, Error> {
        AdvertisingData::spec_try_from_parts(v.0, v.1@)
    }
}

impl EncodeToBuffer for AdvertisingData {
    open spec fn spec_encode(&self) -> Seq<u8> {
        self.spec_buffer()
    }

    fn encode(&self, buffer: &mut Vec<u8>) -> (n: usize) {
        push_slice(buffer, self.buffer.as_slice());
        32
    }

    fn encoded_size(&self) -> (n: usize) {
        32
    }
}

/// Scan response data that can be sent when the advertising is scannable.
///
/// The 32 bytes hold the length of the data, then the data; the bytes after the data are zero.
#[derive(Debug, Clone, Copy, PartialEq, Eq)]
pub struct ScanResponseData {
    buffer: [u8; 32],
    offset: usize,
}

impl ScanResponseData {
    /// The 32 bytes of the buffer: the length, the data and zeros.
    pub closed spec fn spec_buffer(self) -> Seq<u8> {
        self.buffer@
    }

    /// The number of bytes in use: the length byte and the data.
    pub closed spec fn spec_offset(self) -> nat {
        self.offset as nat
    }

    /// Well-formedness: the length byte counts the data, which fits, and the rest is zero.
    pub open spec fn wf(self) -> bool {
        &&& 1 <= self.spec_offset() <= 32
        &&& self.spec_buffer()[0] == self.spec_offset() - 1
        &&& forall|i: int| self.spec_offset() <= i < 32 ==> self.spec_buffer()[i] == 0
    }

    /// The buffer holds 32 bytes.
    pub proof fn lemma_spec_buffer_len(self)
        ensures
            self.spec_buffer().len() == 32,
    {
    }

    /// The data, preceded by its length.
    pub open spec fn spec_data(self) -> Seq<u8> {
        self.spec_buffer().subrange(0, self.spec_offset() as int)
    }

    /// The value whose length byte is `len` and whose data is the first `len` bytes of `value`.
    pub closed spec fn spec_from_parts(len: u8, value: Seq<u8>) -> ScanResponseData {
        ScanResponseData {
            buffer: spec_array32(Seq::new(32, |i: int| if i == 0 { len } else if i <= len { value[i - 1] } else { 0u8 })),
            offset: (len + 1) as usize,
        }
    }

    /// The outcome of `try_from_parts`.
    pub open spec fn spec_try_from_parts(len: u8, value: Seq<u8>) -> Result<ScanResponseData, Error> {
        if len >= 32 {
            Err(Error::BufferTooSmall)
        } else {
            Ok(ScanResponseData::spec_from_parts(len, value))
        }
    }

    /// Creates a value from a length and 31 bytes, of which the first `len` are the data.
    pub fn try_from_parts(len: u8, value: [u8; 31]) -> (r: Result<ScanResponseData, Error>)
        ensures
            r == ScanResponseData::spec_try_from_parts(len, value@),
            r matches Ok(d) ==> d.wf() && d.spec_data() == seq![len] + value@.subrange(0, len as int),
    {
        if len >= 32 {
            return Err(Error::BufferTooSmall);
        }
        let mut buffer = [0u8; 32];
        buffer[0] = len;
        let n: usize = len as usize;
        let mut i: usize = 0;
        while i < n
            invariant
                n == len as usize,
                n < 32,
                i <= n,
                buffer@.len() == 32,
                buffer@[0] == len,
                forall|j: int| 1 <= j <= i ==> buffer@[j] == value@[j - 1],
                forall|j: int| i < j < 32 ==> buffer@[j] == 0,
            decreases n - i,
        {
            buffer[i + 1] = value[i];
            i += 1;
        }
        let r = ScanResponseData { buffer, offset: n + 1 };
        proof {
            let s = Seq::new(32, |i: int| if i == 0 { len } else if i <= len { value@[i - 1] } else { 0u8 });
            assert(buffer@ =~= s);
            lemma_array32_of_bytes(buffer);
            assert(r.spec_data() =~= seq![len] + value@.subrange(0, len as int));
        }
        Ok(r)
    }

    /// Appends bytes to the data; fails, changing nothing, where they do not fit.
    pub fn fill(&mut self, data: &[u8]) -> (r: Result<usize, Error>)
        requires
            old(self).wf(),
        ensures
            r is Ok <==> old(self).spec_offset() + data@.len() <= 32,
            r matches Ok(n) ==> {
                &&& n == data@.len()
                &&& final(self).wf()
                &&& final(self).spec_data() == seq![(old(self).spec_offset() - 1 + n) as u8]
                    + old(self).spec_data().subrange(1, old(self).spec_offset() as int) + data@
            },
            r is Err ==> r == Err::<usize, Error>(Error::BufferTooSmall) && *final(self) == *old(self),
    {
        let n = data.len();
        if n > 32 - self.offset {
            return Err(Error::BufferTooSmall);
        }
        let ghost old_buffer = self.buffer@;
        let start = self.offset;
        let mut i: usize = 0;
        while i < n
            invariant
                n == data@.len(),
                start == old(self).offset,
                1 <= start <= 32,
                start + n <= 32,
                i <= n,
                self.offset == start,
                self.buffer@.len() == 32,
                old_buffer == old(self).buffer@,
                forall|j: int| 0 <= j < start ==> self.buffer@[j] == old_buffer[j],
                forall|j: int| start <= j < start + i ==> self.buffer@[j] == data@[j - start],
                forall|j: int| start + i <= j < 32 ==> self.buffer@[j] == old_buffer[j],
            decreases n - i,
        {
            self.buffer[start + i] = data[i];
            i += 1;
        }
        self.offset = start + n;
        self.buffer[0] = self.buffer[0] + (n as u8);
        proof {
            assert forall|j: int| self.spec_offset() <= j < 32 implies self.spec_buffer()[j] == 0 by {
                assert(old(self).spec_buffer()[j] == 0);
            }
            assert(self.spec_data() =~= seq![(old(self).spec_offset() - 1 + n) as u8]
                + old(self).spec_data().subrange(1, old(self).spec_offset() as int) + data@);
        }
        Ok(n)
    }

    /// The data, preceded by its length.
    pub fn data(&self) -> (r: &[u8])
        requires
            self.wf(),
        ensures
            r@ == self.spec_data(),
    {
        slice_subrange(self.buffer.as_slice(), 0, self.offset)
    }

    /// The 32 bytes of the buffer.
    pub fn full_data(&self) -> (r: [u8; 32])
        ensures
            r@ == self.spec_buffer(),
    {
        self.buffer
    }

    /// The outcome of parsing exactly 32 bytes: a length below 32, then 31 bytes of which the
    /// first `len` are the data.
    pub open spec fn spec_parse(s: Seq<u8>) -> Option<ScanResponseData> {
        if s.len() == 32 && s[0] < 32 {
            Some(ScanResponseData::spec_from_parts(s[0], s.subrange(1, 32)))
        } else {
            None
        }
    }

    /// Parses exactly 32 bytes.
    pub fn parse(input: &[u8]) -> (r: Option<ScanResponseData>)
        ensures
            r == ScanResponseData::spec_parse(input@),
    {
        if input.len() != 32 || input[0] >= 32 {
            return None;
        }
        let mut value = [0u8; 31];
        let mut i: usize = 0;
        while i < 31
            invariant
                input@.len() == 32,
                i <= 31,
                value@.len() == 31,
                forall|j: int| 0 <= j < i ==> value@[j] == input@[j + 1],
            decreases 31 - i,
        {
            value[i] = input[i + 1];
            i += 1;
        }
        assert(value@ =~= input@.subrange(1, 32));
        match ScanResponseData::try_from_parts(input[0], value) {
            Ok(d) => Some(d),
            Err(_) => None,
        }
    }

    /// Parsing the encoding of a well-formed value gives it back.
    pub proof fn lemma_parse_encode(self)
        requires
            self.wf(),
        ensures
            ScanResponseData::spec_parse(self.spec_encode()) == Some(self),
    {
        let s = self.spec_encode();
        let len = s[0];
        let t = Seq::new(32, |i: int| if i == 0 { len } else if i <= len { s.subrange(1, 32)[i - 1] } else { 0u8 });
        assert(t =~= self.buffer@);
        lemma_array32_of_bytes(self.buffer);
    }

    /// A parsed value is well-formed, and its encoding is the bytes parsed where the bytes after
    /// the data are zero.
    pub proof fn lemma_encode_parse(s: Seq<u8>)
        ensures
            ScanResponseData::spec_parse(s) matches Some(d) ==> {
                &&& d.wf()
                &&& (forall|i: int| s[0] < i < 32 ==> s[i] == 0) ==> d.spec_encode() == s
            },
    {
        if let Some(d) = ScanResponseData::spec_parse(s) {
            let len = s[0];
            let t = Seq::new(32, |i: int| if i == 0 { len } else if i <= len { s.subrange(1, 32)[i - 1] } else { 0u8 });
            lemma_bytes_of_array32(t);
            if forall|i: int| s[0] < i < 32 ==> s[i] == 0 {
                assert(t =~= s);
            }
        }
    }
}

impl Default for ScanResponseData {
    fn default() -> (r: ScanResponseData)
        ensures
            r.wf(),
            r.spec_offset() == 1,
            r.spec_buffer() == Seq::new(32, |i: int| 0u8),
    {
        let r = ScanResponseData { buffer: [0u8; 32], offset: 1 };
        assert(r.buffer@ =~= Seq::new(32, |i: int| 0u8));
        r
    }
}

impl TryFrom<(u8, [u8; 31])> for ScanResponseData {
    type Error = Error;

    fn try_from(value: (u8, [u8; 31])) -> Result<ScanResponseData, Error> {
        ScanResponseData::try_from_parts(value.0, value.1)
    }
}

impl vstd::std_specs::convert::TryFromSpecImpl<(u8, [u8; 31])> for ScanResponseData {
    open spec fn obeys_try_from_spec() -> bool {
        true
    }

    open spec fn try_from_spec(v: (u8, [u8; 31])) -> Result<ScanResponseData, Error> {
        ScanResponseData::spec_try_from_parts(v.0, v.1@)
    }
}

impl EncodeToBuffer for ScanResponseData {
    open spec fn spec_encode(&self) -> Seq<u8> {
        self.spec_buffer()
    }

    fn encode(&self, buffer: &mut Vec<u8>) -> (n: usize) {
        push_slice(buffer, self.buffer.as_slice());
        32
    }

    fn encoded_size(&self) -> (n: usize) {
        32
    }
}

} // verus!
