//! Device addresses: public and random (static, resolvable private and non-resolvable private).
use vstd::prelude::*;
use vstd::string::StringSliceAdditionalSpecFns;

use crate::bytes::{lemma_array6_of_bytes, lemma_bytes_of_array6, push_array6, spec_array6};
use crate::encode::EncodeToBuffer;
use crate::error::Error;

verus! {

/// Whether the two most significant bits of the last address byte are `tag` (0b11, 0b01 or 0b00).
pub open spec fn spec_has_subtype(a: Seq<u8>, tag: u8) -> bool {
    (a[5] & 0xC0u8) == tag
}

/// Whether the bytes `from..to` of `a` are all equal to `b`.
pub open spec fn spec_all_equal(a: Seq<u8>, from: int, to: int, b: u8) -> bool {
    forall|i: int| from <= i < to ==> a[i] == b
}

/// A random static device address: subtype bits 0b11, and neither all the other bits at 0 nor
/// all the bits at 1.
pub open spec fn spec_is_random_static(a: Seq<u8>) -> bool {
    &&& a.len() == 6
    &&& spec_has_subtype(a, 0xC0)
    &&& !(spec_all_equal(a, 0, 5, 0x00) && a[5] == 0xC0)
    &&& !spec_all_equal(a, 0, 6, 0xFF)
}

/// A random resolvable private address: subtype bits 0b01, and neither all the other bits at 0
/// nor all at 1.
pub open spec fn spec_is_random_resolvable_private(a: Seq<u8>) -> bool {
    &&& a.len() == 6
    &&& spec_has_subtype(a, 0x40)
    &&& !(spec_all_equal(a, 0, 5, 0x00) && a[5] == 0x40)
    &&& !(spec_all_equal(a, 0, 5, 0xFF) && a[5] == 0x7F)
}

/// A random non-resolvable private address: subtype bits 0b00, and the random part of the
/// address (the three most significant bytes) neither all at 0 nor all at 1.
pub open spec fn spec_is_random_non_resolvable_private(a: Seq<u8>) -> bool {
    &&& a.len() == 6
    &&& spec_has_subtype(a, 0x00)
    &&& !spec_all_equal(a, 3, 6, 0x00)
    &&& !(spec_all_equal(a, 3, 5, 0xFF) && a[5] == 0x3F)
}

/// Whether the bytes `from..to` of the address are all equal to `b`.
fn all_bytes_equal(address: &[u8; 6], from: usize, to: usize, b: u8) -> (r: bool)
    requires
        from <= to <= 6,
    ensures
        r == spec_all_equal(address@, from as int, to as int, b),
{
    let mut i: usize = from;
    while i < to
        invariant
            from <= i <= to <= 6,
            spec_all_equal(address@, from as int, i as int, b),
        decreases to - i,
    {
        if address[i] != b {
            return false;
        }
        i += 1;
    }
    true
}

/// Device Address.
///
/// This is the address and its type that identifies a device: a public device address or a
/// random device address (static, resolvable private or non-resolvable private).
///
/// See Core Specification 6.0, Vol.6, Part B, 1.3.
#[derive(Debug, Clone, Copy, PartialEq, Eq)]
pub enum DeviceAddress {
    Public(PublicDeviceAddress),
    Random(RandomAddress),
}

impl DeviceAddress {
    /// The six bytes of the address.
    pub open spec fn spec_value(self) -> Seq<u8> {
        match self {
            DeviceAddress::Public(address) => address.spec_value(),
            DeviceAddress::Random(address) => address.spec_value(),
        }
    }

    /// Well-formedness: a random address satisfies the rules of its subtype.
    pub open spec fn wf(self) -> bool {
        match self {
            DeviceAddress::Public(address) => address.wf(),
            DeviceAddress::Random(address) => address.wf(),
        }
    }

    /// An address has six bytes.
    pub proof fn lemma_spec_value_len(self)
        ensures
            self.spec_value().len() == 6,
    {
        match self {
            DeviceAddress::Public(a) => {},
            DeviceAddress::Random(a) => match a {
                RandomAddress::Static(b) => {},
                RandomAddress::ResolvablePrivate(b) => {},
                RandomAddress::NonResolvablePrivate(b) => {},
            },
        }
    }

    /// The six bytes of the address.
    pub fn value(&self) -> (r: &[u8; 6])
        ensures
            r@ == self.spec_value(),
    {
        match self {
            DeviceAddress::Public(address) => address.value(),
            DeviceAddress::Random(address) => address.value(),
        }
    }
}

impl Default for DeviceAddress {
    fn default() -> (r: DeviceAddress)
        ensures
            r is Public,
            r.spec_value() == seq![0u8, 0u8, 0u8, 0u8, 0u8, 0u8],
    {
        DeviceAddress::Public(PublicDeviceAddress::default())
    }
}

impl From<PublicDeviceAddress> for DeviceAddress {
    fn from(value: PublicDeviceAddress) -> DeviceAddress {
        DeviceAddress::Public(value)
    }
}

impl vstd::std_specs::convert::FromSpecImpl<PublicDeviceAddress> for DeviceAddress {
    open spec fn obeys_from_spec() -> bool {
        true
    }

    open spec fn from_spec(v: PublicDeviceAddress) -> DeviceAddress {
        DeviceAddress::Public(v)
    }
}

impl From<RandomAddress> for DeviceAddress {
    fn from(value: RandomAddress) -> DeviceAddress {
        DeviceAddress::Random(value)
    }
}

impl vstd::std_specs::convert::FromSpecImpl<RandomAddress> for DeviceAddress {
    open spec fn obeys_from_spec() -> bool {
        true
    }

    open spec fn from_spec(v: RandomAddress) -> DeviceAddress {
        DeviceAddress::Random(v)
    }
}

impl From<RandomStaticDeviceAddress> for DeviceAddress {
    fn from(value: RandomStaticDeviceAddress) -> DeviceAddress {
        DeviceAddress::Random(RandomAddress::Static(value))
    }
}

impl vstd::std_specs::convert::FromSpecImpl<RandomStaticDeviceAddress> for DeviceAddress {
    open spec fn obeys_from_spec() -> bool {
        true
    }

    open spec fn from_spec(v: RandomStaticDeviceAddress) -> DeviceAddress {
        DeviceAddress::Random(RandomAddress::Static(v))
    }
}

impl From<RandomResolvablePrivateAddress> for DeviceAddress {
    fn from(value: RandomResolvablePrivateAddress) -> DeviceAddress {
        DeviceAddress::Random(RandomAddress::ResolvablePrivate(value))
    }
}

impl vstd::std_specs::convert::FromSpecImpl<RandomResolvablePrivateAddress> for DeviceAddress {
    open spec fn obeys_from_spec() -> bool {
        true
    }

    open spec fn from_spec(v: RandomResolvablePrivateAddress) -> DeviceAddress {
        DeviceAddress::Random(RandomAddress::ResolvablePrivate(v))
    }
}

impl From<RandomNonResolvablePrivateAddress> for DeviceAddress {
    fn from(value: RandomNonResolvablePrivateAddress) -> DeviceAddress {
        DeviceAddress::Random(RandomAddress::NonResolvablePrivate(value))
    }
}

impl vstd::std_specs::convert::FromSpecImpl<RandomNonResolvablePrivateAddress> for DeviceAddress {
    open spec fn obeys_from_spec() -> bool {
        true
    }

    open spec fn from_spec(v: RandomNonResolvablePrivateAddress) -> DeviceAddress {
        DeviceAddress::Random(RandomAddress::NonResolvablePrivate(v))
    }
}

impl EncodeToBuffer for DeviceAddress {
    open spec fn spec_encode(&self) -> Seq<u8> {
        self.spec_value()
    }

    fn encode(&self, buffer: &mut Vec<u8>) -> (n: usize) {
        match *self {
            DeviceAddress::Public(address) => {
                let n = address.encode(buffer);
                assert(self.spec_encode() == address.spec_encode());
                n
            },
            DeviceAddress::Random(address) => {
                let n = address.encode(buffer);
                assert(self.spec_encode() == address.spec_encode());
                n
            },
        }
    }

    fn encoded_size(&self) -> (n: usize) {
        6
    }
}

/// Public device address.
#[derive(Debug, Clone, Copy, PartialEq, Eq)]
pub struct PublicDeviceAddress {
    value: [u8; 6],
}

impl PublicDeviceAddress {
    /// The six bytes of the address.
    pub closed spec fn spec_value(self) -> Seq<u8> {
        self.value@
    }

    /// Every six bytes make a public device address.
    pub open spec fn wf(self) -> bool {
        self.spec_value().len() == 6
    }

    /// The public device address made of `address`.
    pub closed spec fn spec_new(address: Seq<u8>) -> PublicDeviceAddress {
        PublicDeviceAddress { value: spec_array6(address) }
    }

    /// Create a public device address.
    pub fn new(address: [u8; 6]) -> (r: PublicDeviceAddress)
        ensures
            r.spec_value() == address@,
            r == PublicDeviceAddress::spec_new(address@),
            r.wf(),
    {
        proof {
            lemma_array6_of_bytes(address);
        }
        PublicDeviceAddress { value: address }
    }

    /// The six bytes of the address.
    pub fn value(&self) -> (r: &[u8; 6])
        ensures
            r@ == self.spec_value(),
    {
        &self.value
    }

    /// Public device addresses are determined by their bytes.
    pub proof fn lemma_spec_value_injective(a: PublicDeviceAddress, b: PublicDeviceAddress)
        ensures
            a.spec_value() == b.spec_value() ==> a == b,
    {
        if a.spec_value() == b.spec_value() {
            assert(a.value =~= b.value);
        }
    }

    /// Building an address from the bytes of an address gives it back.
    pub proof fn lemma_spec_new_spec_value(self)
        ensures
            PublicDeviceAddress::spec_new(self.spec_value()) == self,
            self.wf(),
    {
        lemma_array6_of_bytes(self.value);
    }

    /// The bytes of an address built from six bytes are those bytes.
    pub proof fn lemma_spec_new_value(address: Seq<u8>)
        requires
            address.len() == 6,
        ensures
            PublicDeviceAddress::spec_new(address).spec_value() == address,
    {
        lemma_bytes_of_array6(address);
    }
}

impl Default for PublicDeviceAddress {
    fn default() -> (r: PublicDeviceAddress)
        ensures
            r.spec_value() == seq![0u8, 0u8, 0u8, 0u8, 0u8, 0u8],
    {
        let r = PublicDeviceAddress { value: [0u8; 6] };
        assert(r.value@ =~= seq![0u8, 0u8, 0u8, 0u8, 0u8, 0u8]);
        r
    }
}

impl From<[u8; 6]> for PublicDeviceAddress {
    fn from(value: [u8; 6]) -> PublicDeviceAddress {
        PublicDeviceAddress::new(value)
    }
}

impl vstd::std_specs::convert::FromSpecImpl<[u8; 6]> for PublicDeviceAddress {
    open spec fn obeys_from_spec() -> bool {
        true
    }

    open spec fn from_spec(v: [u8; 6]) -> PublicDeviceAddress {
        PublicDeviceAddress::spec_new(v@)
    }
}

impl<'a> vstd::std_specs::convert::TryFromSpecImpl<&'a str> for PublicDeviceAddress {
    open spec fn obeys_try_from_spec() -> bool {
        true
    }

    open spec fn try_from_spec(v: &'a str) -> Result<PublicDeviceAddress, Error> {
        PublicDeviceAddress::spec_try_from_str(v.spec_bytes())
    }
}

impl<'a> TryFrom<&'a str> for PublicDeviceAddress {
    type Error = Error;

    fn try_from(value: &'a str) -> Result<PublicDeviceAddress, Error> {
        PublicDeviceAddress::try_from_str(value)
    }
}

impl PublicDeviceAddress {
    /// The outcome of parsing a textual public address.
    pub open spec fn spec_try_from_str(s: Seq<u8>) -> Result<PublicDeviceAddress, Error> {
        if spec_is_address_str(s) {
            Ok(PublicDeviceAddress::spec_new(spec_address_from_str(s)))
        } else {
            Err(Error::InvalidPublicDeviceAddress)
        }
    }

    /// Parses a public address written as six colon separated hexadecimal bytes, the most
    /// significant first (e.g. "56:32:04:0B:2E:CD").
    pub fn try_from_str(value: &str) -> (r: Result<PublicDeviceAddress, Error>)
        ensures
            r == PublicDeviceAddress::spec_try_from_str(value.spec_bytes()),
    {
        match parse_address_str(value.as_bytes()) {
            Some(address) => Ok(PublicDeviceAddress::new(address)),
            None => Err(Error::InvalidPublicDeviceAddress),
        }
    }
}

impl EncodeToBuffer for PublicDeviceAddress {
    open spec fn spec_encode(&self) -> Seq<u8> {
        self.spec_value()
    }

    fn encode(&self, buffer: &mut Vec<u8>) -> (n: usize) {
        let ghost start = buffer@;
        push_array6(buffer, &self.value);
        assert(self.value@.len() == 6);
        assert(buffer@ == start + self.spec_encode());
        6
    }

    fn encoded_size(&self) -> (n: usize) {
        6
    }
}

/// Random device address.
#[derive(Debug, Clone, Copy, PartialEq, Eq)]
pub enum RandomAddress {
    Static(RandomStaticDeviceAddress),
    ResolvablePrivate(RandomResolvablePrivateAddress),
    NonResolvablePrivate(RandomNonResolvablePrivateAddress),
}

impl RandomAddress {
    /// The six bytes of the address.
    pub open spec fn spec_value(self) -> Seq<u8> {
        match self {
            RandomAddress::Static(address) => address.spec_value(),
            RandomAddress::ResolvablePrivate(address) => address.spec_value(),
            RandomAddress::NonResolvablePrivate(address) => address.spec_value(),
        }
    }

    /// Well-formedness: the bytes satisfy the rules of the subtype.
    pub open spec fn wf(self) -> bool {
        match self {
            RandomAddress::Static(address) => address.wf(),
            RandomAddress::ResolvablePrivate(address) => address.wf(),
            RandomAddress::NonResolvablePrivate(address) => address.wf(),
        }
    }

    /// The outcome of classifying six bytes as a random address: the subtype is given by the two
    /// most significant bits; the error of the subtype is returned when its rules are broken.
    pub open spec fn spec_try_from_bytes(a: Seq<u8>) -> Result<RandomAddress, Error> {
        if spec_has_subtype(a, 0xC0) {
            match RandomStaticDeviceAddress::spec_try_new(a) {
                Ok(v) => Ok(RandomAddress::Static(v)),
                Err(e) => Err(e),
            }
        } else if spec_has_subtype(a, 0x40) {
            match RandomResolvablePrivateAddress::spec_try_new(a) {
                Ok(v) => Ok(RandomAddress::ResolvablePrivate(v)),
                Err(e) => Err(e),
            }
        } else if spec_has_subtype(a, 0x00) {
            match RandomNonResolvablePrivateAddress::spec_try_new(a) {
                Ok(v) => Ok(RandomAddress::NonResolvablePrivate(v)),
                Err(e) => Err(e),
            }
        } else {
            Err(Error::InvalidRandomAddress)
        }
    }

    /// The six bytes of the address.
    pub fn value(&self) -> (r: &[u8; 6])
        ensures
            r@ == self.spec_value(),
    {
        match self {
            RandomAddress::Static(address) => address.value(),
            RandomAddress::ResolvablePrivate(address) => address.value(),
            RandomAddress::NonResolvablePrivate(address) => address.value(),
        }
    }

    /// Classifying the bytes of a well-formed random address gives it back.
    pub proof fn lemma_try_from_bytes_spec_value(self)
        requires
            self.wf(),
        ensures
            RandomAddress::spec_try_from_bytes(self.spec_value()) == Ok::<RandomAddress, Error>(self),
    {
        match self {
            RandomAddress::Static(a) => a.lemma_try_new_spec_value(),
            RandomAddress::ResolvablePrivate(a) => a.lemma_try_new_spec_value(),
            RandomAddress::NonResolvablePrivate(a) => a.lemma_try_new_spec_value(),
        }
    }

    /// A random address classified from bytes holds those bytes and is well-formed.
    pub proof fn lemma_spec_try_from_bytes_value(a: Seq<u8>)
        ensures
            RandomAddress::spec_try_from_bytes(a) matches Ok(r) ==> r.spec_value() == a && r.wf(),
    {
        RandomStaticDeviceAddress::lemma_spec_try_new_value(a);
        RandomResolvablePrivateAddress::lemma_spec_try_new_value(a);
        RandomNonResolvablePrivateAddress::lemma_spec_try_new_value(a);
    }

    /// Classifies six bytes as a random address.
    pub fn try_from_bytes(value: [u8; 6]) -> (r: Result<RandomAddress, Error>)
        ensures
            r == RandomAddress::spec_try_from_bytes(value@),
            r matches Ok(a) ==> a.spec_value() == value@ && a.wf(),
    {
        let subtype = value[5] & 0b1100_0000;
        if subtype == 0b1100_0000 {
            match RandomStaticDeviceAddress::try_new(value) {
                Ok(v) => Ok(RandomAddress::Static(v)),
                Err(e) => Err(e),
            }
        } else if subtype == 0b0100_0000 {
            match RandomResolvablePrivateAddress::try_new(value) {
                Ok(v) => Ok(RandomAddress::ResolvablePrivate(v)),
                Err(e) => Err(e),
            }
        } else if subtype == 0 {
            match RandomNonResolvablePrivateAddress::try_new(value) {
                Ok(v) => Ok(RandomAddress::NonResolvablePrivate(v)),
                Err(e) => Err(e),
            }
        } else {
            Err(Error::InvalidRandomAddress)
        }
    }

    /// The outcome of parsing a textual random address; every failure is reported as an invalid
    /// random address.
    pub open spec fn spec_try_from_str(s: Seq<u8>) -> Result<RandomAddress, Error> {
        if spec_is_address_str(s) {
            match RandomAddress::spec_try_from_bytes(spec_address_from_str(s)) {
                Ok(a) => Ok(a),
                Err(_) => Err(Error::InvalidRandomAddress),
            }
        } else {
            Err(Error::InvalidRandomAddress)
        }
    }

    /// Parses a random address written as six colon separated hexadecimal bytes, the most
    /// significant first (e.g. "f7:6a:7d:e9:c8:28").
    pub fn try_from_str(value: &str) -> (r: Result<RandomAddress, Error>)
        ensures
            r == RandomAddress::spec_try_from_str(value.spec_bytes()),
    {
        match parse_address_str(value.as_bytes()) {
            Some(address) => match RandomAddress::try_from_bytes(address) {
                Ok(a) => Ok(a),
                Err(_) => Err(Error::InvalidRandomAddress),
            },
            None => Err(Error::InvalidRandomAddress),
        }
    }
}

impl TryFrom<[u8; 6]> for RandomAddress {
    type Error = Error;

    fn try_from(value: [u8; 6]) -> Result<RandomAddress, Error> {
        RandomAddress::try_from_bytes(value)
    }
}

impl vstd::std_specs::convert::TryFromSpecImpl<[u8; 6]> for RandomAddress {
    open spec fn obeys_try_from_spec() -> bool {
        true
    }

    open spec fn try_from_spec(v: [u8; 6]) -> Result<RandomAddress, Error> {
        RandomAddress::spec_try_from_bytes(v@)
    }
}

impl<'a> vstd::std_specs::convert::TryFromSpecImpl<&'a str> for RandomAddress {
    open spec fn obeys_try_from_spec() -> bool {
        true
    }

    open spec fn try_from_spec(v: &'a str) -> Result<RandomAddress, Error> {
        RandomAddress::spec_try_from_str(v.spec_bytes())
    }
}

impl<'a> TryFrom<&'a str> for RandomAddress {
    type Error = Error;

    fn try_from(value: &'a str) -> Result<RandomAddress, Error> {
        RandomAddress::try_from_str(value)
    }
}

impl From<RandomStaticDeviceAddress> for RandomAddress {
    fn from(value: RandomStaticDeviceAddress) -> RandomAddress {
        RandomAddress::Static(value)
    }
}

impl vstd::std_specs::convert::FromSpecImpl<RandomStaticDeviceAddress> for RandomAddress {
    open spec fn obeys_from_spec() -> bool {
        true
    }

    open spec fn from_spec(v: RandomStaticDeviceAddress) -> RandomAddress {
        RandomAddress::Static(v)
    }
}

impl From<RandomResolvablePrivateAddress> for RandomAddress {
    fn from(value: RandomResolvablePrivateAddress) -> RandomAddress {
        RandomAddress::ResolvablePrivate(value)
    }
}

impl vstd::std_specs::convert::FromSpecImpl<RandomResolvablePrivateAddress> for RandomAddress {
    open spec fn obeys_from_spec() -> bool {
        true
    }

    open spec fn from_spec(v: RandomResolvablePrivateAddress) -> RandomAddress {
        RandomAddress::ResolvablePrivate(v)
    }
}

impl From<RandomNonResolvablePrivateAddress> for RandomAddress {
    fn from(value: RandomNonResolvablePrivateAddress) -> RandomAddress {
        RandomAddress::NonResolvablePrivate(value)
    }
}

impl vstd::std_specs::convert::FromSpecImpl<RandomNonResolvablePrivateAddress> for RandomAddress {
    open spec fn obeys_from_spec() -> bool {
        true
    }

    open spec fn from_spec(v: RandomNonResolvablePrivateAddress) -> RandomAddress {
        RandomAddress::NonResolvablePrivate(v)
    }
}

impl EncodeToBuffer for RandomAddress {
    open spec fn spec_encode(&self) -> Seq<u8> {
        self.spec_value()
    }

    fn encode(&self, buffer: &mut Vec<u8>) -> (n: usize) {
        match *self {
            RandomAddress::Static(address) => {
                let n = address.encode(buffer);
                assert(self.spec_encode() == address.spec_encode());
                n
            },
            RandomAddress::ResolvablePrivate(address) => {
                let n = address.encode(buffer);
                assert(self.spec_encode() == address.spec_encode());
                n
            },
            RandomAddress::NonResolvablePrivate(address) => {
                let n = address.encode(buffer);
                assert(self.spec_encode() == address.spec_encode());
                n
            },
        }
    }

    fn encoded_size(&self) -> (n: usize) {
        6
    }
}

/// Random static device address.
#[derive(Debug, Clone, Copy, PartialEq, Eq)]
pub struct RandomStaticDeviceAddress {
    value: [u8; 6],
}

impl RandomStaticDeviceAddress {
    /// The six bytes of the address.
    pub closed spec fn spec_value(self) -> Seq<u8> {
        self.value@
    }

    /// Well-formedness: the bytes follow the rules of a random static device address.
    pub open spec fn wf(self) -> bool {
        spec_is_random_static(self.spec_value())
    }

    /// The outcome of `try_new`.
    pub closed spec fn spec_try_new(a: Seq<u8>) -> Result<RandomStaticDeviceAddress, Error> {
        if spec_is_random_static(a) {
            Ok(RandomStaticDeviceAddress { value: spec_array6(a) })
        } else {
            Err(Error::InvalidRandomStaticDeviceAddress)
        }
    }

    /// Creates a random static device address, checking its bytes.
    pub fn try_new(address: [u8; 6]) -> (r: Result<RandomStaticDeviceAddress, Error>)
        ensures
            r == RandomStaticDeviceAddress::spec_try_new(address@),
            r is Ok <==> spec_is_random_static(address@),
            r matches Ok(a) ==> a.spec_value() == address@ && a.wf(),
            r is Err ==> r == Err::<RandomStaticDeviceAddress, Error>(
                Error::InvalidRandomStaticDeviceAddress,
            ),
    {
        if RandomStaticDeviceAddress::is_valid(&address) {
            proof {
                lemma_array6_of_bytes(address);
            }
            Ok(RandomStaticDeviceAddress { value: address })
        } else {
            Err(Error::InvalidRandomStaticDeviceAddress)
        }
    }

    /// Creates a random static device address from random bytes, forcing the two subtype bits to
    /// 0b11.
    pub fn try_new_from_random_bytes(bytes: [u8; 6]) -> (r: Result<RandomStaticDeviceAddress, Error>)
        ensures
            r == RandomStaticDeviceAddress::spec_try_new(
                bytes@.update(5, bytes@[5] | 0xC0u8),
            ),
    {
        let mut bytes = bytes;
        bytes[5] = bytes[5] | 0b1100_0000;
        RandomStaticDeviceAddress::try_new(bytes)
    }

    /// The six bytes of the address.
    pub fn value(&self) -> (r: &[u8; 6])
        ensures
            r@ == self.spec_value(),
    {
        &self.value
    }

    fn is_valid(address: &[u8; 6]) -> (r: bool)
        ensures
            r == spec_is_random_static(address@),
    {
        (address[5] & 0b1100_0000) == 0b1100_0000 && !(all_bytes_equal(address, 0, 5, 0x00)
            && address[5] == 0b1100_0000) && !all_bytes_equal(address, 0, 6, 0xFF)
    }

    /// Random static device addresses are determined by their bytes.
    pub proof fn lemma_spec_value_injective(a: RandomStaticDeviceAddress, b: RandomStaticDeviceAddress)
        ensures
            a.spec_value() == b.spec_value() ==> a == b,
    {
        if a.spec_value() == b.spec_value() {
            assert(a.value =~= b.value);
        }
    }

    /// `try_new` succeeds exactly on bytes that follow the rules of the subtype, with an address
    /// holding those bytes, and fails with the error of the subtype otherwise.
    pub proof fn lemma_spec_try_new_value(a: Seq<u8>)
        ensures
            RandomStaticDeviceAddress::spec_try_new(a) is Ok <==> spec_is_random_static(a),
            RandomStaticDeviceAddress::spec_try_new(a) matches Ok(r) ==> r.spec_value() == a && r.wf(),
            RandomStaticDeviceAddress::spec_try_new(a) is Err ==> RandomStaticDeviceAddress::spec_try_new(a) == Err::<RandomStaticDeviceAddress, Error>(
                Error::InvalidRandomStaticDeviceAddress,
            ),
    {
        if RandomStaticDeviceAddress::spec_try_new(a) is Ok {
            lemma_bytes_of_array6(a);
        }
    }

    /// `try_new` of the bytes of a well-formed address gives that address back.
    pub proof fn lemma_try_new_spec_value(self)
        requires
            self.wf(),
        ensures
            RandomStaticDeviceAddress::spec_try_new(self.spec_value()) == Ok::<
                RandomStaticDeviceAddress,
                Error,
            >(self),
    {
        lemma_array6_of_bytes(self.value);
    }
}

impl TryFrom<[u8; 6]> for RandomStaticDeviceAddress {
    type Error = Error;

    fn try_from(value: [u8; 6]) -> Result<RandomStaticDeviceAddress, Error> {
        RandomStaticDeviceAddress::try_new(value)
    }
}

impl vstd::std_specs::convert::TryFromSpecImpl<[u8; 6]> for RandomStaticDeviceAddress {
    open spec fn obeys_try_from_spec() -> bool {
        true
    }

    open spec fn try_from_spec(v: [u8; 6]) -> Result<RandomStaticDeviceAddress, Error> {
        RandomStaticDeviceAddress::spec_try_new(v@)
    }
}

impl EncodeToBuffer for RandomStaticDeviceAddress {
    open spec fn spec_encode(&self) -> Seq<u8> {
        self.spec_value()
    }

    fn encode(&self, buffer: &mut Vec<u8>) -> (n: usize) {
        let ghost start = buffer@;
        push_array6(buffer, &self.value);
        assert(self.value@.len() == 6);
        assert(buffer@ == start + self.spec_encode());
        6
    }

    fn encoded_size(&self) -> (n: usize) {
        6
    }
}

/// Random resolvable private address.
#[derive(Debug, Clone, Copy, PartialEq, Eq)]
pub struct RandomResolvablePrivateAddress {
    value: [u8; 6],
}

impl RandomResolvablePrivateAddress {
    /// The six bytes of the address.
    pub closed spec fn spec_value(self) -> Seq<u8> {
        self.value@
    }

    /// Well-formedness: the bytes follow the rules of a random resolvable private address.
    pub open spec fn wf(self) -> bool {
        spec_is_random_resolvable_private(self.spec_value())
    }

    /// The outcome of `try_new`.
    pub closed spec fn spec_try_new(a: Seq<u8>) -> Result<RandomResolvablePrivateAddress, Error> {
        if spec_is_random_resolvable_private(a) {
            Ok(RandomResolvablePrivateAddress { value: spec_array6(a) })
        } else {
            Err(Error::InvalidRandomResolvablePrivateAddress)
        }
    }

    /// Creates a random resolvable private address, checking its bytes.
    pub fn try_new(address: [u8; 6]) -> (r: Result<RandomResolvablePrivateAddress, Error>)
        ensures
            r == RandomResolvablePrivateAddress::spec_try_new(address@),
            r is Ok <==> spec_is_random_resolvable_private(address@),
            r matches Ok(a) ==> a.spec_value() == address@ && a.wf(),
            r is Err ==> r == Err::<RandomResolvablePrivateAddress, Error>(
                Error::InvalidRandomResolvablePrivateAddress,
            ),
    {
        if RandomResolvablePrivateAddress::is_valid(&address) {
            proof {
                lemma_array6_of_bytes(address);
            }
            Ok(RandomResolvablePrivateAddress { value: address })
        } else {
            Err(Error::InvalidRandomResolvablePrivateAddress)
        }
    }

    /// The six bytes of the address.
    pub fn value(&self) -> (r: &[u8; 6])
        ensures
            r@ == self.spec_value(),
    {
        &self.value
    }

    fn is_valid(address: &[u8; 6]) -> (r: bool)
        ensures
            r == spec_is_random_resolvable_private(address@),
    {
        (address[5] & 0b1100_0000) == 0b0100_0000 && !(all_bytes_equal(address, 0, 5, 0x00)
            && address[5] == 0b0100_0000) && !(all_bytes_equal(address, 0, 5, 0xFF) && address[5]
            == 0b0111_1111)
    }

    /// Random resolvable private addresses are determined by their bytes.
    pub proof fn lemma_spec_value_injective(
        a: RandomResolvablePrivateAddress,
        b: RandomResolvablePrivateAddress,
    )
        ensures
            a.spec_value() == b.spec_value() ==> a == b,
    {
        if a.spec_value() == b.spec_value() {
            assert(a.value =~= b.value);
        }
    }

    /// `try_new` succeeds exactly on bytes that follow the rules of the subtype, with an address
    /// holding those bytes, and fails with the error of the subtype otherwise.
    pub proof fn lemma_spec_try_new_value(a: Seq<u8>)
        ensures
            RandomResolvablePrivateAddress::spec_try_new(a) is Ok <==> spec_is_random_resolvable_private(a),
            RandomResolvablePrivateAddress::spec_try_new(a) matches Ok(r) ==> r.spec_value() == a && r.wf(),
            RandomResolvablePrivateAddress::spec_try_new(a) is Err ==> RandomResolvablePrivateAddress::spec_try_new(a) == Err::<RandomResolvablePrivateAddress, Error>(
                Error::InvalidRandomResolvablePrivateAddress,
            ),
    {
        if RandomResolvablePrivateAddress::spec_try_new(a) is Ok {
            lemma_bytes_of_array6(a);
        }
    }

    /// `try_new` of the bytes of a well-formed address gives that address back.
    pub proof fn lemma_try_new_spec_value(self)
        requires
            self.wf(),
        ensures
            RandomResolvablePrivateAddress::spec_try_new(self.spec_value()) == Ok::<
                RandomResolvablePrivateAddress,
                Error,
            >(self),
    {
        lemma_array6_of_bytes(self.value);
    }
}

impl TryFrom<[u8; 6]> for RandomResolvablePrivateAddress {
    type Error = Error;

    fn try_from(value: [u8; 6]) -> Result<RandomResolvablePrivateAddress, Error> {
        RandomResolvablePrivateAddress::try_new(value)
    }
}

impl vstd::std_specs::convert::TryFromSpecImpl<[u8; 6]> for RandomResolvablePrivateAddress {
    open spec fn obeys_try_from_spec() -> bool {
        true
    }

    open spec fn try_from_spec(v: [u8; 6]) -> Result<RandomResolvablePrivateAddress, Error> {
        RandomResolvablePrivateAddress::spec_try_new(v@)
    }
}

impl EncodeToBuffer for RandomResolvablePrivateAddress {
    open spec fn spec_encode(&self) -> Seq<u8> {
        self.spec_value()
    }

    fn encode(&self, buffer: &mut Vec<u8>) -> (n: usize) {
        let ghost start = buffer@;
        push_array6(buffer, &self.value);
        assert(self.value@.len() == 6);
        assert(buffer@ == start + self.spec_encode());
        6
    }

    fn encoded_size(&self) -> (n: usize) {
        6
    }
}

/// Random non-resolvable private address.
#[derive(Debug, Clone, Copy, PartialEq, Eq)]
pub struct RandomNonResolvablePrivateAddress {
    value: [u8; 6],
}

impl RandomNonResolvablePrivateAddress {
    /// The six bytes of the address.
    pub closed spec fn spec_value(self) -> Seq<u8> {
        self.value@
    }

    /// Well-formedness: the bytes follow the rules of a random non-resolvable private address.
    pub open spec fn wf(self) -> bool {
        spec_is_random_non_resolvable_private(self.spec_value())
    }

    /// The outcome of `try_new`.
    pub closed spec fn spec_try_new(a: Seq<u8>) -> Result<RandomNonResolvablePrivateAddress, Error> {
        if spec_is_random_non_resolvable_private(a) {
            Ok(RandomNonResolvablePrivateAddress { value: spec_array6(a) })
        } else {
            Err(Error::InvalidRandomNonResolvablePrivateAddress)
        }
    }

    /// Creates a random non-resolvable private address, checking its bytes.
    pub fn try_new(address: [u8; 6]) -> (r: Result<RandomNonResolvablePrivateAddress, Error>)
        ensures
            r == RandomNonResolvablePrivateAddress::spec_try_new(address@),
            r is Ok <==> spec_is_random_non_resolvable_private(address@),
            r matches Ok(a) ==> a.spec_value() == address@ && a.wf(),
            r is Err ==> r == Err::<RandomNonResolvablePrivateAddress, Error>(
                Error::InvalidRandomNonResolvablePrivateAddress,
            ),
    {
        if RandomNonResolvablePrivateAddress::is_valid(&address) {
            proof {
                lemma_array6_of_bytes(address);
            }
            Ok(RandomNonResolvablePrivateAddress { value: address })
        } else {
            Err(Error::InvalidRandomNonResolvablePrivateAddress)
        }
    }

    /// The six bytes of the address.
    pub fn value(&self) -> (r: &[u8; 6])
        ensures
            r@ == self.spec_value(),
    {
        &self.value
    }

    fn is_valid(address: &[u8; 6]) -> (r: bool)
        ensures
            r == spec_is_random_non_resolvable_private(address@),
    {
        (address[5] & 0b1100_0000) == 0 && !all_bytes_equal(address, 3, 6, 0x00) && !(
        all_bytes_equal(address, 3, 5, 0xFF) && address[5] == 0b0011_1111)
    }

    /// Random non-resolvable private addresses are determined by their bytes.
    pub proof fn lemma_spec_value_injective(
        a: RandomNonResolvablePrivateAddress,
        b: RandomNonResolvablePrivateAddress,
    )
        ensures
            a.spec_value() == b.spec_value() ==> a == b,
    {
        if a.spec_value() == b.spec_value() {
            assert(a.value =~= b.value);
        }
    }

    /// `try_new` succeeds exactly on bytes that follow the rules of the subtype, with an address
    /// holding those bytes, and fails with the error of the subtype otherwise.
    pub proof fn lemma_spec_try_new_value(a: Seq<u8>)
        ensures
            RandomNonResolvablePrivateAddress::spec_try_new(a) is Ok <==> spec_is_random_non_resolvable_private(a),
            RandomNonResolvablePrivateAddress::spec_try_new(a) matches Ok(r) ==> r.spec_value() == a && r.wf(),
            RandomNonResolvablePrivateAddress::spec_try_new(a) is Err ==> RandomNonResolvablePrivateAddress::spec_try_new(a) == Err::<RandomNonResolvablePrivateAddress, Error>(
                Error::InvalidRandomNonResolvablePrivateAddress,
            ),
    {
        if RandomNonResolvablePrivateAddress::spec_try_new(a) is Ok {
            lemma_bytes_of_array6(a);
        }
    }

    /// `try_new` of the bytes of a well-formed address gives that address back.
    pub proof fn lemma_try_new_spec_value(self)
        requires
            self.wf(),
        ensures
            RandomNonResolvablePrivateAddress::spec_try_new(self.spec_value()) == Ok::<
                RandomNonResolvablePrivateAddress,
                Error,
            >(self),
    {
        lemma_array6_of_bytes(self.value);
    }
}

impl TryFrom<[u8; 6]> for RandomNonResolvablePrivateAddress {
    type Error = Error;

    fn try_from(value: [u8; 6]) -> Result<RandomNonResolvablePrivateAddress, Error> {
        RandomNonResolvablePrivateAddress::try_new(value)
    }
}

impl vstd::std_specs::convert::TryFromSpecImpl<[u8; 6]> for RandomNonResolvablePrivateAddress {
    open spec fn obeys_try_from_spec() -> bool {
        true
    }

    open spec fn try_from_spec(v: [u8; 6]) -> Result<RandomNonResolvablePrivateAddress, Error> {
        RandomNonResolvablePrivateAddress::spec_try_new(v@)
    }
}

impl EncodeToBuffer for RandomNonResolvablePrivateAddress {
    open spec fn spec_encode(&self) -> Seq<u8> {
        self.spec_value()
    }

    fn encode(&self, buffer: &mut Vec<u8>) -> (n: usize) {
        let ghost start = buffer@;
        push_array6(buffer, &self.value);
        assert(self.value@.len() == 6);
        assert(buffer@ == start + self.spec_encode());
        6
    }

    fn encoded_size(&self) -> (n: usize) {
        6
    }
}

/// Whether `c` is an ASCII hexadecimal digit.
pub open spec fn spec_is_hex_digit(c: u8) -> bool {
    (0x30 <= c <= 0x39) || (0x41 <= c <= 0x46) || (0x61 <= c <= 0x66)
}

/// The value of an ASCII hexadecimal digit.
pub open spec fn spec_hex_value(c: u8) -> u8 {
    if c <= 0x39 {
        (c - 0x30) as u8
    } else if c <= 0x46 {
        (c - 0x41 + 10) as u8
    } else {
        (c - 0x61 + 10) as u8
    }
}

/// Whether `s` spells an address: six groups of two hexadecimal digits separated by colons.
pub open spec fn spec_is_address_str(s: Seq<u8>) -> bool {
    &&& s.len() == 17
    &&& forall|k: int|
        0 <= k < 6 ==> spec_is_hex_digit(#[trigger] s[3 * k]) && spec_is_hex_digit(s[3 * k + 1])
    &&& forall|k: int| 0 <= k < 5 ==> #[trigger] s[3 * k + 2] == 0x3A
}

/// The address bytes spelled by `s`: the first group is the most significant byte, which is the
/// last byte of the address.
pub open spec fn spec_address_from_str(s: Seq<u8>) -> Seq<u8> {
    Seq::new(
        6,
        |i: int| (spec_hex_value(s[3 * (5 - i)]) * 16 + spec_hex_value(s[3 * (5 - i) + 1])) as u8,
    )
}

fn hex_digit_value(c: u8) -> (r: Option<u8>)
    ensures
        r is Some <==> spec_is_hex_digit(c),
        r matches Some(v) ==> v == spec_hex_value(c) && v < 16,
{
    if 0x30 <= c && c <= 0x39 {
        Some(c - 0x30)
    } else if 0x41 <= c && c <= 0x46 {
        Some(c - 0x41 + 10)
    } else if 0x61 <= c && c <= 0x66 {
        Some(c - 0x61 + 10)
    } else {
        None
    }
}

/// Parses an address written as six colon separated hexadecimal bytes.
pub fn parse_address_str(s: &[u8]) -> (r: Option<[u8; 6]>)
    ensures
        r is Some <==> spec_is_address_str(s@),
        r matches Some(a) ==> a@ == spec_address_from_str(s@),
{
    if s.len() != 17 {
        return None;
    }
    let mut bytes = [0u8; 6];
    let mut k: usize = 0;
    while k < 6
        invariant
            s@.len() == 17,
            k <= 6,
            forall|j: int|
                0 <= j < k ==> spec_is_hex_digit(#[trigger] s@[3 * j]) && spec_is_hex_digit(
                    s@[3 * j + 1],
                ),
            forall|j: int| 0 <= j < k && j < 5 ==> #[trigger] s@[3 * j + 2] == 0x3A,
            forall|i: int|
                5 - k < i < 6 ==> #[trigger] bytes@[i] == (spec_hex_value(s@[3 * (5 - i)]) * 16
                    + spec_hex_value(s@[3 * (5 - i) + 1])) as u8,
        decreases 6 - k,
    {
        let high = match hex_digit_value(s[3 * k]) {
            Some(v) => v,
            None => return None,
        };
        let low = match hex_digit_value(s[3 * k + 1]) {
            Some(v) => v,
            None => return None,
        };
        if k < 5 && s[3 * k + 2] != 0x3A {
            return None;
        }
        bytes[5 - k] = high * 16 + low;
        k += 1;
    }
    assert(bytes@ =~= spec_address_from_str(s@));
    Some(bytes)
}

} // verus!
