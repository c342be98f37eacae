//! LE Advertising Report events.
use vstd::prelude::*;

use crate::advertising_data::AdvertisingData;
use crate::bytes::{
    lemma_array251_of_bytes, lemma_array31_of_bytes, lemma_bytes_of_array251, lemma_bytes_of_array31,
    read_array6,
    spec_array251, spec_array31,
};
use crate::device_address::{PublicDeviceAddress, RandomAddress};
use crate::error::Error;
use crate::rssi::Rssi;

verus! {

/// The largest number of reports in a LE Advertising Report event.
pub const LE_ADVERTISING_REPORT_NUM_REPORTS_MAX: u8 = 0x19;

/// The largest number of report bytes that a LE Advertising Report event can hold.
pub const LE_ADVERTISING_REPORT_EVENT_MAX_SIZE: usize = 251;

/// The largest length of the data of a report.
pub const LE_ADVERTISING_REPORT_DATA_MAX_SIZE: usize = 31;

/// Event type contained in a LE Advertising Report event.
///
/// See Core Specification 6.0, Vol.4, Part E, 7.7.65.2.
#[derive(Debug, Clone, Copy, PartialEq, Eq, Structural)]
#[non_exhaustive]
pub enum LeAdvertisingReportEventType {
    /// Connectable and scannable undirected advertising (`ADV_IND`).
    ConnectableUndirected,
    /// Connectable directed advertising (`ADV_DIRECT_IND`).
    ConnectableDirected,
    /// Scannable undirected advertising (`ADV_SCAN_IND`).
    ScannableUndirected,
    /// Non connectable undirected advertising (`ADV_NONCONN_IND`).
    NonConnectableUndirected,
    /// Scan Response (`SCAN_RSP`).
    ScanResponse,
}

impl LeAdvertisingReportEventType {
    /// The value of this variant in HCI packets.
    pub open spec fn spec_to_u8(self) -> u8 {
        match self {
            LeAdvertisingReportEventType::ConnectableUndirected => 0x00,
            LeAdvertisingReportEventType::ConnectableDirected => 0x01,
            LeAdvertisingReportEventType::ScannableUndirected => 0x02,
            LeAdvertisingReportEventType::NonConnectableUndirected => 0x03,
            LeAdvertisingReportEventType::ScanResponse => 0x04,
        }
    }

    /// The values that name a variant.
    pub open spec fn spec_is_valid_u8(v: u8) -> bool {
        v <= 0x04
    }

    /// The variant named by `v`, or the error reporting that `v` names none.
    pub open spec fn spec_try_from_u8(v: u8) -> Result<LeAdvertisingReportEventType, Error> {
        if LeAdvertisingReportEventType::spec_is_valid_u8(v) {
            Ok(choose|e: LeAdvertisingReportEventType| e.spec_to_u8() == v)
        } else {
            Err(Error::InvalidLeAdvertisingReportEventType(v))
        }
    }

    /// The value of this variant in HCI packets.
    pub fn to_u8(self) -> (r: u8)
        ensures
            r == self.spec_to_u8(),
    {
        match self {
            LeAdvertisingReportEventType::ConnectableUndirected => 0x00,
            LeAdvertisingReportEventType::ConnectableDirected => 0x01,
            LeAdvertisingReportEventType::ScannableUndirected => 0x02,
            LeAdvertisingReportEventType::NonConnectableUndirected => 0x03,
            LeAdvertisingReportEventType::ScanResponse => 0x04,
        }
    }

    /// Converts a value of an HCI packet into a variant.
    pub fn try_from_u8(v: u8) -> (r: Result<LeAdvertisingReportEventType, Error>)
        ensures
            r == LeAdvertisingReportEventType::spec_try_from_u8(v),
            r is Ok <==> LeAdvertisingReportEventType::spec_is_valid_u8(v),
            r matches Ok(e) ==> e.spec_to_u8() == v,
            r is Err ==> r == Err::<LeAdvertisingReportEventType, Error>(Error::InvalidLeAdvertisingReportEventType(v)),
    {
        let r = match v {
            0x00 => Ok(LeAdvertisingReportEventType::ConnectableUndirected),
            0x01 => Ok(LeAdvertisingReportEventType::ConnectableDirected),
            0x02 => Ok(LeAdvertisingReportEventType::ScannableUndirected),
            0x03 => Ok(LeAdvertisingReportEventType::NonConnectableUndirected),
            0x04 => Ok(LeAdvertisingReportEventType::ScanResponse),
            _ => Err(Error::InvalidLeAdvertisingReportEventType(v)),
        };
        proof {
            if let Ok(e) = r {
                LeAdvertisingReportEventType::lemma_to_u8_injective(e, choose|d: LeAdvertisingReportEventType| d.spec_to_u8() == v);
            }
        }
        r
    }

    /// Distinct variants have distinct values.
    pub proof fn lemma_to_u8_injective(a: LeAdvertisingReportEventType, b: LeAdvertisingReportEventType)
        ensures
            a.spec_to_u8() == b.spec_to_u8() ==> a == b,
    {
    }

    /// A value that names a variant names a variant with that value.
    pub proof fn lemma_try_from_u8_to_u8(v: u8)
        requires
            LeAdvertisingReportEventType::spec_is_valid_u8(v),
        ensures
            LeAdvertisingReportEventType::spec_try_from_u8(v) is Ok,
            (LeAdvertisingReportEventType::spec_try_from_u8(v)->Ok_0).spec_to_u8() == v,
    {
        if v == 0x00 {
            assert(LeAdvertisingReportEventType::ConnectableUndirected.spec_to_u8() == v);
        } else if v == 0x01 {
            assert(LeAdvertisingReportEventType::ConnectableDirected.spec_to_u8() == v);
        } else if v == 0x02 {
            assert(LeAdvertisingReportEventType::ScannableUndirected.spec_to_u8() == v);
        } else if v == 0x03 {
            assert(LeAdvertisingReportEventType::NonConnectableUndirected.spec_to_u8() == v);
        } else if v == 0x04 {
            assert(LeAdvertisingReportEventType::ScanResponse.spec_to_u8() == v);
        }
    }

    /// Converting the value of a variant gives the variant back.
    pub proof fn lemma_try_from_to_u8(self)
        ensures
            LeAdvertisingReportEventType::spec_try_from_u8(self.spec_to_u8()) == Ok::<LeAdvertisingReportEventType, Error>(self),
    {
        LeAdvertisingReportEventType::lemma_to_u8_injective(self, choose|d: LeAdvertisingReportEventType| d.spec_to_u8() == self.spec_to_u8());
    }
}

impl TryFrom<u8> for LeAdvertisingReportEventType {
    type Error = Error;

    fn try_from(value: u8) -> Result<LeAdvertisingReportEventType, Error> {
        LeAdvertisingReportEventType::try_from_u8(value)
    }
}

impl vstd::std_specs::convert::TryFromSpecImpl<u8> for LeAdvertisingReportEventType {
    open spec fn obeys_try_from_spec() -> bool {
        true
    }

    open spec fn try_from_spec(v: u8) -> Result<LeAdvertisingReportEventType, Error> {
        LeAdvertisingReportEventType::spec_try_from_u8(v)
    }
}

impl From<LeAdvertisingReportEventType> for u8 {
    fn from(value: LeAdvertisingReportEventType) -> u8 {
        value.to_u8()
    }
}

impl vstd::std_specs::convert::FromSpecImpl<LeAdvertisingReportEventType> for u8 {
    open spec fn obeys_from_spec() -> bool {
        true
    }

    open spec fn from_spec(v: LeAdvertisingReportEventType) -> u8 {
        v.spec_to_u8()
    }
}


/// Address contained in a LE Advertising Report event.
///
/// See Core Specification 6.0, Vol.4, Part E, 7.7.65.2.
#[derive(Debug, Clone, Copy, PartialEq, Eq)]
pub enum LeAdvertisingReportAddress {
    PublicDevice(PublicDeviceAddress),
    RandomDevice(RandomAddress),
    PublicIdentity(PublicDeviceAddress),
    RandomIdentity(RandomAddress),
}

impl LeAdvertisingReportAddress {
    /// The six bytes of the address.
    pub open spec fn spec_value(self) -> Seq<u8> {
        match self {
            LeAdvertisingReportAddress::PublicDevice(a) => a.spec_value(),
            LeAdvertisingReportAddress::RandomDevice(a) => a.spec_value(),
            LeAdvertisingReportAddress::PublicIdentity(a) => a.spec_value(),
            LeAdvertisingReportAddress::RandomIdentity(a) => a.spec_value(),
        }
    }

    /// The six bytes of the address.
    pub fn value(&self) -> (r: &[u8; 6])
        ensures
            r@ == self.spec_value(),
    {
        match self {
            LeAdvertisingReportAddress::PublicDevice(a) => a.value(),
            LeAdvertisingReportAddress::RandomDevice(a) => a.value(),
            LeAdvertisingReportAddress::PublicIdentity(a) => a.value(),
            LeAdvertisingReportAddress::RandomIdentity(a) => a.value(),
        }
    }

    /// The address held by seven bytes: a type byte (0 to 3) and six address bytes, which for a
    /// random address follow the rules of their subtype.
    pub open spec fn spec_parse(s: Seq<u8>) -> Option<LeAdvertisingReportAddress> {
        let bytes = s.subrange(1, 7);
        if s.len() != 7 {
            None
        } else if s[0] == 0 {
            Some(LeAdvertisingReportAddress::PublicDevice(PublicDeviceAddress::spec_new(bytes)))
        } else if s[0] == 2 {
            Some(LeAdvertisingReportAddress::PublicIdentity(PublicDeviceAddress::spec_new(bytes)))
        } else if s[0] == 1 {
            match RandomAddress::spec_try_from_bytes(bytes) {
                Ok(a) => Some(LeAdvertisingReportAddress::RandomDevice(a)),
                Err(_) => None,
            }
        } else if s[0] == 3 {
            match RandomAddress::spec_try_from_bytes(bytes) {
                Ok(a) => Some(LeAdvertisingReportAddress::RandomIdentity(a)),
                Err(_) => None,
            }
        } else {
            None
        }
    }

    /// Parses the address stored in the seven bytes at `pos`.
    pub fn parse(input: &[u8], pos: usize) -> (r: Option<LeAdvertisingReportAddress>)
        requires
            pos + 7 <= input@.len(),
        ensures
            r == LeAdvertisingReportAddress::spec_parse(input@.subrange(pos as int, pos + 7)),
    {
        let ghost s = input@.subrange(pos as int, pos + 7);
        let kind = input[pos];
        let bytes = read_array6(input, pos + 1);
        assert(bytes@ =~= s.subrange(1, 7));
        if kind == 0 {
            Some(LeAdvertisingReportAddress::PublicDevice(PublicDeviceAddress::new(bytes)))
        } else if kind == 2 {
            Some(LeAdvertisingReportAddress::PublicIdentity(PublicDeviceAddress::new(bytes)))
        } else if kind == 1 {
            match RandomAddress::try_from_bytes(bytes) {
                Ok(a) => Some(LeAdvertisingReportAddress::RandomDevice(a)),
                Err(_) => None,
            }
        } else if kind == 3 {
            match RandomAddress::try_from_bytes(bytes) {
                Ok(a) => Some(LeAdvertisingReportAddress::RandomIdentity(a)),
                Err(_) => None,
            }
        } else {
            None
        }
    }
}

/// Data contained in a LE Advertising Report event: at most 31 bytes.
///
/// See Core Specification 6.0, Vol.4, Part E, 7.7.65.2.
#[derive(Debug, Clone, Copy, PartialEq, Eq)]
pub struct LeAdvertisingReportData {
    buffer: [u8; 31],
    len: usize,
}

impl LeAdvertisingReportData {
    /// The bytes of the data.
    pub closed spec fn spec_data(self) -> Seq<u8> {
        self.buffer@.subrange(0, self.len as int)
    }

    /// Well-formedness: the data fits, and the unused bytes are zero.
    pub closed spec fn wf(self) -> bool {
        &&& self.len <= 31
        &&& forall|i: int| self.len <= i < 31 ==> self.buffer@[i] == 0
    }

    /// The outcome of `try_from_slice`: data of at most 31 bytes.
    pub open spec fn spec_try_from_slice(s: Seq<u8>) -> Result<LeAdvertisingReportData, Error> {
        if s.len() <= 31 {
            Ok(LeAdvertisingReportData::spec_from_seq(s))
        } else {
            Err(Error::BufferTooSmall)
        }
    }

    /// The data holding the bytes of `s`.
    pub closed spec fn spec_from_seq(s: Seq<u8>) -> LeAdvertisingReportData {
        LeAdvertisingReportData {
            buffer: spec_array31(Seq::new(31, |i: int| if i < s.len() { s[i] } else { 0u8 })),
            len: s.len() as usize,
        }
    }

    /// Creates data from at most 31 bytes.
    pub fn try_from_slice(data: &[u8]) -> (r: Result<LeAdvertisingReportData, Error>)
        ensures
            r == LeAdvertisingReportData::spec_try_from_slice(data@),
            r matches Ok(d) ==> d.spec_data() == data@ && d.wf(),
    {
        if data.len() > 31 {
            return Err(Error::BufferTooSmall);
        }
        let mut buffer = [0u8; 31];
        let mut i: usize = 0;
        while i < data.len()
            invariant
                data@.len() <= 31,
                i <= data@.len(),
                buffer@.len() == 31,
                forall|j: int| 0 <= j < i ==> buffer@[j] == data@[j],
                forall|j: int| i <= j < 31 ==> buffer@[j] == 0,
            decreases data@.len() - i,
        {
            buffer[i] = data[i];
            i += 1;
        }
        let r = LeAdvertisingReportData { buffer, len: data.len() };
        proof {
            assert(buffer@ =~= Seq::new(31, |i: int| if i < data@.len() { data@[i] } else { 0u8 }));
            lemma_array31_of_bytes(buffer);
            assert(r.spec_data() =~= data@);
        }
        Ok(r)
    }

    /// The bytes of the data.
    pub fn data(&self) -> (r: &[u8])
        requires
            self.wf(),
        ensures
            r@ == self.spec_data(),
    {
        vstd::slice::slice_subrange(self.buffer.as_slice(), 0, self.len)
    }

    /// The number of bytes of the data.
    pub fn len(&self) -> (r: usize)
        requires
            self.wf(),
        ensures
            r == self.spec_data().len(),
    {
        self.len
    }
}

impl Default for LeAdvertisingReportData {
    fn default() -> (r: LeAdvertisingReportData)
        ensures
            r.spec_data() == Seq::<u8>::empty(),
            r.wf(),
    {
        let r = LeAdvertisingReportData { buffer: [0u8; 31], len: 0 };
        assert(r.spec_data() =~= Seq::<u8>::empty());
        r
    }
}

impl AdvertisingData {
    /// The advertising data holding the data of a report.
    pub open spec fn spec_from_report_data(data: LeAdvertisingReportData) -> AdvertisingData {
        AdvertisingData::spec_try_from_parts(
            data.spec_data().len() as u8,
            Seq::new(31, |i: int| if i < data.spec_data().len() { data.spec_data()[i] } else { 0u8 }),
        )->Ok_0
    }

    /// The advertising data holding the data of a report.
    pub fn from_report_data(data: &LeAdvertisingReportData) -> (r: AdvertisingData)
        requires
            data.wf(),
        ensures
            r == AdvertisingData::spec_from_report_data(*data),
            r.wf(),
            r.spec_data() == seq![data.spec_data().len() as u8] + data.spec_data(),
    {
        let bytes = data.data();
        let mut value = [0u8; 31];
        let mut i: usize = 0;
        while i < bytes.len()
            invariant
                bytes@.len() <= 31,
                i <= bytes@.len(),
                value@.len() == 31,
                forall|j: int| 0 <= j < i ==> value@[j] == bytes@[j],
                forall|j: int| i <= j < 31 ==> value@[j] == 0,
            decreases bytes@.len() - i,
        {
            value[i] = bytes[i];
            i += 1;
        }
        let len = bytes.len() as u8;
        match AdvertisingData::try_from_parts(len, value) {
            Ok(d) => {
                assert(value@.subrange(0, len as int) =~= bytes@);
                assert(value@ =~= Seq::new(31, |i: int| if i < data.spec_data().len() { data.spec_data()[i] } else { 0u8 }));
                d
            },
            Err(_) => {
                proof {
                    assert(false);
                }
                AdvertisingData::default()
            },
        }
    }
}

/// A single report contained in a LE Advertising Report event.
///
/// See Core Specification 6.0, Vol.4, Part E, 7.7.65.2.
#[derive(Debug, Clone, Copy, PartialEq, Eq)]
pub struct LeAdvertisingReport {
    event_type: LeAdvertisingReportEventType,
    address: LeAdvertisingReportAddress,
    data: LeAdvertisingReportData,
    rssi: Option<Rssi>,
}

impl LeAdvertisingReport {
    /// The event type.
    pub closed spec fn spec_event_type(self) -> LeAdvertisingReportEventType {
        self.event_type
    }

    /// The address of the advertiser.
    pub closed spec fn spec_address(self) -> LeAdvertisingReportAddress {
        self.address
    }

    /// The advertising data.
    pub closed spec fn spec_data(self) -> LeAdvertisingReportData {
        self.data
    }

    /// The RSSI, where it is known.
    pub closed spec fn spec_rssi(self) -> Option<Rssi> {
        self.rssi
    }

    /// The report with the given fields.
    pub closed spec fn spec_new(
        event_type: LeAdvertisingReportEventType,
        address: LeAdvertisingReportAddress,
        data: LeAdvertisingReportData,
        rssi: Option<Rssi>,
    ) -> LeAdvertisingReport {
        LeAdvertisingReport { event_type, address, data, rssi }
    }

    /// Creates a report.
    pub fn new(
        event_type: LeAdvertisingReportEventType,
        address: LeAdvertisingReportAddress,
        data: LeAdvertisingReportData,
        rssi: Option<Rssi>,
    ) -> (r: LeAdvertisingReport)
        ensures
            r == LeAdvertisingReport::spec_new(event_type, address, data, rssi),
            r.spec_event_type() == event_type,
            r.spec_address() == address,
            r.spec_data() == data,
            r.spec_rssi() == rssi,
    {
        LeAdvertisingReport { event_type, address, data, rssi }
    }

    /// The address of the advertiser.
    pub fn address(&self) -> (r: &LeAdvertisingReportAddress)
        ensures
            *r == self.spec_address(),
    {
        &self.address
    }

    /// The advertising data.
    pub fn data(&self) -> (r: &LeAdvertisingReportData)
        ensures
            *r == self.spec_data(),
    {
        &self.data
    }

    /// The event type.
    pub fn event_type(&self) -> (r: LeAdvertisingReportEventType)
        ensures
            r == self.spec_event_type(),
    {
        self.event_type
    }

    /// The RSSI, where it is known.
    pub fn rssi(&self) -> (r: Option<Rssi>)
        ensures
            r == self.spec_rssi(),
    {
        self.rssi
    }

    /// The RSSI carried by a byte: 0x7F where it is not known, else a valid RSSI.
    pub open spec fn spec_parse_rssi(b: u8) -> Option<Option<Rssi>> {
        if b == 0x7F {
            Some(None)
        } else if Rssi::spec_try_new(b as i8) is Ok {
            Some(Some(Rssi::spec_try_new(b as i8)->Ok_0))
        } else {
            None
        }
    }

    /// The outcome of parsing a report at the start of `s`: the event type, the address, the data
    /// length and at most 31 data bytes, then the RSSI. The result holds the number of bytes read
    /// and the report.
    pub open spec fn spec_parse(s: Seq<u8>) -> Option<(nat, LeAdvertisingReport)> {
        if s.len() < 9 || s.len() < 10 + s[8] || s[8] > 31 {
            None
        } else {
            let event_type = LeAdvertisingReportEventType::spec_try_from_u8(s[0]);
            let address = LeAdvertisingReportAddress::spec_parse(s.subrange(1, 8));
            let data = LeAdvertisingReportData::spec_from_seq(s.subrange(9, 9 + s[8]));
            let rssi = LeAdvertisingReport::spec_parse_rssi(s[9 + s[8]]);
            if event_type is Ok && address is Some && rssi is Some {
                Some(
                    (
                        (10 + s[8]) as nat,
                        LeAdvertisingReport::spec_new(
                            event_type->Ok_0,
                            address->Some_0,
                            data,
                            rssi->Some_0,
                        ),
                    ),
                )
            } else {
                None
            }
        }
    }

    /// Parses a report at the start of `input`.
    pub fn parse(input: &[u8]) -> (r: Option<(usize, LeAdvertisingReport)>)
        ensures
            r matches Some((n, p)) ==> LeAdvertisingReport::spec_parse(input@) == Some((n as nat, p)),
            r is None ==> LeAdvertisingReport::spec_parse(input@) is None,
    {
        if input.len() < 9 {
            return None;
        }
        let len = input[8] as usize;
        if input.len() < 10 || input.len() - 10 < len || len > 31 {
            return None;
        }
        let event_type = match LeAdvertisingReportEventType::try_from_u8(input[0]) {
            Ok(v) => v,
            Err(_) => return None,
        };
        let address = match LeAdvertisingReportAddress::parse(input, 1) {
            Some(v) => v,
            None => return None,
        };
        let data = match LeAdvertisingReportData::try_from_slice(
            vstd::slice::slice_subrange(input, 9, 9 + len),
        ) {
            Ok(v) => v,
            Err(_) => return None,
        };
        let b = input[9 + len];
        let rssi = if b == 0x7F {
            None
        } else {
            match Rssi::try_new(#[verifier::truncate] (b as i8)) {
                Ok(v) => Some(v),
                Err(_) => return None,
            }
        };
        Some((10 + len, LeAdvertisingReport { event_type, address, data, rssi }))
    }
}

/// The outcome of parsing `n` reports that fill `s` exactly.
pub open spec fn spec_parse_reports(s: Seq<u8>, n: nat) -> Option<Seq<LeAdvertisingReport>>
    decreases n,
{
    if n == 0 {
        if s.len() == 0 {
            Some(Seq::empty())
        } else {
            None
        }
    } else {
        match LeAdvertisingReport::spec_parse(s) {
            Some((k, report)) => match spec_parse_reports(s.subrange(k as int, s.len() as int), (n - 1) as nat) {
                Some(rest) => Some(seq![report] + rest),
                None => None,
            },
            None => None,
        }
    }
}

/// Parses `n` reports that fill `input` exactly.
pub fn parse_reports(input: &[u8], n: u8) -> (r: Option<Vec<LeAdvertisingReport>>)
    ensures
        r matches Some(v) ==> spec_parse_reports(input@, n as nat) == Some(v@),
        r is None ==> spec_parse_reports(input@, n as nat) is None,
{
    let mut reports: Vec<LeAdvertisingReport> = Vec::new();
    let mut pos: usize = 0;
    let mut i: u8 = 0;
    proof {
        assert(input@.subrange(0, input@.len() as int) =~= input@);
        if let Some(t) = spec_parse_reports(input@, n as nat) {
            assert(reports@ + t =~= t);
        }
    }
    while i < n
        invariant
            i <= n,
            pos <= input@.len(),
            spec_parse_reports(input@, n as nat) == match spec_parse_reports(
                input@.subrange(pos as int, input@.len() as int),
                (n - i) as nat,
            ) {
                Some(rest) => Some(reports@ + rest),
                None => None::<Seq<LeAdvertisingReport>>,
            },
        decreases n - i,
    {
        let rest = vstd::slice::slice_subrange(input, pos, input.len());
        match LeAdvertisingReport::parse(rest) {
            Some((k, report)) => {
                proof {
                    let s = input@.subrange(pos as int, input@.len() as int);
                    assert(rest@ == s);
                    assert(s.subrange(k as int, s.len() as int) =~= input@.subrange(
                        pos + k,
                        input@.len() as int,
                    ));
                    let tail = spec_parse_reports(
                        input@.subrange(pos + k, input@.len() as int),
                        (n - i - 1) as nat,
                    );
                    if let Some(t) = tail {
                        assert(reports@ + (seq![report] + t) =~= reports@.push(report) + t);
                    }
                }
                reports.push(report);
                pos = pos + k;
                i = i + 1;
            },
            None => {
                return None;
            },
        }
    }
    if pos == input.len() {
        proof {
            assert(input@.subrange(pos as int, input@.len() as int) =~= Seq::<u8>::empty());
            assert(reports@ + Seq::<LeAdvertisingReport>::empty() =~= reports@);
        }
        Some(reports)
    } else {
        None
    }
}

/// List of all the reports contained in a LE Advertising Report event: the number of reports and
/// the bytes that hold them.
///
/// See Core Specification 6.0, Vol.4, Part E, 7.7.65.2.
#[derive(Debug, Clone, Copy, PartialEq, Eq)]
pub struct LeAdvertisingReportList {
    data: [u8; 251],
    len: usize,
    num_reports: u8,
}

impl LeAdvertisingReportList {
    /// The bytes that hold the reports.
    pub closed spec fn spec_bytes(&self) -> Seq<u8> {
        self.data@.subrange(0, self.len as int)
    }

    /// The number of reports.
    pub closed spec fn spec_num_reports(&self) -> u8 {
        self.num_reports
    }

    /// Whether the bytes in use fit in the buffer.
    pub closed spec fn spec_fits(&self) -> bool {
        self.len <= LE_ADVERTISING_REPORT_EVENT_MAX_SIZE
    }

    /// Well-formedness: 1 to 25 reports, which fill the bytes exactly, no more than 251 of them.
    pub open spec fn wf(&self) -> bool {
        &&& 1 <= self.spec_num_reports() <= LE_ADVERTISING_REPORT_NUM_REPORTS_MAX
        &&& self.spec_fits()
        &&& spec_parse_reports(self.spec_bytes(), self.spec_num_reports() as nat) is Some
    }

    /// The reports of the list.
    pub open spec fn spec_reports(&self) -> Seq<LeAdvertisingReport> {
        spec_parse_reports(self.spec_bytes(), self.spec_num_reports() as nat)->Some_0
    }

    /// The list of `num_reports` reports held by `bytes`, the unused bytes zero.
    pub closed spec fn spec_new(num_reports: u8, bytes: Seq<u8>) -> LeAdvertisingReportList {
        LeAdvertisingReportList {
            data: spec_array251(Seq::new(251, |i: int| if i < bytes.len() { bytes[i] } else { 0u8 })),
            len: bytes.len() as usize,
            num_reports,
        }
    }

    /// The list holds the bytes and the number it was made with.
    pub proof fn lemma_spec_new(num_reports: u8, bytes: Seq<u8>)
        requires
            bytes.len() <= LE_ADVERTISING_REPORT_EVENT_MAX_SIZE,
        ensures
            LeAdvertisingReportList::spec_new(num_reports, bytes).spec_bytes() == bytes,
            LeAdvertisingReportList::spec_new(num_reports, bytes).spec_num_reports() == num_reports,
            LeAdvertisingReportList::spec_new(num_reports, bytes).spec_fits(),
    {
        let t = Seq::new(251, |i: int| if i < bytes.len() { bytes[i] } else { 0u8 });
        lemma_bytes_of_array251(t);
        assert(t.subrange(0, bytes.len() as int) =~= bytes);
    }

    /// Creates the list of `num_reports` reports held by `data`, checking them.
    pub fn try_new(num_reports: u8, data: &[u8]) -> (r: Option<LeAdvertisingReportList>)
        ensures
            r is Some <==> 1 <= num_reports <= LE_ADVERTISING_REPORT_NUM_REPORTS_MAX
                && data@.len() <= LE_ADVERTISING_REPORT_EVENT_MAX_SIZE && spec_parse_reports(
                data@,
                num_reports as nat,
            ) is Some,
            r matches Some(l) ==> l == LeAdvertisingReportList::spec_new(num_reports, data@)
                && l.wf(),
    {
        if num_reports < 1 || num_reports > LE_ADVERTISING_REPORT_NUM_REPORTS_MAX || data.len()
            > LE_ADVERTISING_REPORT_EVENT_MAX_SIZE {
            return None;
        }
        match parse_reports(data, num_reports) {
            Some(_) => {},
            None => return None,
        }
        let mut buffer = [0u8; 251];
        let mut i: usize = 0;
        while i < data.len()
            invariant
                data@.len() <= 251,
                i <= data@.len(),
                buffer@.len() == 251,
                forall|j: int| 0 <= j < i ==> buffer@[j] == data@[j],
                forall|j: int| i <= j < 251 ==> buffer@[j] == 0,
            decreases data@.len() - i,
        {
            buffer[i] = data[i];
            i += 1;
        }
        let r = LeAdvertisingReportList { data: buffer, len: data.len(), num_reports };
        proof {
            assert(buffer@ =~= Seq::new(251, |i: int| if i < data@.len() { data@[i] } else { 0u8 }));
            lemma_array251_of_bytes(buffer);
            assert(r.spec_bytes() =~= data@);
        }
        Some(r)
    }

    /// The number of reports.
    pub fn len(&self) -> (r: usize)
        ensures
            r == self.spec_num_reports(),
    {
        self.num_reports as usize
    }

    /// Walks the reports of the list, in order.
    pub fn iter(&self) -> (r: LeAdvertisingReportListIterator)
        requires
            self.wf(),
        ensures
            r.wf(),
            r.spec_remaining() == self.spec_reports(),
    {
        let r = LeAdvertisingReportListIterator {
            data: self.data,
            len: self.len,
            next_index: 0,
            remaining: self.num_reports,
        };
        assert(r.spec_rest() =~= self.spec_bytes());
        r
    }

    /// The reports of the list, in order.
    pub fn reports(&self) -> (r: Vec<LeAdvertisingReport>)
        requires
            self.wf(),
        ensures
            r@ == self.spec_reports(),
    {
        let bytes = vstd::slice::slice_subrange(self.data.as_slice(), 0, self.len);
        match parse_reports(bytes, self.num_reports) {
            Some(v) => v,
            None => {
                proof {
                    assert(false);
                }
                Vec::new()
            },
        }
    }

    /// Whether the parameters of a LE Advertising Report event hold a valid list of reports: the
    /// number of reports (1 to 25), then the reports, which fill the rest.
    pub open spec fn spec_is_valid(s: Seq<u8>) -> bool {
        &&& s.len() >= 1
        &&& 1 <= s[0] <= LE_ADVERTISING_REPORT_NUM_REPORTS_MAX
        &&& spec_parse_reports(s.drop_first(), s[0] as nat) is Some
    }

    /// The outcome of parsing the parameters of a LE Advertising Report event.
    pub open spec fn spec_parse(s: Seq<u8>) -> Option<LeAdvertisingReportList> {
        if LeAdvertisingReportList::spec_is_valid(s) {
            Some(LeAdvertisingReportList::spec_new(s[0], s.drop_first()))
        } else {
            None
        }
    }

    /// Parses the parameters of a LE Advertising Report event; valid reports holding more than
    /// 251 bytes cannot be stored.
    pub fn parse(input: &[u8]) -> (r: Option<LeAdvertisingReportList>)
        requires
            LeAdvertisingReportList::spec_is_valid(input@) ==> input@.len() - 1
                <= LE_ADVERTISING_REPORT_EVENT_MAX_SIZE,
        ensures
            r == LeAdvertisingReportList::spec_parse(input@),
            r matches Some(l) ==> l.wf(),
    {
        if input.len() < 1 {
            return None;
        }
        let rest = vstd::slice::slice_subrange(input, 1, input.len());
        assert(rest@ =~= input@.drop_first());
        if input[0] < 1 || input[0] > LE_ADVERTISING_REPORT_NUM_REPORTS_MAX {
            return None;
        }
        if rest.len() > LE_ADVERTISING_REPORT_EVENT_MAX_SIZE {
            match parse_reports(rest, input[0]) {
                Some(_) => {
                    proof {
                        assert(false);
                    }
                },
                None => {},
            }
            return None;
        }
        LeAdvertisingReportList::try_new(input[0], rest)
    }
}
/// Walks the reports of a list, in order.
#[derive(Debug, Clone, Copy)]
pub struct LeAdvertisingReportListIterator {
    data: [u8; 251],
    len: usize,
    next_index: usize,
    remaining: u8,
}

impl LeAdvertisingReportListIterator {
    /// The bytes of the reports not walked yet.
    pub closed spec fn spec_rest(&self) -> Seq<u8> {
        self.data@.subrange(self.next_index as int, self.len as int)
    }

    /// Well-formedness: the bytes not walked yet hold the reports left.
    pub closed spec fn wf(&self) -> bool {
        &&& self.next_index <= self.len <= LE_ADVERTISING_REPORT_EVENT_MAX_SIZE
        &&& spec_parse_reports(self.spec_rest(), self.remaining as nat) is Some
    }

    /// The reports not walked yet, in order.
    pub closed spec fn spec_remaining(&self) -> Seq<LeAdvertisingReport> {
        spec_parse_reports(self.spec_rest(), self.remaining as nat)->Some_0
    }

    /// The next report, if any is left.
    pub fn next(&mut self) -> (r: Option<LeAdvertisingReport>)
        requires
            old(self).wf(),
        ensures
            final(self).wf(),
            old(self).spec_remaining().len() == 0 ==> r is None && final(self).spec_remaining()
                == old(self).spec_remaining(),
            old(self).spec_remaining().len() > 0 ==> r == Some(old(self).spec_remaining()[0])
                && final(self).spec_remaining() == old(self).spec_remaining().drop_first(),
    {
        proof {
            lemma_parse_reports_len(self.spec_rest(), self.remaining as nat);
        }
        if self.next_index >= self.len {
            return None;
        }
        let rest = vstd::slice::slice_subrange(self.data.as_slice(), self.next_index, self.len);
        match LeAdvertisingReport::parse(rest) {
            Some((k, report)) => {
                proof {
                    let s = self.spec_rest();
                    assert(rest@ == s);
                    assert(s.subrange(k as int, s.len() as int) =~= self.data@.subrange(
                        self.next_index + k,
                        self.len as int,
                    ));
                }
                self.next_index = self.next_index + k;
                self.remaining = self.remaining - 1;
                Some(report)
            },
            None => {
                proof {
                    assert(false);
                }
                None
            },
        }
    }
}

/// Reports that fill some bytes are as many as required, and no report fills no byte.
pub proof fn lemma_parse_reports_len(s: Seq<u8>, n: nat)
    requires
        spec_parse_reports(s, n) is Some,
    ensures
        spec_parse_reports(s, n)->Some_0.len() == n,
        (n == 0) == (s.len() == 0),
    decreases n,
{
    if n > 0 {
        let (k, _) = LeAdvertisingReport::spec_parse(s)->Some_0;
        lemma_parse_reports_len(s.subrange(k as int, s.len() as int), (n - 1) as nat);
    }
}


impl LeAdvertisingReportEventType {
    /// The value of each variant in HCI packets, and the variant each value names.
    pub proof fn lemma_values()
        ensures
            LeAdvertisingReportEventType::ConnectableUndirected.spec_to_u8() == 0x00,
            LeAdvertisingReportEventType::spec_try_from_u8(0x00) == Ok::<LeAdvertisingReportEventType, Error>(LeAdvertisingReportEventType::ConnectableUndirected),
            LeAdvertisingReportEventType::ConnectableDirected.spec_to_u8() == 0x01,
            LeAdvertisingReportEventType::spec_try_from_u8(0x01) == Ok::<LeAdvertisingReportEventType, Error>(LeAdvertisingReportEventType::ConnectableDirected),
            LeAdvertisingReportEventType::ScannableUndirected.spec_to_u8() == 0x02,
            LeAdvertisingReportEventType::spec_try_from_u8(0x02) == Ok::<LeAdvertisingReportEventType, Error>(LeAdvertisingReportEventType::ScannableUndirected),
            LeAdvertisingReportEventType::NonConnectableUndirected.spec_to_u8() == 0x03,
            LeAdvertisingReportEventType::spec_try_from_u8(0x03) == Ok::<LeAdvertisingReportEventType, Error>(LeAdvertisingReportEventType::NonConnectableUndirected),
            LeAdvertisingReportEventType::ScanResponse.spec_to_u8() == 0x04,
            LeAdvertisingReportEventType::spec_try_from_u8(0x04) == Ok::<LeAdvertisingReportEventType, Error>(LeAdvertisingReportEventType::ScanResponse),
    {
        LeAdvertisingReportEventType::ConnectableUndirected.lemma_try_from_to_u8();
        LeAdvertisingReportEventType::ConnectableDirected.lemma_try_from_to_u8();
        LeAdvertisingReportEventType::ScannableUndirected.lemma_try_from_to_u8();
        LeAdvertisingReportEventType::NonConnectableUndirected.lemma_try_from_to_u8();
        LeAdvertisingReportEventType::ScanResponse.lemma_try_from_to_u8();
    }
}

impl LeAdvertisingReport {
    /// The RSSI byte of a report: 0x7F for an unknown RSSI, else a signed value read exactly when it
    /// is an RSSI of -127 to 20 dBm.
    pub proof fn lemma_rssi_byte(b: u8)
        ensures
            LeAdvertisingReport::spec_parse_rssi(b) == Some(None::<Rssi>) <==> b == 0x7F,
            LeAdvertisingReport::spec_parse_rssi(b) is Some <==> (b == 0x7F || b <= 20 || b >= 129),
            LeAdvertisingReport::spec_parse_rssi(b) matches Some(Some(r)) ==> r.spec_value() as int
                == crate::event::command_complete::spec_signed(b),
    {
        assert((b as i8) as int == crate::event::command_complete::spec_signed(b)) by (bit_vector);
        Rssi::lemma_spec_try_new_value(b as i8);
    }

    /// A report at the start of some bytes is read exactly when the event type (0 to 4), the
    /// address, a data length of at most 31 with that many data bytes, and the RSSI byte are valid;
    /// it then reads 10 bytes plus the data length, and the report holds those values.
    pub proof fn lemma_parse_fields(s: Seq<u8>)
        ensures
            LeAdvertisingReport::spec_parse(s) is Some <==> {
                &&& s.len() >= 9
                &&& s[8] <= 31
                &&& s.len() >= 10 + s[8]
                &&& s[0] <= 4
                &&& LeAdvertisingReportAddress::spec_parse(s.subrange(1, 8)) is Some
                &&& LeAdvertisingReport::spec_parse_rssi(s[9 + s[8]]) is Some
            },
            LeAdvertisingReport::spec_parse(s) matches Some((n, r)) ==> {
                &&& n == 10 + s[8]
                &&& r.spec_event_type().spec_to_u8() == s[0]
                &&& r.spec_address() == LeAdvertisingReportAddress::spec_parse(s.subrange(1, 8))->Some_0
                &&& r.spec_data().spec_data() == s.subrange(9, 9 + s[8])
                &&& r.spec_rssi() == LeAdvertisingReport::spec_parse_rssi(s[9 + s[8]])->Some_0
            },
    {
        if s.len() >= 9 && s[8] <= 31 && s.len() >= 10 + s[8] {
            if s[0] <= 4 {
                LeAdvertisingReportEventType::lemma_try_from_u8_to_u8(s[0]);
            }
            LeAdvertisingReportData::lemma_spec_from_seq(s.subrange(9, 9 + s[8]));
        }
    }
}

impl LeAdvertisingReportData {
    /// The data made of at most 31 bytes holds those bytes.
    pub proof fn lemma_spec_from_seq(d: Seq<u8>)
        requires
            d.len() <= 31,
        ensures
            LeAdvertisingReportData::spec_from_seq(d).spec_data() == d,
            LeAdvertisingReportData::spec_from_seq(d).wf(),
    {
        let t = Seq::new(31, |i: int| if i < d.len() { d[i] } else { 0u8 });
        lemma_bytes_of_array31(t);
        assert(t.subrange(0, d.len() as int) =~= d);
    }
}


} // verus!
