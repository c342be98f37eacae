//! LE Meta events.
use vstd::prelude::*;

use crate::event::le_advertising_report::{LeAdvertisingReportList, LE_ADVERTISING_REPORT_EVENT_MAX_SIZE};
use crate::event::le_connection_complete::LeConnectionCompleteEvent;
use crate::event::le_connection_update_complete::LeConnectionUpdateCompleteEvent;

verus! {

/// Subevent code of a LE Connection Complete event.
pub const LE_CONNECTION_COMPLETE_CODE: u8 = 0x01;

/// Subevent code of a LE Advertising Report event.
pub const LE_ADVERTISING_REPORT_CODE: u8 = 0x02;

/// Subevent code of a LE Connection Update Complete event.
pub const LE_CONNECTION_UPDATE_COMPLETE_CODE: u8 = 0x03;

/// An LE Meta event, by its subevent; the subevents that this library does not read are kept by
/// their code.
///
/// See Core Specification 6.0, Vol.4, Part E, 7.7.65.
#[derive(Debug, Clone, Copy, PartialEq, Eq)]
pub enum LeMetaEvent {
    LeConnectionComplete(LeConnectionCompleteEvent),
    LeAdvertisingReport(LeAdvertisingReportList),
    LeConnectionUpdateComplete(LeConnectionUpdateCompleteEvent),
    Unsupported(u8),
}

impl LeMetaEvent {
    /// Whether parsing the parameters would meet valid advertising reports too long to be stored.
    pub open spec fn spec_overflows(s: Seq<u8>) -> bool {
        &&& s.len() >= 1
        &&& s[0] == LE_ADVERTISING_REPORT_CODE
        &&& LeAdvertisingReportList::spec_is_valid(s.drop_first())
        &&& s.len() - 2 > LE_ADVERTISING_REPORT_EVENT_MAX_SIZE
    }

    /// The outcome of parsing the parameters of an LE Meta event: the subevent code, then the
    /// parameters of the subevent; those of a subevent that this library does not read are
    /// ignored.
    pub open spec fn spec_parse(s: Seq<u8>) -> Option<LeMetaEvent> {
        if s.len() < 1 {
            None
        } else {
            let p = s.drop_first();
            if s[0] == LE_CONNECTION_COMPLETE_CODE {
                match LeConnectionCompleteEvent::spec_parse(p) {
                    Some(e) => Some(LeMetaEvent::LeConnectionComplete(e)),
                    None => None,
                }
            } else if s[0] == LE_ADVERTISING_REPORT_CODE {
                match LeAdvertisingReportList::spec_parse(p) {
                    Some(l) => Some(LeMetaEvent::LeAdvertisingReport(l)),
                    None => None,
                }
            } else if s[0] == LE_CONNECTION_UPDATE_COMPLETE_CODE {
                match LeConnectionUpdateCompleteEvent::spec_parse(p) {
                    Some(e) => Some(LeMetaEvent::LeConnectionUpdateComplete(e)),
                    None => None,
                }
            } else {
                Some(LeMetaEvent::Unsupported(s[0]))
            }
        }
    }

    /// Parses the parameters of an LE Meta event.
    pub fn parse(input: &[u8]) -> (r: Option<LeMetaEvent>)
        requires
            !LeMetaEvent::spec_overflows(input@),
        ensures
            r == LeMetaEvent::spec_parse(input@),
    {
        if input.len() < 1 {
            return None;
        }
        let p = vstd::slice::slice_subrange(input, 1, input.len());
        assert(p@ =~= input@.drop_first());
        let code = input[0];
        if code == LE_CONNECTION_COMPLETE_CODE {
            match LeConnectionCompleteEvent::parse(p) {
                Some(e) => Some(LeMetaEvent::LeConnectionComplete(e)),
                None => None,
            }
        } else if code == LE_ADVERTISING_REPORT_CODE {
            match LeAdvertisingReportList::parse(p) {
                Some(l) => Some(LeMetaEvent::LeAdvertisingReport(l)),
                None => None,
            }
        } else if code == LE_CONNECTION_UPDATE_COMPLETE_CODE {
            match LeConnectionUpdateCompleteEvent::parse(p) {
                Some(e) => Some(LeMetaEvent::LeConnectionUpdateComplete(e)),
                None => None,
            }
        } else {
            Some(LeMetaEvent::Unsupported(code))
        }
    }
}

} // verus!
