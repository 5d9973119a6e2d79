//! Decoding of Axioline fault-code pairs into diagnostic text.

use vstd::prelude::*;

use crate::error::{ErrorKind, PlcnextError};
use crate::fault_table::{error_text, error_text_of, info_text, info_text_of, remedy_text, remedy_text_of};

verus! {

/// The text produced when no table has anything to say about a fault.
pub const NO_INFORMATION: &'static str = "No information on the cause of the error.";

/// The error code that reports success.
pub const SUCCESS: u16 = 0;

/// Upper-case hexadecimal digit of `n` (0 to 15).
pub open spec fn hex_digit(n: int) -> char
    recommends
        0 <= n < 16,
{
    seq!['0', '1', '2', '3', '4', '5', '6', '7', '8', '9', 'A', 'B', 'C', 'D', 'E', 'F'][n]
}

/// Four upper-case hexadecimal digits of `v`.
pub open spec fn hex4(v: u16) -> Seq<char> {
    seq![
        hex_digit(v as int / 4096),
        hex_digit(v as int / 256 % 16),
        hex_digit(v as int / 16 % 16),
        hex_digit(v as int % 16),
    ]
}

/// Two upper-case hexadecimal digits of `v` (0 to 255).
pub open spec fn hex2(v: int) -> Seq<char> {
    seq![hex_digit(v / 16 % 16), hex_digit(v % 16)]
}

/// The label that precedes the value of `add_info` for the codes that give
/// `add_info` a meaning of their own.
pub open spec fn detail_label_of(code: u16) -> Option<Seq<char>> {
    match code {
        0x0908 | 0x0913 | 0x0917 | 0x0A08 => Some("Code of failed service: 0x"@),
        0x090A => Some("Value transmitted in Parameter_Count: 0x"@),
        0x0918 => Some("Code of the unknown service: 0x"@),
        0x0937 => Some("Faulty Variable_ID: 0x"@),
        0x0938 => Some("Reserved Variable_ID: 0x"@),
        0x0939 => Some("Variable_ID not enabled: 0x"@),
        0x093A => Some("Incorrect Variable_ID: 0x"@),
        0x093B => Some("Incorrect Variable_Count: 0x"@),
        0x0A02 => Some("Current status of the local bus master: 0x"@),
        0x0A0C => Some("Unknown Variable_ID: 0x"@),
        0x0A18 => Some("Invalid Used_Attributes parameter: 0x"@),
        0x0A19 => Some("Number of bus devices: 0x"@),
        0x0A1A => Some("Invalid Frame_Reference (if specified): 0x"@),
        0x0A1C => Some("Number of connected devices: 0x"@),
        0x0A73 | 0x0A74 | 0x0A75 | 0x0A76 | 0x0A77 | 0x0A90 | 0x0A91 | 0x0A92 | 0x0A93
        | 0x0A94 => Some("Device number: 0x"@),
        0x0A81 | 0x0A82 | 0x0A83 => Some("Object index: 0x"@),
        0x0C01 | 0x0C02 | 0x0C11 | 0x0C12 | 0x0C13 | 0x0C14 | 0x0C15 => Some(
            "Device number: 0x"@,
        ),
        0x0F05 | 0x0F06 | 0x0F08 => Some("PDI object index: 0x"@),
        0x0F0C => Some("Unknown Variable_ID: 0x"@),
        0x0F21 | 0x0F22 => Some("Invalid device number: 0x"@),
        0x0F23 => Some("Invalid data length: 0x"@),
        0x0F24 => Some("Invalid number of parameters: 0x"@),
        _ => None,
    }
}

/// The code whose `add_info` splits into a selector (low byte) and a count (high byte).
pub const PARAMETERIZATION_ERROR: u16 = 0x0800;

/// The low-byte selector under which the high byte of `add_info` counts affected elements.
pub const AFFECTED_ELEMENTS: u16 = 0x30;

/// The contextual detail for a fault: the code-specific reading of `add_info`
/// where there is one, else the generic meaning of `add_info`.
pub open spec fn detail_of(code: u16, info: u16) -> Option<Seq<char>> {
    if code == PARAMETERIZATION_ERROR && info % 256 == AFFECTED_ELEMENTS {
        Some("Number of the affected elements: 0x"@ + hex2(info as int / 256))
    } else if code == PARAMETERIZATION_ERROR {
        info_text_of(info)
    } else {
        match detail_label_of(code) {
            Some(label) => Some(label + hex4(info)),
            None => info_text_of(info),
        }
    }
}

/// Appends `next` to the text built so far, with a single space between parts.
pub open spec fn join_part(acc: Option<Seq<char>>, next: Option<Seq<char>>) -> Option<Seq<char>> {
    match acc {
        None => next,
        Some(a) => match next {
            None => Some(a),
            Some(b) => Some(a + " "@ + b),
        },
    }
}

/// The diagnostic message of a fault: description, detail and remedy, joined
/// by single spaces; the fixed "no information" text where all three are absent.
pub open spec fn message_of(code: u16, info: u16) -> Seq<char> {
    match join_part(join_part(error_text_of(code), detail_of(code, info)), remedy_text_of(code)) {
        Some(m) => m,
        None => NO_INFORMATION@,
    }
}

fn hex_digit_text(n: u16) -> (r: &'static str)
    requires
        n < 16,
    ensures
        r@ == seq![hex_digit(n as int)],
{
    let r = match n {
        0 => "0",
        1 => "1",
        2 => "2",
        3 => "3",
        4 => "4",
        5 => "5",
        6 => "6",
        7 => "7",
        8 => "8",
        9 => "9",
        10 => "A",
        11 => "B",
        12 => "C",
        13 => "D",
        14 => "E",
        _ => "F",
    };
    proof {
        reveal_strlit("0");
        reveal_strlit("1");
        reveal_strlit("2");
        reveal_strlit("3");
        reveal_strlit("4");
        reveal_strlit("5");
        reveal_strlit("6");
        reveal_strlit("7");
        reveal_strlit("8");
        reveal_strlit("9");
        reveal_strlit("A");
        reveal_strlit("B");
        reveal_strlit("C");
        reveal_strlit("D");
        reveal_strlit("E");
        reveal_strlit("F");
    }
    r
}

/// Four upper-case hexadecimal digits of `v`.
pub fn format_hex4(v: u16) -> (r: String)
    ensures
        r@ == hex4(v),
{
    let mut r = String::from_str(hex_digit_text(v / 4096));
    r.append(hex_digit_text(v / 256 % 16));
    r.append(hex_digit_text(v / 16 % 16));
    r.append(hex_digit_text(v % 16));
    assert(r@ =~= hex4(v));
    r
}

/// Two upper-case hexadecimal digits of `v`.
pub fn format_hex2(v: u16) -> (r: String)
    requires
        v < 256,
    ensures
        r@ == hex2(v as int),
{
    let mut r = String::from_str(hex_digit_text(v / 16 % 16));
    r.append(hex_digit_text(v % 16));
    assert(r@ =~= hex2(v as int));
    r
}

fn detail_label(code: u16) -> (r: Option<&'static str>)
    ensures
        crate::fault_table::text_view(r) == detail_label_of(code),
{
    match code {
        0x0908 | 0x0913 | 0x0917 | 0x0A08 => Some("Code of failed service: 0x"),
        0x090A => Some("Value transmitted in Parameter_Count: 0x"),
        0x0918 => Some("Code of the unknown service: 0x"),
        0x0937 => Some("Faulty Variable_ID: 0x"),
        0x0938 => Some("Reserved Variable_ID: 0x"),
        0x0939 => Some("Variable_ID not enabled: 0x"),
        0x093A => Some("Incorrect Variable_ID: 0x"),
        0x093B => Some("Incorrect Variable_Count: 0x"),
        0x0A02 => Some("Current status of the local bus master: 0x"),
        0x0A0C => Some("Unknown Variable_ID: 0x"),
        0x0A18 => Some("Invalid Used_Attributes parameter: 0x"),
        0x0A19 => Some("Number of bus devices: 0x"),
        0x0A1A => Some("Invalid Frame_Reference (if specified): 0x"),
        0x0A1C => Some("Number of connected devices: 0x"),
        0x0A73 | 0x0A74 | 0x0A75 | 0x0A76 | 0x0A77 | 0x0A90 | 0x0A91 | 0x0A92 | 0x0A93
        | 0x0A94 => Some("Device number: 0x"),
        0x0A81 | 0x0A82 | 0x0A83 => Some("Object index: 0x"),
        0x0C01 | 0x0C02 | 0x0C11 | 0x0C12 | 0x0C13 | 0x0C14 | 0x0C15 => Some("Device number: 0x"),
        0x0F05 | 0x0F06 | 0x0F08 => Some("PDI object index: 0x"),
        0x0F0C => Some("Unknown Variable_ID: 0x"),
        0x0F21 | 0x0F22 => Some("Invalid device number: 0x"),
        0x0F23 => Some("Invalid data length: 0x"),
        0x0F24 => Some("Invalid number of parameters: 0x"),
        _ => None,
    }
}

fn text_of(o: Option<&str>) -> (r: Option<String>)
    ensures
        match r {
            Some(s) => crate::fault_table::text_view(o) == Some(s@),
            None => o is None,
        },
{
    match o {
        Some(s) => Some(String::from_str(s)),
        None => None,
    }
}

/// The contextual detail for a fault.
pub fn detail(code: u16, info: u16) -> (r: Option<String>)
    ensures
        match r {
            Some(s) => detail_of(code, info) == Some(s@),
            None => detail_of(code, info) is None,
        },
{
    if code == PARAMETERIZATION_ERROR && info % 256 == AFFECTED_ELEMENTS {
        let mut s = String::from_str("Number of the affected elements: 0x");
        let count = format_hex2(info / 256);
        s.append(count.as_str());
        Some(s)
    } else if code == PARAMETERIZATION_ERROR {
        text_of(info_text(info))
    } else {
        match detail_label(code) {
            Some(label) => {
                let mut s = String::from_str(label);
                let value = format_hex4(info);
                s.append(value.as_str());
                Some(s)
            },
            None => text_of(info_text(info)),
        }
    }
}

fn append_part(acc: &mut Option<String>, next: Option<String>)
    ensures
        match *final(acc) {
            Some(s) => join_part(opt_view(*old(acc)), opt_view(next)) == Some(s@),
            None => join_part(opt_view(*old(acc)), opt_view(next)) is None,
        },
{
    match next {
        None => {},
        Some(b) => {
            let joined = match acc.take() {
                None => b,
                Some(a) => {
                    let mut a = a;
                    a.append(" ");
                    a.append(b.as_str());
                    a
                },
            };
            *acc = Some(joined);
        },
    }
}

/// The view of an optional owned string.
pub open spec fn opt_view(o: Option<String>) -> Option<Seq<char>> {
    match o {
        Some(s) => Some(s@),
        None => None,
    }
}

/// The diagnostic message of a fault-code pair.
pub fn decode(error_code: u16, add_info: u16) -> (r: String)
    ensures
        r@ == message_of(error_code, add_info),
{
    let mut acc = text_of(error_text(error_code));
    append_part(&mut acc, detail(error_code, add_info));
    append_part(&mut acc, text_of(remedy_text(error_code)));
    match acc {
        Some(m) => m,
        None => String::from_str(NO_INFORMATION),
    }
}

/// A fault-code pair returned by a bus master, acyclic communication or PDI service.
#[derive(Debug, Clone, Copy, PartialEq, Eq, Structural)]
pub struct AxiolineError {
    pub error_code: u16,
    pub add_info: u16,
}

/// The error kind that a fault code stands for.
pub open spec fn kind_of(code: u16) -> ErrorKind {
    if code == 0x0A02 {
        ErrorKind::BusState
    } else if code == 0x0C01 || code == 0x0C02 || (0x0C11 <= code && code <= 0x0C15) {
        ErrorKind::ConfigurationMismatch
    } else if code == 0x0A81 || code == 0x0F12 {
        ErrorKind::Timeout
    } else {
        ErrorKind::Other
    }
}

impl AxiolineError {
    pub fn new(error_code: u16, add_info: u16) -> (r: AxiolineError)
        ensures
            r.error_code == error_code,
            r.add_info == add_info,
    {
        AxiolineError { error_code, add_info }
    }

    /// The diagnostic message of this fault.
    pub fn message(&self) -> (r: String)
        ensures
            r@ == message_of(self.error_code, self.add_info),
    {
        decode(self.error_code, self.add_info)
    }

    /// The kind of failure that this fault reports.
    pub fn kind(&self) -> (r: ErrorKind)
        ensures
            r == kind_of(self.error_code),
    {
        let code = self.error_code;
        if code == 0x0A02 {
            ErrorKind::BusState
        } else if code == 0x0C01 || code == 0x0C02 || (0x0C11 <= code && code <= 0x0C15) {
            ErrorKind::ConfigurationMismatch
        } else if code == 0x0A81 || code == 0x0F12 {
            ErrorKind::Timeout
        } else {
            ErrorKind::Other
        }
    }

    /// This fault as an error value carrying its kind and its diagnostic message.
    pub fn to_error(&self) -> (r: PlcnextError)
        ensures
            r.kind == kind_of(self.error_code),
            r.details@ == message_of(self.error_code, self.add_info),
    {
        PlcnextError::with_kind(self.kind(), self.message())
    }
}

/// The outcome of a service that answered with a fault-code pair: success
/// exactly when the error code is zero.
pub fn check_result(error_code: u16, add_info: u16) -> (r: Result<(), AxiolineError>)
    ensures
        r is Ok <==> error_code == SUCCESS,
        r matches Err(e) ==> e == (AxiolineError { error_code, add_info }),
{
    if error_code == SUCCESS {
        Ok(())
    } else {
        Err(AxiolineError::new(error_code, add_info))
    }
}

proof fn join_keeps_prefix(a: Seq<char>, next: Option<Seq<char>>)
    ensures
        join_part(Some(a), next) is Some,
        a.len() <= join_part(Some(a), next)->Some_0.len(),
        join_part(Some(a), next)->Some_0.subrange(0, a.len() as int) == a,
{
    match next {
        None => {
            assert(a.subrange(0, a.len() as int) =~= a);
        },
        Some(b) => {
            assert((a + " "@ + b).subrange(0, a.len() as int) =~= a);
        },
    }
}

/// For every fault-code pair whose error code the table documents, the
/// message begins with that code's documented description.
pub proof fn message_begins_with_description(code: u16, info: u16)
    requires
        error_text_of(code) is Some,
    ensures
        error_text_of(code)->Some_0.len() <= message_of(code, info).len(),
        message_of(code, info).subrange(0, error_text_of(code)->Some_0.len() as int)
            == error_text_of(code)->Some_0,
{
    let t = error_text_of(code)->Some_0;
    join_keeps_prefix(t, detail_of(code, info));
    let u = join_part(Some(t), detail_of(code, info))->Some_0;
    join_keeps_prefix(u, remedy_text_of(code));
    let m = message_of(code, info);
    assert(m.subrange(0, t.len() as int) =~= m.subrange(0, u.len() as int).subrange(0, t.len() as int));
}

/// A code that no table documents and that reads `add_info` in no way of its
/// own gives, with an `add_info` of zero, exactly the "no information" text.
pub proof fn undocumented_code_has_no_information(code: u16)
    requires
        error_text_of(code) is None,
        remedy_text_of(code) is None,
        detail_label_of(code) is None,
    ensures
        message_of(code, 0) == NO_INFORMATION@,
{
}

} // verus!
