//! The node's settings and the events it receives from the dataflow.

use vstd::prelude::*;
use vstd::string::*;

verus! {

/// The signaling port used when none is configured.
pub const DEFAULT_SIGNALING_PORT: u16 = 8080;

/// Why a configured signaling port is not a valid port number.
#[derive(Debug, Clone, Copy, PartialEq, Eq, Structural)]
pub enum PortError {
    /// The setting is empty.
    Empty,
    /// The setting holds a character that is not a decimal digit.
    InvalidDigit,
    /// The number is larger than the largest port number.
    PosOverflow,
}

/// Whether `c` is a decimal digit.
pub open spec fn is_decimal_digit(c: char) -> bool {
    '0' as u32 <= c as u32 && c as u32 <= '9' as u32
}

/// The value of the decimal digit `c`.
pub open spec fn digit_value(c: char) -> int {
    c as u32 - '0' as u32
}

/// Reading the decimal digits of `digits` from position `i` on, with `value`
/// read so far: the first character that is not a digit, or the first digit
/// that takes the number past 65535, ends the reading with an error.
pub open spec fn scan_u16(digits: Seq<char>, i: int, value: int) -> Result<u16, PortError>
    decreases digits.len() - i,
{
    if i < 0 || i >= digits.len() {
        Ok(value as u16)
    } else if !is_decimal_digit(digits[i]) {
        Err(PortError::InvalidDigit)
    } else if value * 10 + digit_value(digits[i]) > 65535 {
        Err(PortError::PosOverflow)
    } else {
        scan_u16(digits, i + 1, value * 10 + digit_value(digits[i]))
    }
}

/// A port number written in decimal, as `str::parse::<u16>` reads it: an
/// optional `+` followed by at least one decimal digit.
pub open spec fn parse_port_spec(text: Seq<char>) -> Result<u16, PortError> {
    if text.len() == 0 {
        Err(PortError::Empty)
    } else if text.len() == 1 && (text[0] == '+' || text[0] == '-') {
        Err(PortError::InvalidDigit)
    } else if text[0] == '+' {
        scan_u16(text.drop_first(), 0, 0)
    } else {
        scan_u16(text, 0, 0)
    }
}

/// Whether every character of `text` is a decimal digit.
pub open spec fn all_decimal_digits(text: Seq<char>) -> bool {
    forall|i: int| 0 <= i < text.len() ==> is_decimal_digit(#[trigger] text[i])
}

/// The value of a numeral of decimal digits, most significant first.
pub open spec fn decimal_value(digits: Seq<char>) -> int
    decreases digits.len(),
{
    if digits.len() == 0 {
        0
    } else {
        decimal_value(digits.drop_last()) * 10 + digit_value(digits.last())
    }
}

proof fn lemma_decimal_prefix_grows(digits: Seq<char>, j: int, k: int)
    requires
        all_decimal_digits(digits),
        0 <= j <= k <= digits.len(),
    ensures
        0 <= decimal_value(digits.take(j)) <= decimal_value(digits.take(k)),
    decreases k,
{
    if k == 0 {
        assert(digits.take(0) =~= Seq::<char>::empty());
    } else {
        if j < k {
            lemma_decimal_prefix_grows(digits, j, k - 1);
        } else {
            lemma_decimal_prefix_grows(digits, k - 1, k - 1);
        }
        assert(digits.take(k).drop_last() =~= digits.take(k - 1));
        assert(digits.take(k).last() == digits[k - 1]);
        assert(is_decimal_digit(digits[k - 1]));
    }
}

proof fn lemma_scan_decimal(digits: Seq<char>, i: int)
    requires
        all_decimal_digits(digits),
        0 <= i <= digits.len(),
        decimal_value(digits.take(i)) <= 65535,
    ensures
        decimal_value(digits) <= 65535 ==> scan_u16(digits, i, decimal_value(digits.take(i)))
            == Ok::<u16, PortError>(decimal_value(digits) as u16),
        decimal_value(digits) > 65535 ==> scan_u16(digits, i, decimal_value(digits.take(i)))
            == Err::<u16, PortError>(PortError::PosOverflow),
    decreases digits.len() - i,
{
    lemma_decimal_prefix_grows(digits, i, digits.len() as int);
    assert(digits.take(digits.len() as int) =~= digits);
    if i < digits.len() {
        assert(digits.take(i + 1).drop_last() =~= digits.take(i));
        assert(digits.take(i + 1).last() == digits[i]);
        assert(is_decimal_digit(digits[i]));
        let next = decimal_value(digits.take(i + 1));
        lemma_decimal_prefix_grows(digits, i + 1, digits.len() as int);
        if next <= 65535 {
            lemma_scan_decimal(digits, i + 1);
        }
    }
}

/// A port setting made of decimal digits, with or without a leading `+`, is
/// read as the number those digits write when it is at most 65535, and is
/// refused as too large otherwise.
pub proof fn lemma_port_is_decimal_value(digits: Seq<char>)
    requires
        digits.len() > 0,
        all_decimal_digits(digits),
    ensures
        decimal_value(digits) <= 65535 ==> parse_port_spec(digits) == Ok::<u16, PortError>(
            decimal_value(digits) as u16,
        ),
        decimal_value(digits) > 65535 ==> parse_port_spec(digits) == Err::<u16, PortError>(
            PortError::PosOverflow,
        ),
        parse_port_spec(seq!['+'] + digits) == parse_port_spec(digits),
{
    assert(digits.take(0) =~= Seq::<char>::empty());
    assert(decimal_value(Seq::<char>::empty()) == 0);
    lemma_scan_decimal(digits, 0);
    assert(is_decimal_digit(digits[0]));
    let plus = seq!['+'] + digits;
    assert(plus.drop_first() =~= digits);
    assert(plus[0] == '+');
}

/// The digits of a port setting: the setting without its leading `+`, if it
/// has one.
pub open spec fn unsigned_digits(text: Seq<char>) -> Seq<char> {
    if text.len() > 0 && text[0] == '+' {
        text.drop_first()
    } else {
        text
    }
}

proof fn lemma_scan_ok_needs_digits(digits: Seq<char>, i: int, value: int)
    requires
        0 <= i <= digits.len(),
    ensures
        scan_u16(digits, i, value) is Ok ==> forall|j: int|
            i <= j < digits.len() ==> is_decimal_digit(#[trigger] digits[j]),
    decreases digits.len() - i,
{
    if i < digits.len() {
        lemma_scan_ok_needs_digits(digits, i + 1, value * 10 + digit_value(digits[i]));
    }
}

/// A port setting is read only when, past an optional leading `+`, it is a
/// non-empty run of decimal digits; the port read is then the number those
/// digits write. Anything else (a space, a sign other than one leading `+`,
/// a non-ASCII digit) is refused.
pub proof fn lemma_port_read_only_from_digits(text: Seq<char>)
    ensures
        parse_port_spec(text) is Ok ==> unsigned_digits(text).len() > 0 && all_decimal_digits(
            unsigned_digits(text),
        ) && decimal_value(unsigned_digits(text)) <= 65535 && parse_port_spec(text)
            == Ok::<u16, PortError>(decimal_value(unsigned_digits(text)) as u16),
{
    if text.len() > 0 && !(text.len() == 1 && (text[0] == '+' || text[0] == '-')) {
        let d = unsigned_digits(text);
        lemma_scan_ok_needs_digits(d, 0, 0);
        if parse_port_spec(text) is Ok {
            assert(parse_port_spec(text) == scan_u16(d, 0, 0));
            assert(d.len() > 0);
            lemma_port_is_decimal_value(d);
        }
    }
}

impl PortError {
    /// The text of the error, as the standard library words it.
    pub fn message(&self) -> (text: &'static str)
        ensures
            text@ == (match *self {
                PortError::Empty => "cannot parse integer from empty string"@,
                PortError::InvalidDigit => "invalid digit found in string"@,
                PortError::PosOverflow => "number too large to fit in target type"@,
            }),
    {
        match self {
            PortError::Empty => "cannot parse integer from empty string",
            PortError::InvalidDigit => "invalid digit found in string",
            PortError::PosOverflow => "number too large to fit in target type",
        }
    }
}

/// Reads the decimal digits of `text` from position `start` on.
fn scan_port(text: &str, start: usize) -> (port: Result<u16, PortError>)
    requires
        start <= text@.len(),
    ensures
        port == scan_u16(text@, start as int, 0),
{
    let n: usize = text.unicode_len();
    let mut i: usize = start;
    let mut value: u32 = 0;
    while i < n
        invariant
            n == text@.len(),
            start <= i <= n,
            value <= 65535,
            scan_u16(text@, start as int, 0) == scan_u16(text@, i as int, value as int),
        decreases n - i,
    {
        let c = text.get_char(i);
        if !('0' <= c && c <= '9') {
            return Err(PortError::InvalidDigit);
        }
        let digit: u32 = (c as u32) - ('0' as u32);
        let next: u32 = value * 10 + digit;
        if next > 65535 {
            return Err(PortError::PosOverflow);
        }
        value = next;
        i += 1;
    }
    Ok(value as u16)
}

/// Reads a port number written in decimal, with an optional leading `+`.
pub fn parse_port(text: &str) -> (port: Result<u16, PortError>)
    ensures
        port == parse_port_spec(text@),
        text@.len() > 0 && all_decimal_digits(text@) && decimal_value(text@) <= 65535 ==> port
            == Ok::<u16, PortError>(decimal_value(text@) as u16),
        text@.len() > 0 && all_decimal_digits(text@) && decimal_value(text@) > 65535 ==> port
            == Err::<u16, PortError>(PortError::PosOverflow),
        port is Ok ==> unsigned_digits(text@).len() > 0 && all_decimal_digits(
            unsigned_digits(text@),
        ) && port == Ok::<u16, PortError>(decimal_value(unsigned_digits(text@)) as u16),
{
    proof {
        lemma_port_read_only_from_digits(text@);
        if text@.len() > 0 && all_decimal_digits(text@) {
            lemma_port_is_decimal_value(text@);
        }
    }
    let n: usize = text.unicode_len();
    if n == 0 {
        return Err(PortError::Empty);
    }
    let first = text.get_char(0);
    if n == 1 && (first == '+' || first == '-') {
        return Err(PortError::InvalidDigit);
    }
    if first == '+' {
        let port = scan_port(text, 1);
        proof {
            lemma_scan_offset(text@, 1, 0, 0);
            assert(text@.subrange(1, text@.len() as int) =~= text@.drop_first());
        }
        port
    } else {
        scan_port(text, 0)
    }
}

/// Reading from position `k + j` of a sequence is reading from position `j`
/// of the sequence without its first `k` characters.
proof fn lemma_scan_offset(digits: Seq<char>, k: int, j: int, value: int)
    requires
        0 <= k,
        0 <= j,
        k + j <= digits.len(),
    ensures
        scan_u16(digits, k + j, value) == scan_u16(
            digits.subrange(k, digits.len() as int),
            j,
            value,
        ),
    decreases digits.len() - (k + j),
{
    let rest = digits.subrange(k, digits.len() as int);
    if k + j < digits.len() {
        assert(rest[j] == digits[k + j]);
        lemma_scan_offset(digits, k, j + 1, value * 10 + digit_value(digits[k + j]));
    }
}

/// The signaling port: the configured one, or 8080 when none is configured.
pub fn signaling_port(setting: Option<&str>) -> (port: Result<u16, PortError>)
    ensures
        port == (match setting {
            Some(text) => parse_port_spec(text@),
            None => Ok(DEFAULT_SIGNALING_PORT),
        }),
{
    match setting {
        Some(text) => parse_port(text),
        None => Ok(DEFAULT_SIGNALING_PORT),
    }
}

/// The lower-case form of `text`, as `str::to_lowercase` gives it.
pub uninterp spec fn lowercase_of(text: Seq<char>) -> Seq<char>;

/// Calls `str::to_lowercase`, which maps each character to its lower-case
/// form as Unicode defines it. That mapping is not written out here: the
/// result is only named, as `lowercase_of` of the text.
#[verifier::external_body]
fn lowercase(text: &str) -> (lowered: String)
    ensures
        lowered@ == lowercase_of(text@),
{
    text.to_lowercase()
}

/// The `encoding` parameter of an input, as the node reads it.
#[derive(Debug)]
pub enum EncodingParameter {
    /// A text parameter.
    Text(String),
    /// A parameter of another type.
    Other,
}

/// The encoding of an input: the lower-case form of a text parameter, and
/// `rgb8` when the parameter is absent or not text.
pub open spec fn encoding_of(parameter: Option<EncodingParameter>) -> Seq<char> {
    match parameter {
        Some(EncodingParameter::Text(text)) => lowercase_of(text@),
        _ => "rgb8"@,
    }
}

/// The encoding of an input, from its `encoding` parameter.
pub fn resolve_encoding(parameter: &Option<EncodingParameter>) -> (encoding: String)
    ensures
        encoding@ == encoding_of(*parameter),
        !(*parameter matches Some(EncodingParameter::Text(_))) ==> encoding@ == "rgb8"@,
        *parameter matches Some(EncodingParameter::Text(text)) ==> encoding@ == lowercase_of(text@),
{
    match parameter {
        Some(EncodingParameter::Text(text)) => lowercase(text.as_str()),
        _ => String::from_str("rgb8"),
    }
}

/// An event that the node receives from the dataflow.
#[derive(Debug)]
pub enum NodeEvent {
    /// An input arrived on the input `id`, with its `encoding` parameter and,
    /// when the data is an array of bytes, those bytes.
    Input { id: String, encoding: Option<EncodingParameter>, data: Option<Vec<u8>> },
    /// The dataflow asks the node to stop.
    Stop,
    /// Any other event.
    Other,
}

/// What the node does with an event.
#[derive(Debug)]
pub enum NodeAction {
    /// Queue these frame bytes for the peers.
    Forward(Vec<u8>),
    /// Warn that the image data is not an array of bytes.
    NotBytes,
    /// Warn that images in this encoding are not supported.
    UnsupportedEncoding(String),
    /// Nothing to do.
    Ignore,
    /// Stop receiving events.
    Stop,
}

/// Whether `action` is what the node does with an input on the input `id`
/// in the encoding `encoding`, carrying `data` when it is an array of bytes:
/// only images in `rgb8` are forwarded.
pub open spec fn is_input_action(
    action: NodeAction,
    id: Seq<char>,
    encoding: Seq<char>,
    data: Option<Vec<u8>>,
) -> bool {
    if id != "image"@ {
        action is Ignore
    } else if encoding != "rgb8"@ {
        action matches NodeAction::UnsupportedEncoding(e) && e@ == encoding
    } else {
        match data {
            Some(bytes) => action == NodeAction::Forward(bytes),
            None => action is NotBytes,
        }
    }
}

/// Only `rgb8` images are forwarded, and their bytes unchanged; an image in
/// any other encoding is reported as unsupported under that encoding's name.
pub proof fn lemma_only_rgb8_forwarded(
    action: NodeAction,
    id: Seq<char>,
    encoding: Seq<char>,
    data: Option<Vec<u8>>,
)
    requires
        is_input_action(action, id, encoding, data),
    ensures
        action is Forward ==> id == "image"@ && encoding == "rgb8"@ && data == Some(
            action->Forward_0,
        ),
        id == "image"@ && encoding != "rgb8"@ ==> (action matches NodeAction::UnsupportedEncoding(
            e,
        ) && e@ == encoding),
{
}

/// Decides what to do with an input on the input `id` whose encoding is
/// `encoding`.
pub fn route_input(id: &str, encoding: String, data: Option<Vec<u8>>) -> (action: NodeAction)
    ensures
        is_input_action(action, id@, encoding@, data),
        action is Forward ==> id@ == "image"@ && encoding@ == "rgb8"@ && data == Some(
            action->Forward_0,
        ),
        id@ == "image"@ && encoding@ != "rgb8"@ ==> (action matches NodeAction::UnsupportedEncoding(
            e,
        ) && e@ == encoding@),
        id@ != "image"@ ==> action is Ignore,
{
    if !(id.to_owned() == String::from_str("image")) {
        NodeAction::Ignore
    } else if !(encoding == String::from_str("rgb8")) {
        NodeAction::UnsupportedEncoding(encoding)
    } else {
        match data {
            Some(bytes) => NodeAction::Forward(bytes),
            None => NodeAction::NotBytes,
        }
    }
}

/// Decides what the node does with an event from the dataflow: images in
/// `rgb8` are forwarded, a stop request stops the node, the rest is ignored
/// or warned about.
pub fn on_node_event(event: NodeEvent) -> (action: NodeAction)
    ensures
        match event {
            NodeEvent::Input { id, encoding, data } => is_input_action(
                action,
                id@,
                encoding_of(encoding),
                data,
            ),
            NodeEvent::Stop => action is Stop,
            NodeEvent::Other => action is Ignore,
        },
{
    match event {
        NodeEvent::Input { id, encoding, data } => {
            let encoding = resolve_encoding(&encoding);
            route_input(id.as_str(), encoding, data)
        },
        NodeEvent::Stop => NodeAction::Stop,
        NodeEvent::Other => NodeAction::Ignore,
    }
}

} // verus!
