use crate::error::Error;
use vstd::utf8::is_ascii_chars;
use vstd::prelude::*;

verus! {

/// Device information strings, each identified by the ASCII code of its initial.
#[derive(Clone, Copy, Debug, PartialEq, Eq, Structural)]
pub enum DeviceString {
    EquipmentRecognition,
    FirmwareRevision,
    ManufactureDate,
    ProductId,
    SerialNo,
    OperationTimeCounter,
}

/// How characters are displayed.
#[derive(Clone, Copy, Debug, PartialEq, Eq, Structural)]
pub enum CharacterMode {
    Normal,
    Blinking,
    Inverse,
}

/// How the cursor is displayed.
#[derive(Clone, Copy, Debug, PartialEq, Eq, Structural)]
pub enum CursorMode {
    Off,
    Blinking,
    On,
}

/// The escape byte that starts every command sequence.
pub const ESC: u8 = 0x1b;

impl DeviceString {
    pub open spec fn spec_code(self) -> u8 {
        match self {
            DeviceString::EquipmentRecognition => 0x45,
            DeviceString::FirmwareRevision => 0x46,
            DeviceString::ManufactureDate => 0x4d,
            DeviceString::ProductId => 0x50,
            DeviceString::SerialNo => 0x53,
            DeviceString::OperationTimeCounter => 0x54,
        }
    }

    /// The ASCII code that names this string in a query (`'E'`, `'F'`, ...).
    pub fn code(&self) -> (r: u8)
        ensures
            r == self.spec_code(),
    {
        match self {
            DeviceString::EquipmentRecognition => 0x45,  // 'E'
            DeviceString::FirmwareRevision => 0x46,  // 'F'
            DeviceString::ManufactureDate => 0x4d,  // 'M'
            DeviceString::ProductId => 0x50,  // 'P'
            DeviceString::SerialNo => 0x53,  // 'S'
            DeviceString::OperationTimeCounter => 0x54,  // 'T'
        }
    }
}

impl CharacterMode {
    pub open spec fn spec_code(self) -> u8 {
        match self {
            CharacterMode::Normal => 0,
            CharacterMode::Blinking => 5,
            CharacterMode::Inverse => 7,
        }
    }

    /// The numeric code of this mode in the wire protocol.
    pub fn code(&self) -> (r: u8)
        ensures
            r == self.spec_code(),
    {
        match self {
            CharacterMode::Normal => 0,
            CharacterMode::Blinking => 5,
            CharacterMode::Inverse => 7,
        }
    }
}

impl CursorMode {
    pub open spec fn spec_code(self) -> u8 {
        match self {
            CursorMode::Off => 0,
            CursorMode::Blinking => 1,
            CursorMode::On => 2,
        }
    }

    /// The numeric code of this mode in the wire protocol.
    pub fn code(&self) -> (r: u8)
        ensures
            r == self.spec_code(),
    {
        match self {
            CursorMode::Off => 0,
            CursorMode::Blinking => 1,
            CursorMode::On => 2,
        }
    }
}

/// The ASCII decimal digits of `n`, most significant first, without leading zeros.
pub open spec fn decimal(n: nat) -> Seq<u8>
    decreases n,
{
    if n < 10 {
        seq![(n + 0x30) as u8]
    } else {
        decimal(n / 10).push((n % 10 + 0x30) as u8)
    }
}

/// The number that a string of ASCII decimal digits denotes.
pub open spec fn digits_value(digits: Seq<u8>) -> nat
    decreases digits.len(),
{
    if digits.len() == 0 {
        0
    } else {
        digits_value(digits.drop_last()) * 10 + (digits.last() - 0x30) as nat
    }
}

/// `decimal(n)` is the usual decimal notation of `n`: one or more ASCII
/// digits, no leading zero unless `n` is zero, and it reads back as `n`.
pub proof fn lemma_decimal_notation(n: nat)
    ensures
        decimal(n).len() > 0,
        forall|i: int| 0 <= i < decimal(n).len() ==> 0x30 <= #[trigger] decimal(n)[i] <= 0x39,
        decimal(n)[0] == 0x30 ==> n == 0,
        digits_value(decimal(n)) == n,
    decreases n,
{
    if n >= 10 {
        lemma_decimal_notation(n / 10);
        let d = decimal(n);
        assert(d.drop_last() == decimal(n / 10));
        assert(d[0] == decimal(n / 10)[0]);
        assert(d.last() == (n % 10 + 0x30) as u8);
        assert(digits_value(d) == n / 10 * 10 + n % 10);
        assert(n / 10 * 10 + n % 10 == n) by (nonlinear_arith);
        assert forall|i: int| 0 <= i < d.len() implies 0x30 <= #[trigger] d[i] <= 0x39 by {
            if i < d.len() - 1 {
                assert(d[i] == decimal(n / 10)[i]);
            }
        }
    } else {
        let d = decimal(n);
        assert(d.drop_last() =~= Seq::<u8>::empty());
        assert(digits_value(Seq::<u8>::empty()) == 0);
        assert(digits_value(d) == n);
    }
}

/// Appends the decimal digits of `n` to `out`.
pub fn push_decimal(out: &mut Vec<u8>, n: u32)
    ensures
        final(out)@ == old(out)@ + decimal(n as nat),
    decreases n,
{
    if n >= 10 {
        push_decimal(out, n / 10);
    }
    out.push((n % 10 + 0x30) as u8);
    proof {
        if n < 10 {
            assert(decimal(n as nat) == seq![(n + 0x30) as u8]);
        }
    }
}

/// Builds a byte vector from a fixed sequence of bytes.
fn bytes_of(parts: &[u8]) -> (r: Vec<u8>)
    ensures
        r@ == parts@,
{
    let mut r: Vec<u8> = Vec::new();
    let mut i: usize = 0;
    while i < parts.len()
        invariant
            i <= parts@.len(),
            r@ == parts@.subrange(0, i as int),
        decreases parts@.len() - i,
    {
        r.push(parts[i]);
        i = i + 1;
        assert(r@ == parts@.subrange(0, i as int));
    }
    assert(parts@.subrange(0, parts@.len() as int) == parts@);
    r
}

/// The query that asks the display for one of its information strings.
pub open spec fn query_seq(kind: DeviceString) -> Seq<u8> {
    seq![ESC, 0x5b, 0x63, kind.spec_code(), 0x52]
}

/// Encodes the query for the device string `kind`: `ESC [ c <code> R`.
pub fn query_command(kind: DeviceString) -> (r: Vec<u8>)
    ensures
        r@ == query_seq(kind),
{
    let code = kind.code();
    let r = bytes_of(&[ESC, 0x5b, 0x63, code, 0x52]);
    assert(r@ =~= query_seq(kind));
    r
}

/// Every device-string query is five bytes long; only the fourth, the code of
/// the string asked for, depends on which string it is.
pub proof fn lemma_query_shape(kind: DeviceString, other: DeviceString)
    ensures
        query_seq(kind).len() == 5,
        query_seq(kind)[3] == kind.spec_code(),
        forall|i: int| 0 <= i < 5 && i != 3 ==> query_seq(kind)[i] == query_seq(other)[i],
        kind != other ==> query_seq(kind)[3] != query_seq(other)[3],
{
}

/// `ESC [ {y+1} ; {x+1} H`: the cursor position is 0-based here and 1-based on the wire.
pub open spec fn cursor_pos_seq(x: u8, y: u8) -> Seq<u8> {
    seq![ESC, 0x5b] + decimal((y + 1) as nat) + seq![0x3b] + decimal((x + 1) as nat) + seq![0x48]
}

/// Encodes a move of the cursor to column `x`, row `y` (both counted from 0).
pub fn cursor_pos_command(x: u8, y: u8) -> (r: Vec<u8>)
    ensures
        r@ == cursor_pos_seq(x, y),
{
    let mut r = bytes_of(&[ESC, 0x5b]);
    push_decimal(&mut r, y as u32 + 1);
    r.push(0x3b);
    push_decimal(&mut r, x as u32 + 1);
    r.push(0x48);
    assert(r@ =~= cursor_pos_seq(x, y));
    r
}

/// `ESC \ ? L C {code}`.
pub open spec fn cursor_mode_seq(mode: CursorMode) -> Seq<u8> {
    seq![ESC, 0x5c, 0x3f, 0x4c, 0x43] + decimal(mode.spec_code() as nat)
}

/// Encodes the choice of whether and how the cursor is rendered.
pub fn cursor_mode_command(mode: CursorMode) -> (r: Vec<u8>)
    ensures
        r@ == cursor_mode_seq(mode),
{
    let mut r = bytes_of(&[ESC, 0x5c, 0x3f, 0x4c, 0x43]);
    push_decimal(&mut r, mode.code() as u32);
    r
}

/// `ESC [ {code} m`.
pub open spec fn character_mode_seq(mode: CharacterMode) -> Seq<u8> {
    seq![ESC, 0x5b] + decimal(mode.spec_code() as nat) + seq![0x6d]
}

/// Encodes the mode of the characters printed after it.
pub fn character_mode_command(mode: CharacterMode) -> (r: Vec<u8>)
    ensures
        r@ == character_mode_seq(mode),
{
    let mut r = bytes_of(&[ESC, 0x5b]);
    push_decimal(&mut r, mode.code() as u32);
    r.push(0x6d);
    assert(r@ =~= character_mode_seq(mode));
    r
}

/// `ESC \ ? L D {level}`.
pub open spec fn brightness_seq(level: u8) -> Seq<u8> {
    seq![ESC, 0x5c, 0x3f, 0x4c, 0x44] + decimal(level as nat)
}

/// Encodes a brightness level; the display documents 0 (0%) to 5 (100%), but
/// any byte is passed on.
pub fn brightness_command(level: u8) -> (r: Vec<u8>)
    ensures
        r@ == brightness_seq(level),
{
    let mut r = bytes_of(&[ESC, 0x5c, 0x3f, 0x4c, 0x44]);
    push_decimal(&mut r, level as u32);
    r
}

/// `ESC [ 2 J`: clears the whole screen.
pub open spec fn clear_seq() -> Seq<u8> {
    seq![ESC, 0x5b, 0x32, 0x4a]
}

/// `ESC [ 0 K`: clears from the cursor to the end of its line.
pub open spec fn clear_to_end_seq() -> Seq<u8> {
    seq![ESC, 0x5b, 0x30, 0x4b]
}

/// Encodes the clearing of the line from the cursor to its end.
pub fn clear_to_end_command() -> (r: Vec<u8>)
    ensures
        r@ == clear_to_end_seq(),
{
    bytes_of(&[ESC, 0x5b, 0x30, 0x4b])
}

/// The writes that clear the display, in the order they are sent: the clear
/// itself, then a move of the cursor home as a transfer of its own.
pub fn clear_display_commands() -> (r: Vec<Vec<u8>>)
    ensures
        r@.len() == 2,
        r@[0]@ == clear_seq(),
        r@[1]@ == cursor_pos_seq(0, 0),
{
    let clear = bytes_of(&[ESC, 0x5b, 0x32, 0x4a]);
    let home = cursor_pos_command(0, 0);
    assert(clear@ =~= clear_seq());
    let mut r: Vec<Vec<u8>> = Vec::new();
    r.push(clear);
    r.push(home);
    r
}

/// Moves the cursor back one place without erasing.
pub fn backspace_command() -> (r: Vec<u8>)
    ensures
        r@ == seq![0x08u8],
{
    bytes_of(&[0x08])
}

/// Moves the cursor down one line, keeping its column.
pub fn line_feed_command() -> (r: Vec<u8>)
    ensures
        r@ == seq![0x0au8],
{
    bytes_of(&[0x0a])
}

/// Moves the cursor to the start of its line.
pub fn carriage_return_command() -> (r: Vec<u8>)
    ensures
        r@ == seq![0x0du8],
{
    bytes_of(&[0x0d])
}

/// The text that lossy UTF-8 decoding makes of `bytes`.
pub uninterp spec fn lossy_text(bytes: Seq<u8>) -> Seq<char>;

/// Whether every byte is a 7-bit ASCII code.
pub open spec fn is_ascii(bytes: Seq<u8>) -> bool {
    forall|i: int| 0 <= i < bytes.len() ==> bytes[i] < 0x80
}

/// ASCII bytes read as characters, one for one.
pub open spec fn ascii_chars(bytes: Seq<u8>) -> Seq<char> {
    bytes.map_values(|b: u8| b as char)
}

/// Relies on `String::from_utf8_lossy`: the text depends on the bytes alone, and
/// valid UTF-8 (ASCII in particular, one character per byte) is kept as it is.
#[verifier::external_body]
fn text_from_bytes(bytes: &[u8]) -> (r: String)
    ensures
        r@ == lossy_text(bytes@),
        is_ascii(bytes@) ==> r@ == ascii_chars(bytes@),
{
    String::from_utf8_lossy(bytes).into_owned()
}

/// The interior of a device-string response: its first and last bytes are framing.
pub open spec fn response_payload(response: Seq<u8>) -> Seq<u8> {
    response.subrange(1, response.len() - 1)
}

/// Strips the two framing bytes off a device-string response.
pub fn device_string_payload(response: &[u8]) -> (r: Result<Vec<u8>, Error>)
    ensures
        response@.len() < 2 <==> r is Err,
        r is Err ==> r matches Err(Error::ReadFailed),
        r matches Ok(p) ==> p@ == response_payload(response@),
{
    if response.len() < 2 {
        return Err(Error::ReadFailed);
    }
    let end = response.len() - 1;
    let mut payload: Vec<u8> = Vec::new();
    let mut i: usize = 1;
    while i < end
        invariant
            1 <= i <= end,
            end == response@.len() - 1,
            payload@ == response@.subrange(1, i as int),
        decreases end - i,
    {
        payload.push(response[i]);
        i = i + 1;
        assert(payload@ =~= response@.subrange(1, i as int));
    }
    Ok(payload)
}

/// Decodes a device-string response: the bytes between the framing bytes, as
/// text, with invalid UTF-8 replaced rather than refused.
pub fn decode_device_string(response: &[u8]) -> (r: Result<String, Error>)
    ensures
        response@.len() < 2 <==> r is Err,
        r is Err ==> r matches Err(Error::ReadFailed),
        r matches Ok(s) ==> s@ == lossy_text(response_payload(response@)),
        r matches Ok(s) ==> is_ascii(response_payload(response@)) ==> s@ == ascii_chars(
            response_payload(response@),
        ),
{
    match device_string_payload(response) {
        Ok(payload) => Ok(text_from_bytes(payload.as_slice())),
        Err(e) => Err(e),
    }
}

/// The bytes of an ASCII text, one per character.
pub open spec fn ascii_bytes(text: Seq<char>) -> Seq<u8> {
    text.map_values(|c: char| c as u8)
}

/// A device-string response as the display frames it: one byte before the
/// payload and one after.
pub open spec fn framed(prefix: u8, payload: Seq<u8>, suffix: u8) -> Seq<u8> {
    seq![prefix] + payload + seq![suffix]
}

/// An ASCII text of at most 30 characters, framed by any two bytes, fits a
/// device-string response, and decoding that response gives the text back:
/// the payload is exactly the text's bytes, and those read back as the text.
pub proof fn lemma_response_round_trip(prefix: u8, text: Seq<char>, suffix: u8)
    requires
        text.len() <= 30,
        is_ascii_chars(text),
    ensures
        2 <= framed(prefix, ascii_bytes(text), suffix).len() <= 32,
        response_payload(framed(prefix, ascii_bytes(text), suffix)) == ascii_bytes(text),
        is_ascii(ascii_bytes(text)),
        ascii_chars(ascii_bytes(text)) == text,
{
    let b = ascii_bytes(text);
    let f = framed(prefix, b, suffix);
    assert(response_payload(f) =~= b);
    assert forall|i: int| 0 <= i < b.len() implies b[i] < 0x80 by {
        assert(b[i] == text[i] as u8);
    }
    assert forall|i: int| 0 <= i < text.len() implies ascii_chars(b)[i] == text[i] by {
        assert(b[i] == text[i] as u8);
    }
    assert(ascii_chars(b) =~= text);
}

} // verus!
