//! Title-key extraction from fixed-layout ticket files, and the key-store
//! serialization of the extracted pairs.

use vstd::prelude::*;
use vstd::string::*;

verus! {

/// Byte offset of the title identifier field inside a ticket.
pub const TITLE_ID_OFFSET: usize = 0x2a0;

/// Byte offset of the title key field inside a ticket.
pub const TITLE_KEY_OFFSET: usize = 0x180;

/// Width of each of the two fields.
pub const FIELD_WIDTH: usize = 16;

/// Smallest ticket that holds both fields in full.
pub const MIN_TICKET_LEN: usize = 0x2b0;

/// Why a ticket yielded no title key.
#[derive(Debug, Clone, Copy, PartialEq, Eq, Structural)]
pub enum TicketError {
    /// The ticket holds fewer bytes than the fields require.
    TooShort { len: usize },
}

/// The lowercase hex digit for a nibble value.
pub open spec fn hex_digit(d: nat) -> char {
    if d == 0 { '0' } else if d == 1 { '1' } else if d == 2 { '2' } else if d == 3 { '3' }
    else if d == 4 { '4' } else if d == 5 { '5' } else if d == 6 { '6' } else if d == 7 { '7' }
    else if d == 8 { '8' } else if d == 9 { '9' } else if d == 10 { 'a' } else if d == 11 { 'b' }
    else if d == 12 { 'c' } else if d == 13 { 'd' } else if d == 14 { 'e' } else { 'f' }
}

/// Lowercase hex rendering of a byte string: two digits per byte, high
/// nibble first.
pub open spec fn hex_of(b: Seq<u8>) -> Seq<char>
    decreases b.len(),
{
    if b.len() == 0 {
        Seq::empty()
    } else {
        seq![hex_digit((b[0] / 16) as nat), hex_digit((b[0] % 16) as nat)]
            + hex_of(b.subrange(1, b.len() as int))
    }
}

/// Relies on hex::encode: it renders each byte as two lowercase hex digits,
/// high nibble first, in input order.
#[verifier::external_body]
fn hex_encode(bytes: &Vec<u8>) -> (r: String)
    ensures
        r@ == hex_of(bytes@),
{
    hex::encode(bytes.as_slice())
}

/// A title identifier / key pair read from a ticket.  Both fields are
/// exactly `FIELD_WIDTH` bytes.
#[derive(Debug, Clone)]
pub struct TitleKey {
    title_id: Vec<u8>,
    key: Vec<u8>,
}

/// Key-store line for one pair: `hex(title_id)=hex(key)`.
pub open spec fn render_spec(title_id: Seq<u8>, key: Seq<u8>) -> Seq<char> {
    hex_of(title_id) + "="@ + hex_of(key)
}

impl TitleKey {
    /// The title identifier bytes, for contracts.
    pub closed spec fn title_id_spec(&self) -> Seq<u8> {
        self.title_id@
    }

    /// The key bytes, for contracts.
    pub closed spec fn key_spec(&self) -> Seq<u8> {
        self.key@
    }

    /// Both fields have their fixed width.
    pub open spec fn wf(&self) -> bool {
        self.title_id_spec().len() == FIELD_WIDTH && self.key_spec().len() == FIELD_WIDTH
    }

    /// The title identifier bytes.
    pub fn title_id(&self) -> (r: &Vec<u8>)
        ensures
            r@ == self.title_id_spec(),
    {
        &self.title_id
    }

    /// The key bytes.
    pub fn key(&self) -> (r: &Vec<u8>)
        ensures
            r@ == self.key_spec(),
    {
        &self.key
    }

    /// The key-store serialization of this pair.
    pub fn render(&self) -> (r: String)
        ensures
            r@ == render_spec(self.title_id_spec(), self.key_spec()),
    {
        hex_encode(&self.title_id).concat("=").concat(hex_encode(&self.key).as_str())
    }
}

/// `count` bytes of `src` starting at `start`.
pub(crate) fn copy_range(src: &Vec<u8>, start: usize, count: usize) -> (r: Vec<u8>)
    requires
        start + count <= src@.len(),
    ensures
        r@ == src@.subrange(start as int, start as int + count as int),
{
    let srclen = src.len();
    let mut out: Vec<u8> = Vec::new();
    let mut i: usize = 0;
    while i < count
        invariant
            start + count <= srclen == src@.len(),
            0 <= i <= count,
            out@ == src@.subrange(start as int, start as int + i as int),
        decreases count - i,
    {
        out.push(src[start + i]);
        proof {
            assert(out@ =~= src@.subrange(start as int, start as int + i as int + 1));
        }
        i += 1;
    }
    out
}

/// Extract the title identifier / key pair from the raw bytes of a ticket:
/// the `FIELD_WIDTH` bytes at `TITLE_ID_OFFSET` and at `TITLE_KEY_OFFSET`,
/// read positionally with no further parsing.  A ticket shorter than
/// `MIN_TICKET_LEN` bytes is rejected.
pub fn get_title_key(ticket: &Vec<u8>) -> (r: Result<TitleKey, TicketError>)
    ensures
        match r {
            Ok(tk) => ticket@.len() >= MIN_TICKET_LEN
                && tk.wf()
                && tk.title_id_spec() == ticket@.subrange(
                    TITLE_ID_OFFSET as int,
                    TITLE_ID_OFFSET as int + FIELD_WIDTH as int,
                )
                && tk.key_spec() == ticket@.subrange(
                    TITLE_KEY_OFFSET as int,
                    TITLE_KEY_OFFSET as int + FIELD_WIDTH as int,
                ),
            Err(e) => ticket@.len() < MIN_TICKET_LEN
                && e == (TicketError::TooShort { len: ticket@.len() as usize }),
        },
{
    if ticket.len() < MIN_TICKET_LEN {
        return Err(TicketError::TooShort { len: ticket.len() });
    }
    let title_id = copy_range(ticket, TITLE_ID_OFFSET, FIELD_WIDTH);
    let key = copy_range(ticket, TITLE_KEY_OFFSET, FIELD_WIDTH);
    Ok(TitleKey { title_id, key })
}

/// Key-store text for the keys a patch run derived: one line per key that
/// was actually derived, in base-then-update order.  A run where neither
/// derivation succeeded contributes nothing.
pub open spec fn keystore_lines_spec(base: Option<TitleKey>, update: Option<TitleKey>) -> Seq<char> {
    (match base {
        Some(tk) => render_spec(tk.title_id_spec(), tk.key_spec()) + "\n"@,
        None => Seq::empty(),
    }) + (match update {
        Some(tk) => render_spec(tk.title_id_spec(), tk.key_spec()) + "\n"@,
        None => Seq::empty(),
    })
}

/// The text to append to the key-store file for the outcome of a run's two
/// key derivations.
pub fn keystore_lines(base: &Option<TitleKey>, update: &Option<TitleKey>) -> (r: String)
    ensures
        r@ == keystore_lines_spec(*base, *update),
{
    let mut out = String::new();
    if let Some(tk) = base {
        out.append(tk.render().as_str());
        out.append("\n");
    }
    if let Some(tk) = update {
        out.append(tk.render().as_str());
        out.append("\n");
    }
    out
}

} // verus!
