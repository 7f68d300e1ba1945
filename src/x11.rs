//! Decisions of a client of the X11 selection protocol.
//!
//! The client asks the owner of the `CLIPBOARD` selection to convert it to a
//! target format and to write the answer into a property of the client's own
//! window, waits for the matching `SelectionNotify` event, and then reads that
//! property in one request. The connection itself is driven by the caller; this
//! module says what to send, which events to accept, and what a reply means.
use crate::content_type::{models, texts, ContentType, NativeFormats};
use crate::error::{ClipboardError, Result};
use crate::text::string_from_utf8;
use vstd::prelude::*;
use vstd::utf8::{decode_utf8, valid_utf8};

verus! {

broadcast use vstd::utf8::group_utf8_lib;

/// The reserved atom and window identifier `None` of the protocol.
pub const NONE: u32 = 0;

/// Largest length, in 32-bit units, that a property read may ask for.
pub const FULL_LENGTH: u32 = 0xffff_ffff;

/// Interned identifiers the session needs, resolved once when it is set up.
#[derive(Clone, Copy, Debug, PartialEq, Eq, Structural)]
pub struct SelectionAtoms {
    /// The `CLIPBOARD` selection.
    pub clipboard: u32,
    /// The `UTF8_STRING` text target and property type.
    pub utf8_string: u32,
    /// The `TARGETS` pseudo-target that lists the available formats.
    pub targets: u32,
    /// The scratch property on the session's window that receives the data.
    pub property: u32,
    /// The `ATOM` property type of a target list.
    pub atom: u32,
}

/// What a conversion request asks the selection owner for.
#[derive(Clone, Copy, Debug, PartialEq, Eq, Structural)]
pub enum Transfer {
    /// The clipboard's text, as UTF-8.
    Text,
    /// The list of formats the clipboard item is offered in.
    Targets,
}

/// A `ConvertSelection` request.
#[derive(Clone, Copy, Debug, PartialEq, Eq, Structural)]
pub struct ConvertSelection {
    pub requestor: u32,
    pub selection: u32,
    pub target: u32,
    pub property: u32,
    pub time: u32,
}

/// A `GetProperty` request.
#[derive(Clone, Copy, Debug, PartialEq, Eq, Structural)]
pub struct PropertyRequest {
    pub delete: bool,
    pub window: u32,
    pub property: u32,
    pub type_: u32,
    pub long_offset: u32,
    pub long_length: u32,
}

/// An event received on the connection, as far as the session looks at it.
#[derive(Clone, Copy, Debug, PartialEq, Eq, Structural)]
pub enum SelectionEvent {
    /// A `SelectionNotify` event.
    SelectionNotify { requestor: u32, selection: u32, target: u32, property: u32 },
    /// Any other event.
    Other,
}

/// What to do after an event while a conversion is outstanding.
#[derive(Clone, Copy, Debug, PartialEq, Eq, Structural)]
pub enum NotifyOutcome {
    /// The event is not the awaited notification: discard it and wait on.
    KeepWaiting,
    /// The owner wrote the answer: read it with this request.
    ReadProperty(PropertyRequest),
    /// The selection has no owner, or the owner refused the conversion.
    NoData,
}

/// The reply to a `GetProperty` request.
#[derive(Clone, Debug)]
pub struct PropertyReply {
    /// The property's actual type, `NONE` when the property does not exist.
    pub type_: u32,
    /// The unit size of the value in bits: 8, 16 or 32.
    pub format: u8,
    /// The number of bytes of the property left unread.
    pub bytes_after: u32,
    /// The bytes read.
    pub value: Vec<u8>,
}

/// The integer that four bytes give in the chosen byte order.
pub open spec fn word_of(b0: u8, b1: u8, b2: u8, b3: u8, little_endian: bool) -> u32 {
    if little_endian {
        (b0 as int + b1 as int * 0x100 + b2 as int * 0x1_0000 + b3 as int * 0x100_0000) as u32
    } else {
        (b3 as int + b2 as int * 0x100 + b1 as int * 0x1_0000 + b0 as int * 0x100_0000) as u32
    }
}

/// A byte sequence read as consecutive 32-bit units; a trailing partial unit is ignored.
pub open spec fn words_spec(value: Seq<u8>, little_endian: bool) -> Seq<u32> {
    Seq::new(
        (value.len() / 4) as nat,
        |i: int|
            word_of(value[4 * i], value[4 * i + 1], value[4 * i + 2], value[4 * i + 3], little_endian),
    )
}

fn word_from_bytes(b0: u8, b1: u8, b2: u8, b3: u8, little_endian: bool) -> (r: u32)
    ensures
        r == word_of(b0, b1, b2, b3, little_endian),
{
    if little_endian {
        b0 as u32 + b1 as u32 * 0x100 + b2 as u32 * 0x1_0000 + b3 as u32 * 0x100_0000
    } else {
        b3 as u32 + b2 as u32 * 0x100 + b1 as u32 * 0x1_0000 + b0 as u32 * 0x100_0000
    }
}

/// Reads a property value of format 32 as a sequence of 32-bit units in the
/// byte order of the connection.
pub fn words_from_bytes(value: &Vec<u8>, little_endian: bool) -> (r: Vec<u32>)
    ensures
        r@ == words_spec(value@, little_endian),
{
    let len: usize = value.len();
    let n: usize = len / 4;
    let mut out: Vec<u32> = Vec::new();
    let mut i: usize = 0;
    while i < n
        invariant
            len == value@.len(),
            n == len / 4,
            i <= n,
            out@.len() == i,
            forall|j: int|
                0 <= j < i ==> out@[j] == #[trigger] words_spec(value@, little_endian)[j],
        decreases n - i,
    {
        assert(4 * i + 4 <= len) by (nonlinear_arith)
            requires
                i < n,
                n == len / 4,
        ;
        let k: usize = 4 * i;
        let w = word_from_bytes(value[k], value[k + 1], value[k + 2], value[k + 3], little_endian);
        out.push(w);
        i = i + 1;
    }
    assert(out@ =~= words_spec(value@, little_endian));
    out
}

/// A selection-protocol session: the client's window, the atoms it uses, and
/// the byte order its connection negotiated.
#[derive(Clone, Copy, Debug, PartialEq, Eq, Structural)]
pub struct SelectionSession {
    pub window: u32,
    pub atoms: SelectionAtoms,
    pub little_endian: bool,
}

impl SelectionSession {
    /// A session over a window and a set of atoms interned on its connection.
    pub fn new(window: u32, atoms: SelectionAtoms, little_endian: bool) -> (r: SelectionSession)
        ensures
            r.window == window,
            r.atoms == atoms,
            r.little_endian == little_endian,
    {
        SelectionSession { window, atoms, little_endian }
    }

    /// The conversion target for a transfer.
    pub open spec fn target_spec(self, transfer: Transfer) -> u32 {
        match transfer {
            Transfer::Text => self.atoms.utf8_string,
            Transfer::Targets => self.atoms.targets,
        }
    }

    /// The property type the answer to a transfer must have.
    pub open spec fn reply_type_spec(self, transfer: Transfer) -> u32 {
        match transfer {
            Transfer::Text => self.atoms.utf8_string,
            Transfer::Targets => self.atoms.atom,
        }
    }

    /// Whether an event is the notification that answers a transfer of this session.
    pub open spec fn answers(self, transfer: Transfer, event: SelectionEvent) -> bool {
        match event {
            SelectionEvent::SelectionNotify { requestor, selection, target, property } => {
                requestor == self.window && selection == self.atoms.clipboard && target
                    == self.target_spec(transfer)
            },
            SelectionEvent::Other => false,
        }
    }

    /// The request that reads the whole scratch property, leaving it in place.
    pub open spec fn property_request_spec(self, transfer: Transfer) -> PropertyRequest {
        PropertyRequest {
            delete: false,
            window: self.window,
            property: self.atoms.property,
            type_: self.reply_type_spec(transfer),
            long_offset: 0,
            long_length: FULL_LENGTH,
        }
    }

    /// The conversion request that starts a transfer: the clipboard selection,
    /// converted to the transfer's target, into the session's scratch property.
    pub fn convert_request(&self, transfer: Transfer, time: u32) -> (r: ConvertSelection)
        ensures
            r == (ConvertSelection {
                requestor: self.window,
                selection: self.atoms.clipboard,
                target: self.target_spec(transfer),
                property: self.atoms.property,
                time,
            }),
    {
        let target = match transfer {
            Transfer::Text => self.atoms.utf8_string,
            Transfer::Targets => self.atoms.targets,
        };
        ConvertSelection {
            requestor: self.window,
            selection: self.atoms.clipboard,
            target,
            property: self.atoms.property,
            time,
        }
    }

    /// The request that reads the answer to a transfer.
    pub fn property_request(&self, transfer: Transfer) -> (r: PropertyRequest)
        ensures
            r == self.property_request_spec(transfer),
    {
        let type_ = match transfer {
            Transfer::Text => self.atoms.utf8_string,
            Transfer::Targets => self.atoms.atom,
        };
        PropertyRequest {
            delete: false,
            window: self.window,
            property: self.atoms.property,
            type_,
            long_offset: 0,
            long_length: FULL_LENGTH,
        }
    }

    /// Decides what an event means while a transfer is outstanding. Events that
    /// do not answer it are discarded; the wait never ends on one of them.
    pub fn on_event(&self, transfer: Transfer, event: &SelectionEvent) -> (r: NotifyOutcome)
        ensures
            !self.answers(transfer, *event) ==> r == NotifyOutcome::KeepWaiting,
            self.answers(transfer, *event) && event->property == NONE ==> r
                == NotifyOutcome::NoData,
            self.answers(transfer, *event) && event->property != NONE ==> r
                == NotifyOutcome::ReadProperty(self.property_request_spec(transfer)),
    {
        match event {
            SelectionEvent::SelectionNotify { requestor, selection, target, property } => {
                let wanted = match transfer {
                    Transfer::Text => self.atoms.utf8_string,
                    Transfer::Targets => self.atoms.targets,
                };
                if *requestor != self.window || *selection != self.atoms.clipboard || *target
                    != wanted {
                    NotifyOutcome::KeepWaiting
                } else if *property == NONE {
                    NotifyOutcome::NoData
                } else {
                    NotifyOutcome::ReadProperty(self.property_request(transfer))
                }
            },
            SelectionEvent::Other => NotifyOutcome::KeepWaiting,
        }
    }

    /// Whether a reply is a complete answer of the type a transfer asked for.
    pub open spec fn complete_reply(self, transfer: Transfer, reply: PropertyReply) -> bool {
        reply.type_ == self.reply_type_spec(transfer) && reply.bytes_after == 0
    }

    /// The clipboard text in a reply to a text transfer. A missing property
    /// means the owner offered nothing; a partial read, a reply of another
    /// type, or bytes that are not UTF-8 break the protocol.
    pub fn text_from_reply(&self, reply: PropertyReply) -> (r: Result<String>)
        ensures
            reply.type_ == NONE ==> r == Err::<String, ClipboardError>(ClipboardError::Empty),
            reply.type_ != NONE && !(self.complete_reply(Transfer::Text, reply) && valid_utf8(
                reply.value@,
            )) ==> r == Err::<String, ClipboardError>(ClipboardError::ProtocolViolation),
            reply.type_ != NONE && self.complete_reply(Transfer::Text, reply) && valid_utf8(
                reply.value@,
            ) ==> r is Ok && r->Ok_0@ == decode_utf8(reply.value@),
    {
        if reply.type_ == NONE {
            return Err(ClipboardError::Empty);
        }
        if reply.type_ != self.atoms.utf8_string || reply.bytes_after != 0 {
            return Err(ClipboardError::ProtocolViolation);
        }
        match string_from_utf8(reply.value) {
            Some(s) => {
                proof {
                    vstd::utf8::encode_utf8_decode_utf8(s@);
                }
                Ok(s)
            },
            None => Err(ClipboardError::ProtocolViolation),
        }
    }

    /// The text that a reply to a text transfer gives.
    pub open spec fn text_reply_spec(self, reply: PropertyReply) -> Result<Seq<char>> {
        if reply.type_ == NONE {
            Err(ClipboardError::Empty)
        } else if self.complete_reply(Transfer::Text, reply) && valid_utf8(reply.value@) {
            Ok(decode_utf8(reply.value@))
        } else {
            Err(ClipboardError::ProtocolViolation)
        }
    }

    /// The text that a finished text transfer gives; `None` stands for a
    /// notification that named no property, the answer when nobody owns the
    /// selection or the owner refused.
    pub open spec fn text_transfer_spec(self, answer: Option<PropertyReply>) -> Result<Seq<char>> {
        match answer {
            None => Err(ClipboardError::Empty),
            Some(reply) => self.text_reply_spec(reply),
        }
    }

    /// The clipboard text that a finished text transfer gives.
    pub fn text_from_answer(&self, answer: Option<PropertyReply>) -> (r: Result<String>)
        ensures
            self.text_transfer_spec(answer) is Ok ==> r is Ok && r->Ok_0@ == self.text_transfer_spec(
                answer,
            )->Ok_0,
            self.text_transfer_spec(answer) is Err ==> r == Err::<String, ClipboardError>(
                self.text_transfer_spec(answer)->Err_0,
            ),
    {
        match answer {
            None => Err(ClipboardError::Empty),
            Some(reply) => self.text_from_reply(reply),
        }
    }

    /// The target atoms that a finished targets transfer gives: none when
    /// nobody owns the selection or the owner refused.
    pub fn targets_from_answer(&self, answer: &Option<PropertyReply>) -> (r: Result<Vec<u32>>)
        ensures
            answer is None ==> r is Ok && r->Ok_0@ == Seq::<u32>::empty(),
            answer is Some && answer->0.type_ == NONE ==> r is Ok && r->Ok_0@ == Seq::<
                u32,
            >::empty(),
            answer is Some && answer->0.type_ != NONE && !(self.complete_reply(
                Transfer::Targets,
                answer->0,
            ) && answer->0.format == 32) ==> r == Err::<Vec<u32>, ClipboardError>(
                ClipboardError::ProtocolViolation,
            ),
            answer is Some && answer->0.type_ != NONE && self.complete_reply(
                Transfer::Targets,
                answer->0,
            ) && answer->0.format == 32 ==> r is Ok && r->Ok_0@ == words_spec(
                answer->0.value@,
                self.little_endian,
            ),
    {
        match answer {
            None => Ok(Vec::new()),
            Some(reply) => self.targets_from_reply(reply),
        }
    }

    /// The target atoms in a reply to a targets transfer. A missing property
    /// means the owner offered nothing; a partial read, a reply of another type
    /// or a unit size other than 32 bits break the protocol.
    pub fn targets_from_reply(&self, reply: &PropertyReply) -> (r: Result<Vec<u32>>)
        ensures
            reply.type_ == NONE ==> r is Ok && r->Ok_0@ == Seq::<u32>::empty(),
            reply.type_ != NONE && !(self.complete_reply(Transfer::Targets, *reply)
                && reply.format == 32) ==> r == Err::<Vec<u32>, ClipboardError>(
                ClipboardError::ProtocolViolation,
            ),
            reply.type_ != NONE && self.complete_reply(Transfer::Targets, *reply) && reply.format
                == 32 ==> r is Ok && r->Ok_0@ == words_spec(reply.value@, self.little_endian),
    {
        if reply.type_ == NONE {
            return Ok(Vec::new());
        }
        if reply.type_ != self.atoms.atom || reply.bytes_after != 0 || reply.format != 32 {
            return Err(ClipboardError::ProtocolViolation);
        }
        Ok(words_from_bytes(&reply.value, self.little_endian))
    }
}

/// The characters of each name, for names that are all valid UTF-8.
pub open spec fn decoded_names(names: Seq<Vec<u8>>) -> Seq<Seq<char>> {
    names.map_values(|b: Vec<u8>| decode_utf8(b@))
}

/// Whether every name is valid UTF-8.
pub open spec fn all_utf8(names: Seq<Vec<u8>>) -> bool {
    forall|i: int| 0 <= i < names.len() ==> valid_utf8(#[trigger] names[i]@)
}

/// The content types that the names of a selection's target atoms denote:
/// normalized against the X11 target names, each once, in order of first
/// occurrence. A name that is not UTF-8 breaks the protocol.
pub fn content_types_from_atom_names(names: &Vec<Vec<u8>>) -> (r: Result<Vec<ContentType>>)
    ensures
        all_utf8(names@) ==> r is Ok && models(r->Ok_0@) == NativeFormats::X11.distinct_types_spec(
            decoded_names(names@),
        ),
        !all_utf8(names@) ==> r == Err::<Vec<ContentType>, ClipboardError>(
            ClipboardError::ProtocolViolation,
        ),
{
    let mut decoded: Vec<String> = Vec::new();
    let mut i: usize = 0;
    while i < names.len()
        invariant
            i <= names@.len(),
            decoded@.len() == i,
            forall|j: int| 0 <= j < i ==> valid_utf8(#[trigger] names@[j]@),
            forall|j: int| 0 <= j < i ==> #[trigger] decoded@[j]@ == decode_utf8(names@[j]@),
        decreases names@.len() - i,
    {
        let bytes = vstd::slice::slice_to_vec(names[i].as_slice());
        match string_from_utf8(bytes) {
            Some(s) => {
                proof {
                    vstd::utf8::encode_utf8_decode_utf8(s@);
                }
                decoded.push(s);
            },
            None => {
                return Err(ClipboardError::ProtocolViolation);
            },
        }
        i = i + 1;
    }
    assert(texts(decoded@) =~= decoded_names(names@));
    Ok(NativeFormats::X11.content_types_from_names(&decoded))
}

/// The timestamp sent with a conversion request: whole seconds since the Unix
/// epoch, when they fit in the protocol's 32 bits.
pub fn timestamp_from_secs(secs: u64) -> (r: Option<u32>)
    ensures
        secs <= u32::MAX ==> r == Some(secs as u32),
        secs > u32::MAX ==> r is None,
{
    if secs <= 0xffff_ffff {
        Some(secs as u32)
    } else {
        None
    }
}

/// With no owner of the clipboard selection, reading text fails as empty and
/// never yields an empty string: the notification names no property, or the
/// property read back does not exist.
pub proof fn lemma_no_owner_text_is_empty(
    session: SelectionSession,
    transfer_event: SelectionEvent,
    reply: PropertyReply,
)
    requires
        session.answers(Transfer::Text, transfer_event),
        transfer_event->property == NONE || reply.type_ == NONE,
    ensures
        transfer_event->property == NONE ==> session.text_transfer_spec(None) == Err::<
            Seq<char>,
            ClipboardError,
        >(ClipboardError::Empty),
        reply.type_ == NONE ==> session.text_transfer_spec(Some(reply)) == Err::<
            Seq<char>,
            ClipboardError,
        >(ClipboardError::Empty),
{
}

} // verus!
