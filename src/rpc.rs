use vstd::prelude::*;

use bytes::BytesMut;
use crypto::digest::Digest;
use encoding::all::ISO_8859_1;
use encoding::{DecoderTrap, EncoderTrap, Encoding};

use crate::errors::{Error, ErrorModel};
use crate::node::{lemma_view_fields, nodes_view, Node, NodeModel};
use crate::text::{replace_text, replaced, same_str, strip_leading, without_leading};
use crate::util::{parse_node, parsed_node};
use crate::xml::{xml_text, xml_text_of};

verus! {

/// The byte that ends every frame on the wire.
pub const TERMCHAR: u8 = 3;

#[verifier::external_type_specification]
#[verifier::external_body]
pub struct ExBytesMut(BytesMut);

/// The bytes that a buffer holds.
pub uninterp spec fn buffer_bytes(b: BytesMut) -> Seq<u8>;

/// What `md5` of the crypto crate gives for a string: its digest, in lower-case
/// hexadecimal.
pub uninterp spec fn md5_hex_of(s: Seq<char>) -> Seq<char>;

/// Relies on `BytesMut`'s `Deref` to `[u8]`: the bytes held.
#[verifier::external_body]
fn buffer_slice(b: &BytesMut) -> (r: &[u8])
    ensures
        r@ == buffer_bytes(*b),
{
    &b[..]
}

/// Relies on `BytesMut::split_to`: the first `at` bytes move out, the rest
/// stay (it panics only when `at` exceeds the length).
#[verifier::external_body]
fn buffer_split_to(b: &mut BytesMut, at: usize) -> (r: BytesMut)
    requires
        at <= buffer_bytes(*old(b)).len(),
    ensures
        buffer_bytes(r) == buffer_bytes(*old(b)).subrange(0, at as int),
        buffer_bytes(*final(b)) == buffer_bytes(*old(b)).subrange(
            at as int,
            buffer_bytes(*old(b)).len() as int,
        ),
{
    b.split_to(at)
}

/// Relies on `BytesMut::extend_from_slice`: the bytes are appended.
#[verifier::external_body]
fn buffer_extend(b: &mut BytesMut, s: &[u8])
    ensures
        buffer_bytes(*final(b)) == buffer_bytes(*old(b)) + s@,
{
    b.extend_from_slice(s)
}

/// The text that ISO-8859-1 bytes stand for: each byte is the code point of
/// its character.
pub open spec fn latin1_text(b: Seq<u8>) -> Seq<char> {
    b.map_values(|x: u8| (x as u32) as char)
}

/// Whether every character of `s` has a one-byte ISO-8859-1 code.
pub open spec fn is_latin1(s: Seq<char>) -> bool {
    forall|i: int| 0 <= i < s.len() ==> (#[trigger] s[i]) as u32 <= 0xFF
}

/// The ISO-8859-1 bytes of `s`.
pub open spec fn latin1_bytes(s: Seq<char>) -> Seq<u8> {
    s.map_values(|c: char| (c as u32) as u8)
}

/// Relies on `encoding`'s `ISO_8859_1` decoder with `DecoderTrap::Strict`:
/// its table maps each byte to the character of the same code, so no byte is
/// refused.
#[verifier::external_body]
fn decode_latin1(b: &[u8]) -> (r: Result<String, String>)
    ensures
        r is Ok,
        r matches Ok(s) ==> s@ == latin1_text(b@),
{
    ISO_8859_1.decode(b, DecoderTrap::Strict).map_err(|e| e.into_owned())
}

/// Relies on `encoding`'s `ISO_8859_1` encoder with `EncoderTrap::Strict`:
/// characters up to U+00FF become the byte of their code; any other is
/// refused.
#[verifier::external_body]
fn encode_latin1(s: &str) -> (r: Result<Vec<u8>, String>)
    ensures
        r is Ok <==> is_latin1(s@),
        r matches Ok(b) ==> b@ == latin1_bytes(s@),
{
    ISO_8859_1.encode(s, EncoderTrap::Strict).map_err(|e| e.into_owned())
}

/// Relies on `crypto::md5::Md5` through `Digest::input_str` and
/// `Digest::result_str`: the hex digest depends on the string alone.
#[verifier::external_body]
fn md5_hex(s: &str) -> (r: String)
    ensures
        r@ == md5_hex_of(s@),
{
    let mut digest = crypto::md5::Md5::new();
    digest.input_str(s);
    digest.result_str()
}

/// The answer to an authentication challenge: the MD5 digest of the nonce
/// followed by the password, in lower-case hexadecimal.
pub open spec fn nonce_hash_of(pass: Seq<char>, nonce: Seq<char>) -> Seq<char> {
    md5_hex_of(nonce + pass)
}

pub fn compute_nonce_hash(pass: &str, nonce: &str) -> (r: String)
    ensures
        r@ == nonce_hash_of(pass@, nonce@),
{
    let mut input = String::from_str(nonce);
    input.append(pass);
    md5_hex(input.as_str())
}

/// Which end of the connection a codec serves.
#[derive(Clone, Copy, Debug, PartialEq, Eq, Structural, Hash)]
pub enum CodecMode {
    Client,
    Server,
}

/// The envelope that frames arriving at this end carry.
pub open spec fn incoming_envelope(mode: CodecMode) -> Seq<char> {
    match mode {
        CodecMode::Client => "boinc_gui_rpc_reply"@,
        CodecMode::Server => "boinc_gui_rpc_request"@,
    }
}

/// The envelope that frames leaving this end carry.
pub open spec fn outgoing_envelope(mode: CodecMode) -> Seq<char> {
    match mode {
        CodecMode::Client => "boinc_gui_rpc_request"@,
        CodecMode::Server => "boinc_gui_rpc_reply"@,
    }
}

fn incoming_envelope_name(mode: CodecMode) -> (r: &'static str)
    ensures
        r@ == incoming_envelope(mode),
{
    match mode {
        CodecMode::Client => "boinc_gui_rpc_reply",
        CodecMode::Server => "boinc_gui_rpc_request",
    }
}

fn outgoing_envelope_name(mode: CodecMode) -> (r: &'static str)
    ensures
        r@ == outgoing_envelope(mode),
{
    match mode {
        CodecMode::Client => "boinc_gui_rpc_request",
        CodecMode::Server => "boinc_gui_rpc_reply",
    }
}

/// The position of the first terminator in `b` at or after `i`.
pub open spec fn terminator_from(b: Seq<u8>, i: int) -> Option<int>
    decreases b.len() - i,
{
    if i < 0 || i >= b.len() {
        None
    } else if b[i] == TERMCHAR {
        Some(i)
    } else {
        terminator_from(b, i + 1)
    }
}

/// Where a scan of a buffer of `len` bytes starts, given the offset that the
/// previous scan reached.
pub open spec fn scan_start(next_index: usize, len: nat) -> int {
    if next_index <= len {
        next_index as int
    } else {
        0
    }
}

/// The declaration that may open an incoming document.
pub open spec fn prologue() -> Seq<char> {
    "<?xml version=\"1.0\" encoding=\"ISO-8859-1\" ?>"@
}

/// What the bytes of one frame (terminator removed) decode to: the children
/// of its envelope, or why they cannot be had.
pub open spec fn decoded_frame(mode: CodecMode, frame: Seq<u8>) -> Result<Seq<NodeModel>, ErrorModel> {
    match parsed_node(without_leading(latin1_text(frame), prologue())) {
        Err(e) => Err(e),
        Ok(root) => if root.name == incoming_envelope(mode) {
            Ok(root.children)
        } else {
            Err(
                ErrorModel::DataParseError(
                    "Invalid root: "@ + root.name + ". Expected: "@ + incoming_envelope(mode),
                ),
            )
        },
    }
}

/// The model of what one call of `decode` returns.
pub open spec fn decode_view(r: Result<Option<Vec<Node>>, Error>) -> Result<Option<Seq<NodeModel>>, ErrorModel> {
    match r {
        Ok(Some(v)) => Ok(Some(nodes_view(v))),
        Ok(None) => Ok(None),
        Err(e) => Err(e@),
    }
}

/// The model of a frame's outcome as `decode` reports it.
pub open spec fn frame_outcome(d: Result<Seq<NodeModel>, ErrorModel>) -> Result<Option<Seq<NodeModel>>, ErrorModel> {
    match d {
        Ok(c) => Ok(Some(c)),
        Err(e) => Err(e),
    }
}

/// One call of `decode` on a codec of `mode` that has scanned `next_index`
/// bytes, over a buffer holding `b`: what it returns, how far the codec has
/// then scanned, and what stays in the buffer.
pub open spec fn decode_spec(mode: CodecMode, next_index: usize, b: Seq<u8>) -> (
    Result<Option<Seq<NodeModel>>, ErrorModel>,
    usize,
    Seq<u8>,
) {
    match terminator_from(b, scan_start(next_index, b.len())) {
        None => (Ok(None), b.len() as usize, b),
        Some(k) => (
            frame_outcome(decoded_frame(mode, b.subrange(0, k))),
            0,
            b.subrange(k + 1, b.len() as int),
        ),
    }
}

/// The envelope that wraps outgoing children.
pub open spec fn envelope_of(mode: CodecMode, children: Seq<NodeModel>) -> NodeModel {
    NodeModel { name: outgoing_envelope(mode), text: None, cdata: None, children }
}

/// The text of an outgoing frame: the envelope as `treexml` writes it, with a
/// document declaration removed and `" />"` closings tightened to `"/>"`.
pub open spec fn encoded_text(mode: CodecMode, children: Seq<NodeModel>) -> Seq<char> {
    replaced(
        replaced(xml_text_of(envelope_of(mode, children)), "<?xml version='1.0'?>"@, ""@),
        " />"@,
        "/>"@,
    )
}

proof fn lemma_no_terminator_before(b: Seq<u8>, i: int, j: int)
    requires
        0 <= i <= j <= b.len(),
        forall|x: int| i <= x < j ==> b[x] != TERMCHAR,
    ensures
        terminator_from(b, i) == terminator_from(b, j),
    decreases j - i,
{
    if i < j {
        lemma_no_terminator_before(b, i + 1, j);
    }
}

/// A frame that arrives over two reads decodes as if it had come in one: the
/// first read, on any proper prefix of one frame, asks for more bytes and
/// notes how far it scanned; the read of the whole frame from there gives what
/// a fresh codec gives on the whole frame.
pub proof fn lemma_resumable_decode(mode: CodecMode, frame: Seq<u8>, k: int)
    requires
        frame.len() <= usize::MAX,
        0 <= k < frame.len(),
        frame.last() == TERMCHAR,
        forall|i: int| 0 <= i < frame.len() - 1 ==> frame[i] != TERMCHAR,
    ensures
        decode_spec(mode, 0, frame.subrange(0, k)) == (
            Ok::<Option<Seq<NodeModel>>, ErrorModel>(None),
            k as usize,
            frame.subrange(0, k),
        ),
        decode_spec(mode, k as usize, frame) == decode_spec(mode, 0, frame),
{
    let p = frame.subrange(0, k);
    lemma_no_terminator_before(p, 0, k);
    lemma_no_terminator_before(frame, 0, k);
}

/// Decoding carries nothing over from one frame to the next: whatever a frame
/// held, once it is taken the codec is back at its fresh state and the buffer
/// holds exactly the bytes that followed it.
pub proof fn lemma_stateless_between_frames(
    mode: CodecMode,
    first: Seq<u8>,
    other: Seq<u8>,
    rest: Seq<u8>,
)
    requires
        first.len() > 0,
        first.last() == TERMCHAR,
        forall|i: int| 0 <= i < first.len() - 1 ==> first[i] != TERMCHAR,
        other.len() > 0,
        other.last() == TERMCHAR,
        forall|i: int| 0 <= i < other.len() - 1 ==> other[i] != TERMCHAR,
    ensures
        decode_spec(mode, 0, first + rest).1 == 0,
        decode_spec(mode, 0, first + rest).2 == rest,
        decode_spec(mode, 0, first + rest).1 == decode_spec(mode, 0, other + rest).1,
        decode_spec(mode, 0, first + rest).2 == decode_spec(mode, 0, other + rest).2,
{
    let b = first + rest;
    let c = other + rest;
    lemma_no_terminator_before(b, 0, first.len() - 1);
    lemma_no_terminator_before(c, 0, other.len() - 1);
    assert(b.subrange(first.len() as int, b.len() as int) =~= rest);
    assert(c.subrange(other.len() as int, c.len() as int) =~= rest);
}

/// What `encode` writes is one whole frame to the peer: its only terminator
/// is the last byte, so the peer's decoder takes exactly that frame, leaves
/// what follows, and parses exactly the text that was written; when the XML
/// parser reads that text back as the envelope that was written, the peer
/// gets back the very children that were sent.
pub proof fn lemma_frame_round_trip(
    mode: CodecMode,
    peer: CodecMode,
    children: Seq<NodeModel>,
    rest: Seq<u8>,
)
    requires
        is_latin1(encoded_text(mode, children)),
        forall|i: int|
            0 <= i < encoded_text(mode, children).len() ==> (#[trigger] encoded_text(
                mode,
                children,
            )[i]) as u32 != TERMCHAR as u32,
    ensures
        ({
            let t = encoded_text(mode, children);
            let b = latin1_bytes(t).push(TERMCHAR) + rest;
            &&& latin1_text(latin1_bytes(t)) == t
            &&& decode_spec(peer, 0, b) == (
                frame_outcome(decoded_frame(peer, latin1_bytes(t))),
                0usize,
                rest,
            )
            &&& (incoming_envelope(peer) == outgoing_envelope(mode) && parsed_node(
                without_leading(t, prologue()),
            ) == Ok::<NodeModel, ErrorModel>(envelope_of(mode, children))) ==> decode_spec(
                peer,
                0,
                b,
            ).0 == Ok::<Option<Seq<NodeModel>>, ErrorModel>(Some(children))
        }),
{
    let t = encoded_text(mode, children);
    let f = latin1_bytes(t);
    let b = f.push(TERMCHAR) + rest;
    assert forall|i: int| 0 <= i < t.len() implies b[i] != TERMCHAR by {
        assert(b[i] == f[i]);
        let c = t[i];
        assert(c as u32 <= 0xFF);
        assert(c as u32 != 3);
        assert(((c as u32) as u8) as u32 == c as u32);
    }
    lemma_no_terminator_before(b, 0, t.len() as int);
    assert(b[t.len() as int] == TERMCHAR);
    assert(b.subrange(0, t.len() as int) =~= f);
    assert forall|i: int| 0 <= i < t.len() implies latin1_text(f)[i] == t[i] by {
        let c = t[i];
        assert(c as u32 <= 0xFF);
        let x = (c as u32) as u8;
        assert(x as u32 == c as u32);
        vstd::utf8::char_u32_cast(c, x as u32);
    }
    assert(latin1_text(f) =~= t);
    assert(b.subrange(t.len() as int + 1, b.len() as int) =~= rest);
}

/// Frames protocol messages on a byte stream, for one end of the connection.
pub struct BoincCodec {
    mode: CodecMode,
    next_index: usize,
}

impl BoincCodec {
    pub closed spec fn spec_mode(&self) -> CodecMode {
        self.mode
    }

    /// How far the previous scan for a terminator got.
    pub closed spec fn spec_next_index(&self) -> usize {
        self.next_index
    }

    #[must_use]
    pub fn new(mode: CodecMode) -> (r: Self)
        ensures
            r.spec_mode() == mode,
            r.spec_next_index() == 0,
    {
        BoincCodec { mode, next_index: 0 }
    }

    pub fn mode(&self) -> (r: CodecMode)
        ensures
            r == self.spec_mode(),
    {
        self.mode
    }

    /// Takes one frame off the front of `src`, if a whole one is there, and
    /// returns the children of its envelope; `Ok(None)` asks for more bytes.
    pub fn decode(&mut self, src: &mut BytesMut) -> (r: Result<Option<Vec<Node>>, Error>)
        ensures
            final(self).spec_mode() == old(self).spec_mode(),
            decode_spec(old(self).spec_mode(), old(self).spec_next_index(), buffer_bytes(*old(src)))
                == (decode_view(r), final(self).spec_next_index(), buffer_bytes(*final(src))),
    {
        let ghost b = buffer_bytes(*src);
        let bytes = buffer_slice(src);
        let read_to: usize = bytes.len();
        let start: usize = if self.next_index <= read_to {
            self.next_index
        } else {
            0
        };
        let mut i: usize = start;
        while i < read_to && bytes[i] != TERMCHAR
            invariant
                bytes@ == b,
                read_to == b.len(),
                start <= i <= read_to,
                terminator_from(b, start as int) == terminator_from(b, i as int),
            decreases read_to - i,
        {
            i = i + 1;
        }
        if i >= read_to {
            self.next_index = read_to;
            return Ok(None);
        }
        self.next_index = 0;
        let frame = buffer_split_to(src, i);
        let _terminator = buffer_split_to(src, 1);
        proof {
            assert(buffer_bytes(*src) =~= b.subrange(i + 1, b.len() as int));
        }
        let text = match decode_latin1(buffer_slice(&frame)) {
            Ok(t) => t,
            Err(e) => {
                let mut msg = String::from_str("Invalid data received: ");
                msg.append(e.as_str());
                return Err(Error::DataParseError(msg));
            },
        };
        proof {
            reveal_strlit("<?xml version=\"1.0\" encoding=\"ISO-8859-1\" ?>");
        }
        let doc = strip_leading(
            text.as_str(),
            "<?xml version=\"1.0\" encoding=\"ISO-8859-1\" ?>",
        );
        let root = match parse_node(doc) {
            Ok(root) => root,
            Err(e) => return Err(e),
        };
        let expected = incoming_envelope_name(self.mode);
        if !same_str(root.name.as_str(), expected) {
            let mut msg = String::from_str("Invalid root: ");
            msg.append(root.name.as_str());
            msg.append(". Expected: ");
            msg.append(expected);
            return Err(Error::DataParseError(msg));
        }
        proof {
            lemma_view_fields(&root);
            assert(nodes_view(root.children) =~= root@.children);
        }
        Ok(Some(root.children))
    }

    /// Appends to `dst` one frame that carries `item` in this end's outgoing
    /// envelope. Text that ISO-8859-1 cannot hold is refused, and `dst` is
    /// then left as it was.
    pub fn encode(&mut self, item: Vec<Node>, dst: &mut BytesMut) -> (r: Result<(), Error>)
        ensures
            final(self).spec_mode() == old(self).spec_mode(),
            final(self).spec_next_index() == old(self).spec_next_index(),
            ({
                let t = encoded_text(old(self).spec_mode(), nodes_view(item));
                if is_latin1(t) {
                    &&& r is Ok
                    &&& buffer_bytes(*final(dst)) == buffer_bytes(*old(dst)) + latin1_bytes(
                        t,
                    ).push(TERMCHAR)
                } else {
                    &&& r matches Err(e) && e@ == ErrorModel::DataParseError(
                        "Outgoing data is not ISO-8859-1"@,
                    )
                    &&& buffer_bytes(*final(dst)) == buffer_bytes(*old(dst))
                }
            }),
    {
        let mut out = Node::new(outgoing_envelope_name(self.mode));
        out.children = item;
        proof {
            lemma_view_fields(&out);
            assert(out@.children =~= nodes_view(item));
            assert(out@ == envelope_of(self.mode, nodes_view(item)));
            reveal_strlit("<?xml version='1.0'?>");
            reveal_strlit(" />");
        }
        let data = xml_text(&out);
        let data = replace_text(data.as_str(), "<?xml version='1.0'?>", "");
        let data = replace_text(data.as_str(), " />", "/>");
        match encode_latin1(data.as_str()) {
            Ok(bytes) => {
                buffer_extend(dst, bytes.as_slice());
                let term = vec![TERMCHAR];
                buffer_extend(dst, term.as_slice());
                proof {
                    assert(term@ == seq![TERMCHAR]);
                }
                Ok(())
            },
            Err(_) => Err(Error::DataParseError(String::from_str("Outgoing data is not ISO-8859-1"))),
        }
    }
}

} // verus!
