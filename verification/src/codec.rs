use vstd::prelude::*;

use crate::identity::Identity;
use vstd::bytes::*;
use vstd::slice::{slice_index_get, slice_subrange, slice_to_vec};
use vstd::string::StrSliceExecFns;
use vstd::utf8::{decode_utf8, encode_utf8, encode_utf8_decode_utf8, encode_utf8_valid_utf8, valid_utf8};

verus! {

/// The kind of action a cross-ledger message requests. On the wire it is
/// a single byte, in declaration order from zero.
#[derive(Clone, Copy, PartialEq, Eq, Structural, Debug)]
pub enum MessageType {
    TokenTransfer,
    TokenReceive,
    ContractCall,
    ContractCallWithToken,
}

/// The wire-level unit carried between ledgers.
#[derive(Clone, Debug)]
pub struct CrossChainMessage {
    pub id: String,
    pub source_chain: u64,
    pub destination_chain: u64,
    pub sender: Identity,
    pub recipient: Identity,
    pub message_type: MessageType,
    pub payload: Vec<u8>,
    pub nonce: u64,
    pub timestamp: i64,
}

/// Failure of message decoding.
#[derive(Clone, Copy, PartialEq, Eq, Structural, Debug)]
pub enum CodecError {
    Malformed,
}

/// The mathematical content of a message: what the codec promises to
/// carry faithfully.
#[verifier::ext_equal]
pub struct MessageView {
    pub id: Seq<char>,
    pub source_chain: u64,
    pub destination_chain: u64,
    pub sender: Seq<u8>,
    pub recipient: Seq<u8>,
    pub message_type: MessageType,
    pub payload: Seq<u8>,
    pub nonce: u64,
    pub timestamp: i64,
}

impl View for CrossChainMessage {
    type V = MessageView;

    open spec fn view(&self) -> MessageView {
        MessageView {
            id: self.id@,
            source_chain: self.source_chain,
            destination_chain: self.destination_chain,
            sender: self.sender@,
            recipient: self.recipient@,
            message_type: self.message_type,
            payload: self.payload@,
            nonce: self.nonce,
            timestamp: self.timestamp,
        }
    }
}

/// The wire byte of each message kind, in declaration order.
pub open spec fn mt_to_byte(mt: MessageType) -> u8 {
    match mt {
        MessageType::TokenTransfer => 0,
        MessageType::TokenReceive => 1,
        MessageType::ContractCall => 2,
        MessageType::ContractCallWithToken => 3,
    }
}

/// The message kind named by a wire byte; bytes past the last kind name
/// none.
pub open spec fn byte_to_mt(b: u8) -> Option<MessageType> {
    if b == 0 {
        Some(MessageType::TokenTransfer)
    } else if b == 1 {
        Some(MessageType::TokenReceive)
    } else if b == 2 {
        Some(MessageType::ContractCall)
    } else if b == 3 {
        Some(MessageType::ContractCallWithToken)
    } else {
        None
    }
}

/// Reading back a kind's wire byte names the kind again.
pub proof fn lemma_mt_round_trip(mt: MessageType)
    ensures
        byte_to_mt(mt_to_byte(mt)) == Some(mt),
{
}

fn mt_to_byte_exec(mt: MessageType) -> (b: u8)
    ensures
        b == mt_to_byte(mt),
{
    match mt {
        MessageType::TokenTransfer => 0,
        MessageType::TokenReceive => 1,
        MessageType::ContractCall => 2,
        MessageType::ContractCallWithToken => 3,
    }
}

fn byte_to_mt_exec(b: u8) -> (r: Option<MessageType>)
    ensures
        r == byte_to_mt(b),
{
    if b == 0 {
        Some(MessageType::TokenTransfer)
    } else if b == 1 {
        Some(MessageType::TokenReceive)
    } else if b == 2 {
        Some(MessageType::ContractCall)
    } else if b == 3 {
        Some(MessageType::ContractCallWithToken)
    } else {
        None
    }
}

/// A signed timestamp as its two's-complement machine word.
pub open spec fn i64_as_u64(x: i64) -> u64 {
    if x >= 0 {
        x as u64
    } else {
        (x + 0x1_0000_0000_0000_0000) as u64
    }
}

/// The signed reading of a machine word: values past the signed maximum
/// wrap to the negatives.
pub open spec fn u64_as_i64(x: u64) -> i64 {
    if x <= i64::MAX as u64 {
        x as i64
    } else {
        (x - 0x1_0000_0000_0000_0000) as i64
    }
}

/// The two's-complement reading inverts the two's-complement writing.
pub proof fn lemma_i64_u64_round_trip(x: i64)
    ensures
        u64_as_i64(i64_as_u64(x)) == x,
{
}

fn i64_to_u64_exec(x: i64) -> (r: u64)
    ensures
        r == i64_as_u64(x),
{
    if x >= 0 {
        x as u64
    } else {
        let y: i64 = x + 1;
        let z: i64 = y + i64::MAX;
        (z as u64) + 0x8000_0000_0000_0000u64
    }
}

fn u64_to_i64_exec(x: u64) -> (r: i64)
    ensures
        r == u64_as_i64(x),
{
    if x <= (i64::MAX as u64) {
        x as i64
    } else {
        let z: u64 = x - 0x8000_0000_0000_0000u64;
        ((z as i64) - i64::MAX) - 1
    }
}

/// Whether a message fits the wire schema: each length prefix must fit
/// its four bytes. (Identities are 32 bytes by construction.)
pub open spec fn msg_wf(v: MessageView) -> bool {
    &&& v.sender.len() == 32
    &&& v.recipient.len() == 32
    &&& encode_utf8(v.id).len() <= u32::MAX
    &&& v.payload.len() <= u32::MAX
}

/// The canonical encoding of a message: the identifier's UTF-8 bytes and
/// the payload are length-prefixed with a four-byte little-endian count;
/// integers are little-endian; identities are their 32 raw bytes; the
/// message kind is one byte; the timestamp is its two's-complement word.
pub open spec fn spec_encode(v: MessageView) -> Seq<u8> {
    let id_bytes = encode_utf8(v.id);
    spec_u32_to_le_bytes(id_bytes.len() as u32) + id_bytes + spec_u64_to_le_bytes(v.source_chain)
        + spec_u64_to_le_bytes(v.destination_chain) + v.sender + v.recipient + seq![
        mt_to_byte(v.message_type),
    ] + spec_u32_to_le_bytes(v.payload.len() as u32) + v.payload + spec_u64_to_le_bytes(v.nonce)
        + spec_u64_to_le_bytes(i64_as_u64(v.timestamp))
}

/// The structural parse of an encoding: the unique message the bytes
/// spell, or none when they are truncated, carry a length prefix past the
/// end, hold malformed UTF-8, name no message kind, or leave bytes over.
pub open spec fn spec_decode(data: Seq<u8>) -> Option<MessageView> {
    if data.len() < 4 {
        None
    } else {
        let n_id = spec_u32_from_le_bytes(data.subrange(0, 4)) as int;
        if data.len() < 105 + n_id {
            None
        } else {
            let id_bytes = data.subrange(4, 4 + n_id);
            if !valid_utf8(id_bytes) {
                None
            } else {
                let o = 4 + n_id;
                match byte_to_mt(data[o + 80]) {
                    None => None,
                    Some(mt) => {
                        let n_pay = spec_u32_from_le_bytes(data.subrange(o + 81, o + 85)) as int;
                        if data.len() != o + 101 + n_pay {
                            None
                        } else {
                            Some(
                                MessageView {
                                    id: decode_utf8(id_bytes),
                                    source_chain: spec_u64_from_le_bytes(data.subrange(o, o + 8)),
                                    destination_chain: spec_u64_from_le_bytes(
                                        data.subrange(o + 8, o + 16),
                                    ),
                                    sender: data.subrange(o + 16, o + 48),
                                    recipient: data.subrange(o + 48, o + 80),
                                    message_type: mt,
                                    payload: data.subrange(o + 85, o + 85 + n_pay),
                                    nonce: spec_u64_from_le_bytes(
                                        data.subrange(o + 85 + n_pay, o + 93 + n_pay),
                                    ),
                                    timestamp: u64_as_i64(
                                        spec_u64_from_le_bytes(
                                            data.subrange(o + 93 + n_pay, o + 101 + n_pay),
                                        ),
                                    ),
                                },
                            )
                        }
                    },
                }
            }
        }
    }
}

/// Round-trip law: decoding the encoding of any well-formed message
/// yields that message again.
pub proof fn lemma_round_trip(v: MessageView)
    requires
        msg_wf(v),
    ensures
        spec_decode(spec_encode(v)) == Some(v),
{
    lemma_auto_spec_u32_to_from_le_bytes();
    lemma_auto_spec_u64_to_from_le_bytes();
    encode_utf8_valid_utf8(v.id);
    encode_utf8_decode_utf8(v.id);
    lemma_mt_round_trip(v.message_type);
    lemma_i64_u64_round_trip(v.timestamp);
    let e = spec_encode(v);
    let id_bytes = encode_utf8(v.id);
    let n_id = id_bytes.len() as int;
    let n_pay = v.payload.len() as int;
    let o = 4 + n_id;
    assert(e.len() == o + 101 + n_pay);
    assert(e.subrange(0, 4) =~= spec_u32_to_le_bytes(n_id as u32));
    assert(spec_u32_from_le_bytes(e.subrange(0, 4)) as int == n_id);
    assert(e.subrange(4, 4 + n_id) =~= id_bytes);
    assert(e[o + 80] == mt_to_byte(v.message_type));
    assert(e.subrange(o + 81, o + 85) =~= spec_u32_to_le_bytes(n_pay as u32));
    assert(spec_u32_from_le_bytes(e.subrange(o + 81, o + 85)) as int == n_pay);
    assert(e.subrange(o, o + 8) =~= spec_u64_to_le_bytes(v.source_chain));
    assert(e.subrange(o + 8, o + 16) =~= spec_u64_to_le_bytes(v.destination_chain));
    assert(e.subrange(o + 16, o + 48) =~= v.sender);
    assert(e.subrange(o + 48, o + 80) =~= v.recipient);
    assert(e.subrange(o + 85, o + 85 + n_pay) =~= v.payload);
    assert(e.subrange(o + 85 + n_pay, o + 93 + n_pay) =~= spec_u64_to_le_bytes(v.nonce));
    assert(e.subrange(o + 93 + n_pay, o + 101 + n_pay) =~= spec_u64_to_le_bytes(
        i64_as_u64(v.timestamp),
    ));
    assert(spec_decode(e) matches Some(w) && w =~= v);
}

/// A wire byte that names a kind is that kind's wire byte.
pub proof fn lemma_mt_byte_inverse(b: u8)
    ensures
        byte_to_mt(b) matches Some(mt) ==> mt_to_byte(mt) == b,
{
}

/// The two's-complement writing inverts the two's-complement reading.
pub proof fn lemma_u64_i64_round_trip(x: u64)
    ensures
        i64_as_u64(u64_as_i64(x)) == x,
{
}

/// Canonicity law: the encoding is canonical, so any byte string that
/// decodes at all is exactly the encoding of the message it decodes to.
#[verifier::rlimit(50)]
pub proof fn lemma_decode_canonical(data: Seq<u8>)
    ensures
        spec_decode(data) matches Some(v) ==> msg_wf(v) && spec_encode(v) == data,
{
    lemma_auto_spec_u32_to_from_le_bytes();
    lemma_auto_spec_u64_to_from_le_bytes();
    match spec_decode(data) {
        None => {},
        Some(v) => {
            let n_id = spec_u32_from_le_bytes(data.subrange(0, 4)) as int;
        let id_bytes = data.subrange(4, 4 + n_id);
        let o = 4 + n_id;
        let n_pay = spec_u32_from_le_bytes(data.subrange(o + 81, o + 85)) as int;
        vstd::utf8::decode_utf8_encode_utf8(id_bytes);
        assert(encode_utf8(v.id) == id_bytes);
        lemma_mt_byte_inverse(data[o + 80]);
        lemma_u64_i64_round_trip(spec_u64_from_le_bytes(data.subrange(o + 93 + n_pay, o + 101 + n_pay)));
        assert(spec_u32_to_le_bytes(n_id as u32) == data.subrange(0, 4));
        assert(spec_u32_to_le_bytes(n_pay as u32) == data.subrange(o + 81, o + 85));
        assert(spec_u64_to_le_bytes(v.source_chain) == data.subrange(o, o + 8));
        assert(spec_u64_to_le_bytes(v.destination_chain) == data.subrange(o + 8, o + 16));
        assert(spec_u64_to_le_bytes(v.nonce) == data.subrange(o + 85 + n_pay, o + 93 + n_pay));
        assert(spec_u64_to_le_bytes(i64_as_u64(v.timestamp)) == data.subrange(
            o + 93 + n_pay,
            o + 101 + n_pay,
        ));
        assert(seq![mt_to_byte(v.message_type)] =~= data.subrange(o + 80, o + 81));
        assert(spec_encode(v) =~= data);
        },
    }
}

/// Relies on String::from_utf8: it succeeds exactly on valid UTF-8, and
/// returns the character sequence those bytes encode.
#[verifier::external_body]
fn utf8_to_string(bytes: Vec<u8>) -> (r: Option<String>)
    ensures
        match r {
            Some(s) => valid_utf8(bytes@) && s@ == decode_utf8(bytes@),
            None => !valid_utf8(bytes@),
        },
{
    String::from_utf8(bytes).ok()
}

/// The 32 bytes at `pos`, as an identity.
fn read_identity(data: &[u8], pos: usize) -> (r: Identity)
    requires
        pos + 32 <= data@.len(),
        data@.len() <= usize::MAX,
    ensures
        r@ == data@.subrange(pos as int, pos as int + 32),
{
    let mut bytes: [u8; 32] = [0; 32];
    let mut i: usize = 0;
    while i < 32
        invariant
            pos + 32 <= data@.len() <= usize::MAX,
            0 <= i <= 32,
            bytes@.len() == 32,
            forall|j: int| 0 <= j < i ==> bytes@[j] == data@[pos + j],
        decreases 32 - i,
    {
        bytes[i] = *slice_index_get(data, pos + i);
        i += 1;
    }
    proof {
        assert(bytes@ =~= data@.subrange(pos as int, pos as int + 32));
    }
    Identity(bytes)
}

/// Serializes a message canonically, per the schema of `spec_encode`. A
/// message whose identifier or payload is too long for its four-byte
/// length prefix yields the empty byte string.
pub fn encode_bridge_message(message: &CrossChainMessage) -> (r: Vec<u8>)
    ensures
        msg_wf(message@) ==> r@ == spec_encode(message@),
        !msg_wf(message@) ==> r@ == Seq::<u8>::empty(),
{
    let mut id_bytes = message.id.as_str().as_bytes_vec();
    if id_bytes.len() > u32::MAX as usize {
        return Vec::new();
    }
    if message.payload.len() > u32::MAX as usize {
        return Vec::new();
    }
    let mut out: Vec<u8> = Vec::new();
    let mut piece = u32_to_le_bytes(id_bytes.len() as u32);
    out.append(&mut piece);
    out.append(&mut id_bytes);
    let mut piece = u64_to_le_bytes(message.source_chain);
    out.append(&mut piece);
    let mut piece = u64_to_le_bytes(message.destination_chain);
    out.append(&mut piece);
    let sender_bytes = message.sender.to_bytes();
    let mut piece = slice_to_vec(sender_bytes.as_slice());
    out.append(&mut piece);
    let recipient_bytes = message.recipient.to_bytes();
    let mut piece = slice_to_vec(recipient_bytes.as_slice());
    out.append(&mut piece);
    out.push(mt_to_byte_exec(message.message_type));
    let mut piece = u32_to_le_bytes(message.payload.len() as u32);
    out.append(&mut piece);
    let mut piece = slice_to_vec(message.payload.as_slice());
    out.append(&mut piece);
    let mut piece = u64_to_le_bytes(message.nonce);
    out.append(&mut piece);
    let mut piece = u64_to_le_bytes(i64_to_u64_exec(message.timestamp));
    out.append(&mut piece);
    proof {
        assert(out@ =~= spec_encode(message@));
    }
    out
}

/// The mathematical content of a hub configuration: what its codec
/// promises to carry faithfully.
#[verifier::ext_equal]
pub struct ConfigView {
    pub admin: Option<Seq<u8>>,
    pub bridge_authority: Option<Seq<u8>>,
    pub eidas_authority: Option<Seq<u8>>,
    pub arcium_program: Option<Seq<u8>>,
    pub supported_chains: Seq<u64>,
    pub min_cross_chain_amount: u64,
    pub max_cross_chain_amount: u64,
    pub fee_basis_points: u16,
    pub paused: bool,
}

/// The bytes of an optional identity.
pub open spec fn opt_identity_view(id: Option<Identity>) -> Option<Seq<u8>> {
    match id {
        Some(identity) => Some(identity@),
        None => None,
    }
}

/// The mathematical content of a hub configuration value.
pub open spec fn config_view(c: crate::hub::CrossChainConfig) -> ConfigView {
    ConfigView {
        admin: opt_identity_view(c.admin),
        bridge_authority: opt_identity_view(c.bridge_authority),
        eidas_authority: opt_identity_view(c.eidas_authority),
        arcium_program: opt_identity_view(c.arcium_program),
        supported_chains: c.supported_chains@,
        min_cross_chain_amount: c.min_cross_chain_amount,
        max_cross_chain_amount: c.max_cross_chain_amount,
        fee_basis_points: c.fee_basis_points,
        paused: c.paused,
    }
}

/// An optional identity on the wire: a one-byte discriminant, then the 32
/// bytes for a present identity.
pub open spec fn spec_encode_opt_identity(id: Option<Seq<u8>>) -> Seq<u8> {
    match id {
        None => seq![0u8],
        Some(bytes) => seq![1u8] + bytes,
    }
}

/// The structural parse of an optional identity at `pos`: the value and
/// the position after it.
pub open spec fn spec_decode_opt_identity(data: Seq<u8>, pos: int) -> Option<
    (Option<Seq<u8>>, int),
> {
    if pos + 1 > data.len() {
        None
    } else if data[pos] == 0 {
        Some((None, pos + 1))
    } else if data[pos] == 1 && pos + 33 <= data.len() {
        Some((Some(data.subrange(pos + 1, pos + 33)), pos + 33))
    } else {
        None
    }
}

/// A list of chain identifiers on the wire: the elements' little-endian
/// words, one after the other (the count stands before the list).
pub open spec fn spec_encode_u64_list(items: Seq<u64>) -> Seq<u8>
    decreases items.len(),
{
    if items.len() == 0 {
        Seq::empty()
    } else {
        spec_u64_to_le_bytes(items[0]) + spec_encode_u64_list(items.drop_first())
    }
}

/// Each element of a list encoding occupies eight bytes.
pub proof fn lemma_u64_list_len(items: Seq<u64>)
    ensures
        spec_encode_u64_list(items).len() == 8 * items.len(),
    decreases items.len(),
{
    lemma_auto_spec_u64_to_from_le_bytes();
    if items.len() > 0 {
        lemma_u64_list_len(items.drop_first());
    }
}

/// The structural parse of `n` chain identifiers at `pos`: the elements
/// and the position after them.
pub open spec fn spec_decode_u64_list(data: Seq<u8>, pos: int, n: nat) -> Option<(Seq<u64>, int)>
    decreases n,
{
    if n == 0 {
        Some((Seq::empty(), pos))
    } else if pos + 8 <= data.len() {
        match spec_decode_u64_list(data, pos + 8, (n - 1) as nat) {
            Some((rest, end)) => Some(
                (seq![spec_u64_from_le_bytes(data.subrange(pos, pos + 8))] + rest, end),
            ),
            None => None,
        }
    } else {
        None
    }
}

/// Parsing eight-byte words recovers exactly the items whose words stand
/// in the buffer.
pub proof fn lemma_u64_list_decode(data: Seq<u8>, pos: int, items: Seq<u64>)
    requires
        0 <= pos,
        pos + 8 * items.len() <= data.len(),
        forall|j: int|
            0 <= j < items.len() ==> items[j] == spec_u64_from_le_bytes(
                #[trigger] data.subrange(pos + 8 * j, pos + 8 * j + 8),
            ),
    ensures
        spec_decode_u64_list(data, pos, items.len() as nat) == Some(
            (items, pos + 8 * items.len()),
        ),
    decreases items.len(),
{
    if items.len() > 0 {
        let tail = items.drop_first();
        assert forall|j: int| 0 <= j < tail.len() implies tail[j] == spec_u64_from_le_bytes(
            #[trigger] data.subrange(pos + 8 + 8 * j, pos + 8 + 8 * j + 8),
        ) by {
            assert(tail[j] == items[j + 1]);
            assert(data.subrange(pos + 8 + 8 * j, pos + 8 + 8 * j + 8) == data.subrange(
                pos + 8 * (j + 1),
                pos + 8 * (j + 1) + 8,
            ));
        }
        lemma_u64_list_decode(data, pos + 8, tail);
        assert(items[0] == spec_u64_from_le_bytes(data.subrange(pos + 8 * 0, pos + 8 * 0 + 8)));
        assert(data.subrange(pos + 8 * 0, pos + 8 * 0 + 8) == data.subrange(pos, pos + 8));
        assert(seq![items[0]] + tail =~= items);
    }
}

/// Whether a configuration fits the wire schema: identities carry 32
/// bytes and the chain list fits its four-byte count.
pub open spec fn config_wf(v: ConfigView) -> bool {
    &&& (v.admin matches Some(b) ==> b.len() == 32)
    &&& (v.bridge_authority matches Some(b) ==> b.len() == 32)
    &&& (v.eidas_authority matches Some(b) ==> b.len() == 32)
    &&& (v.arcium_program matches Some(b) ==> b.len() == 32)
    &&& v.supported_chains.len() <= u32::MAX
}

/// The canonical encoding of a hub configuration: the four optional
/// authorities, the counted chain list, the transfer window, the fee in
/// basis points, and the paused flag.
pub open spec fn spec_encode_config(v: ConfigView) -> Seq<u8> {
    spec_encode_opt_identity(v.admin) + spec_encode_opt_identity(v.bridge_authority)
        + spec_encode_opt_identity(v.eidas_authority) + spec_encode_opt_identity(v.arcium_program)
        + spec_u32_to_le_bytes(v.supported_chains.len() as u32) + spec_encode_u64_list(
        v.supported_chains,
    ) + spec_u64_to_le_bytes(v.min_cross_chain_amount) + spec_u64_to_le_bytes(
        v.max_cross_chain_amount,
    ) + spec_u16_to_le_bytes(v.fee_basis_points) + seq![
        if v.paused {
            1u8
        } else {
            0u8
        },
    ]
}

/// The structural parse of a configuration encoding.
pub open spec fn spec_decode_config(data: Seq<u8>) -> Option<ConfigView> {
    match spec_decode_opt_identity(data, 0) {
        None => None,
        Some((admin, p1)) => match spec_decode_opt_identity(data, p1) {
            None => None,
            Some((bridge_authority, p2)) => match spec_decode_opt_identity(data, p2) {
                None => None,
                Some((eidas_authority, p3)) => match spec_decode_opt_identity(data, p3) {
                    None => None,
                    Some((arcium_program, p4)) => {
                        if p4 + 4 > data.len() {
                            None
                        } else {
                            let n = spec_u32_from_le_bytes(data.subrange(p4, p4 + 4)) as int;
                            match spec_decode_u64_list(data, p4 + 4, n as nat) {
                                None => None,
                                Some((supported_chains, p5)) => {
                                    if data.len() != p5 + 19 {
                                        None
                                    } else if data[p5 + 18] != 0 && data[p5 + 18] != 1 {
                                        None
                                    } else {
                                        Some(
                                            ConfigView {
                                                admin,
                                                bridge_authority,
                                                eidas_authority,
                                                arcium_program,
                                                supported_chains,
                                                min_cross_chain_amount: spec_u64_from_le_bytes(
                                                    data.subrange(p5, p5 + 8),
                                                ),
                                                max_cross_chain_amount: spec_u64_from_le_bytes(
                                                    data.subrange(p5 + 8, p5 + 16),
                                                ),
                                                fee_basis_points: spec_u16_from_le_bytes(
                                                    data.subrange(p5 + 16, p5 + 18),
                                                ),
                                                paused: data[p5 + 18] == 1,
                                            },
                                        )
                                    }
                                },
                            }
                        }
                    },
                },
            },
        },
    }
}

/// Round-trip law: decoding the encoding of any well-formed configuration
/// yields that configuration again.
#[verifier::rlimit(50)]
pub proof fn lemma_config_round_trip(v: ConfigView)
    requires
        config_wf(v),
    ensures
        spec_decode_config(spec_encode_config(v)) == Some(v),
{
    lemma_auto_spec_u16_to_from_le_bytes();
    lemma_auto_spec_u32_to_from_le_bytes();
    lemma_auto_spec_u64_to_from_le_bytes();
    lemma_u64_list_len(v.supported_chains);
    let e = spec_encode_config(v);
    let a = spec_encode_opt_identity(v.admin).len() as int;
    let b = a + spec_encode_opt_identity(v.bridge_authority).len() as int;
    let c = b + spec_encode_opt_identity(v.eidas_authority).len() as int;
    let p4 = c + spec_encode_opt_identity(v.arcium_program).len() as int;
    let n = v.supported_chains.len() as int;
    let p5 = p4 + 4 + 8 * n;
    assert(e.len() == p5 + 19);
    assert(spec_decode_opt_identity(e, 0) == Some((v.admin, a))) by {
        match v.admin {
            Some(bytes) => {
                assert(e[0] == 1);
                assert(e.subrange(1, 33) =~= bytes);
            },
            None => {
                assert(e[0] == 0);
            },
        }
    }
    assert(spec_decode_opt_identity(e, a) == Some((v.bridge_authority, b))) by {
        match v.bridge_authority {
            Some(bytes) => {
                assert(e[a] == 1);
                assert(e.subrange(a + 1, a + 33) =~= bytes);
            },
            None => {
                assert(e[a] == 0);
            },
        }
    }
    assert(spec_decode_opt_identity(e, b) == Some((v.eidas_authority, c))) by {
        match v.eidas_authority {
            Some(bytes) => {
                assert(e[b] == 1);
                assert(e.subrange(b + 1, b + 33) =~= bytes);
            },
            None => {
                assert(e[b] == 0);
            },
        }
    }
    assert(spec_decode_opt_identity(e, c) == Some((v.arcium_program, p4))) by {
        match v.arcium_program {
            Some(bytes) => {
                assert(e[c] == 1);
                assert(e.subrange(c + 1, c + 33) =~= bytes);
            },
            None => {
                assert(e[c] == 0);
            },
        }
    }
    assert(e.subrange(p4, p4 + 4) =~= spec_u32_to_le_bytes(n as u32));
    assert(spec_u32_from_le_bytes(e.subrange(p4, p4 + 4)) as int == n);
    assert forall|j: int| 0 <= j < n implies v.supported_chains[j] == spec_u64_from_le_bytes(
        #[trigger] e.subrange(p4 + 4 + 8 * j, p4 + 4 + 8 * j + 8),
    ) by {
        lemma_u64_list_index(v.supported_chains, j);
        assert(e.subrange(p4 + 4 + 8 * j, p4 + 4 + 8 * j + 8) =~= spec_encode_u64_list(
            v.supported_chains,
        ).subrange(8 * j, 8 * j + 8));
    }
    lemma_u64_list_decode(e, p4 + 4, v.supported_chains);
    assert(e.subrange(p5, p5 + 8) =~= spec_u64_to_le_bytes(v.min_cross_chain_amount));
    assert(e.subrange(p5 + 8, p5 + 16) =~= spec_u64_to_le_bytes(v.max_cross_chain_amount));
    assert(e.subrange(p5 + 16, p5 + 18) =~= spec_u16_to_le_bytes(v.fee_basis_points));
    assert(e[p5 + 18] == if v.paused { 1u8 } else { 0u8 });
    assert(spec_decode_config(e) matches Some(w) && w =~= v);
}

/// The eight bytes at slot `j` of a list encoding are the word of item
/// `j`.
pub proof fn lemma_u64_list_index(items: Seq<u64>, j: int)
    requires
        0 <= j < items.len(),
    ensures
        spec_encode_u64_list(items).subrange(8 * j, 8 * j + 8) == spec_u64_to_le_bytes(items[j]),
    decreases j,
{
    lemma_auto_spec_u64_to_from_le_bytes();
    lemma_u64_list_len(items);
    lemma_u64_list_len(items.drop_first());
    if j == 0 {
        assert(spec_encode_u64_list(items).subrange(0, 8) =~= spec_u64_to_le_bytes(items[0]));
    } else {
        lemma_u64_list_index(items.drop_first(), j - 1);
        assert(spec_encode_u64_list(items).subrange(8 * j, 8 * j + 8) =~= spec_encode_u64_list(
            items.drop_first(),
        ).subrange(8 * (j - 1), 8 * (j - 1) + 8));
        assert(items.drop_first()[j - 1] == items[j]);
    }
}

/// Appending one item to a list encoding appends its word.
pub proof fn lemma_u64_list_snoc(items: Seq<u64>, i: int)
    requires
        0 <= i < items.len(),
    ensures
        spec_encode_u64_list(items.take(i + 1)) == spec_encode_u64_list(items.take(i))
            + spec_u64_to_le_bytes(items[i]),
    decreases i,
{
    if i == 0 {
        assert(items.take(1) =~= seq![items[0]]);
        assert(items.take(1).drop_first() =~= Seq::<u64>::empty());
        assert(items.take(0) =~= Seq::<u64>::empty());
        assert(spec_encode_u64_list(items.take(1)) =~= spec_encode_u64_list(items.take(0))
            + spec_u64_to_le_bytes(items[0]));
    } else {
        let tail = items.drop_first();
        lemma_u64_list_snoc(tail, i - 1);
        assert(items.take(i + 1).drop_first() =~= tail.take(i));
        assert(items.take(i).drop_first() =~= tail.take(i - 1));
        assert(items.take(i + 1)[0] == items[0]);
        assert(items.take(i)[0] == items[0]);
        assert(spec_encode_u64_list(items.take(i + 1)) == spec_u64_to_le_bytes(items[0])
            + spec_encode_u64_list(tail.take(i)));
        assert(tail[i - 1] == items[i]);
        assert(spec_u64_to_le_bytes(items[0]) + (spec_encode_u64_list(tail.take(i - 1))
            + spec_u64_to_le_bytes(items[i])) =~= (spec_u64_to_le_bytes(items[0])
            + spec_encode_u64_list(tail.take(i - 1))) + spec_u64_to_le_bytes(items[i]));
        assert(spec_encode_u64_list(items.take(i)) == spec_u64_to_le_bytes(items[0])
            + spec_encode_u64_list(tail.take(i - 1)));
    }
}

/// Serializes a hub configuration canonically; one whose chain list is
/// too long for its four-byte count yields the empty byte string.
pub fn encode_cross_chain_config(config: &crate::hub::CrossChainConfig) -> (r: Vec<u8>)
    ensures
        config_wf(config_view(*config)) ==> r@ == spec_encode_config(config_view(*config)),
        !config_wf(config_view(*config)) ==> r@ == Seq::<u8>::empty(),
{
    if config.supported_chains.len() > u32::MAX as usize {
        return Vec::new();
    }
    let mut out: Vec<u8> = Vec::new();
    push_opt_identity(&mut out, &config.admin);
    push_opt_identity(&mut out, &config.bridge_authority);
    push_opt_identity(&mut out, &config.eidas_authority);
    push_opt_identity(&mut out, &config.arcium_program);
    let mut piece = u32_to_le_bytes(config.supported_chains.len() as u32);
    out.append(&mut piece);
    let n = config.supported_chains.len();
    let mut i: usize = 0;
    let ghost list_start = out@;
    while i < n
        invariant
            n == config.supported_chains@.len(),
            0 <= i <= n,
            out@ == list_start + spec_encode_u64_list(config.supported_chains@.take(i as int)),
        decreases n - i,
    {
        let mut word = u64_to_le_bytes(config.supported_chains[i]);
        out.append(&mut word);
        proof {
            lemma_u64_list_snoc(config.supported_chains@, i as int);
        }
        i += 1;
    }
    proof {
        assert(config.supported_chains@.take(n as int) =~= config.supported_chains@);
    }
    let mut piece = u64_to_le_bytes(config.min_cross_chain_amount);
    out.append(&mut piece);
    let mut piece = u64_to_le_bytes(config.max_cross_chain_amount);
    out.append(&mut piece);
    let mut piece = u16_to_le_bytes(config.fee_basis_points);
    out.append(&mut piece);
    out.push(if config.paused { 1 } else { 0 });
    proof {
        assert(out@ =~= spec_encode_config(config_view(*config)));
    }
    out
}

fn push_opt_identity(out: &mut Vec<u8>, id: &Option<Identity>)
    ensures
        final(out)@ == old(out)@ + spec_encode_opt_identity(opt_identity_view(*id)),
{
    match id {
        None => {
            out.push(0);
            proof {
                assert(out@ =~= old(out)@ + spec_encode_opt_identity(
                    opt_identity_view(None::<Identity>),
                ));
            }
        },
        Some(identity) => {
            out.push(1);
            let bytes = identity.to_bytes();
            let mut piece = slice_to_vec(bytes.as_slice());
            out.append(&mut piece);
            proof {
                assert(out@ =~= old(out)@ + spec_encode_opt_identity(Some(identity@)));
            }
        },
    }
}

fn read_opt_identity(data: &[u8], pos: usize) -> (r: Option<(Option<Identity>, usize)>)
    requires
        pos <= data@.len() <= usize::MAX,
    ensures
        match r {
            Some((id, end)) => spec_decode_opt_identity(data@, pos as int) == Some(
                (opt_identity_view(id), end as int),
            ) && pos < end <= data@.len(),
            None => spec_decode_opt_identity(data@, pos as int) is None,
        },
{
    if pos >= data.len() {
        return None;
    }
    let tag = *slice_index_get(data, pos);
    if tag == 0 {
        Some((None, pos + 1))
    } else if tag == 1 && data.len() - pos >= 33 {
        let identity = read_identity(data, pos + 1);
        Some((Some(identity), pos + 33))
    } else {
        None
    }
}

/// Parses a hub configuration; any input that is not exactly the
/// canonical encoding of some configuration is refused as Malformed.
pub fn decode_cross_chain_config(data: &[u8]) -> (r: Result<
    crate::hub::CrossChainConfig,
    CodecError,
>)
    ensures
        r matches Ok(c) ==> spec_decode_config(data@) == Some(config_view(c)),
        r is Err ==> spec_decode_config(data@) is None && r == Err::<
            crate::hub::CrossChainConfig,
            CodecError,
        >(CodecError::Malformed),
{
    let len = data.len();
    let (admin, p1) = match read_opt_identity(data, 0) {
        Some(found) => found,
        None => {
            return Err(CodecError::Malformed);
        },
    };
    let (bridge_authority, p2) = match read_opt_identity(data, p1) {
        Some(found) => found,
        None => {
            return Err(CodecError::Malformed);
        },
    };
    let (eidas_authority, p3) = match read_opt_identity(data, p2) {
        Some(found) => found,
        None => {
            return Err(CodecError::Malformed);
        },
    };
    let (arcium_program, p4) = match read_opt_identity(data, p3) {
        Some(found) => found,
        None => {
            return Err(CodecError::Malformed);
        },
    };
    if len - p4 < 4 {
        return Err(CodecError::Malformed);
    }
    let n_word = u32_from_le_bytes(slice_subrange(data, p4, p4 + 4));
    let n = n_word as usize;
    if ((len - p4 - 4) as u64) < 8u64 * (n as u64) {
        proof {
            lemma_u64_list_too_short(data@, p4 as int + 4, n as nat);
        }
        return Err(CodecError::Malformed);
    }
    let mut supported_chains: Vec<u64> = Vec::new();
    let mut i: usize = 0;
    let list_start = p4 + 4;
    while i < n
        invariant
            supported_chains@.len() == i,
            0 <= i <= n,
            list_start + 8 * n <= data@.len() <= usize::MAX,
            forall|j: int|
                0 <= j < i ==> supported_chains@[j] == spec_u64_from_le_bytes(
                    #[trigger] data@.subrange(
                        list_start + 8 * j,
                        list_start + 8 * j + 8,
                    ),
                ),
        decreases n - i,
    {
        let word = u64_from_le_bytes(slice_subrange(data, list_start + 8 * i, list_start + 8 * i + 8));
        supported_chains.push(word);
        i += 1;
    }
    proof {
        lemma_u64_list_decode(data@, list_start as int, supported_chains@);
    }
    let p5 = list_start + 8 * n;
    if (len as u64) != (p5 as u64) + 19u64 {
        return Err(CodecError::Malformed);
    }
    let min_cross_chain_amount = u64_from_le_bytes(slice_subrange(data, p5, p5 + 8));
    let max_cross_chain_amount = u64_from_le_bytes(slice_subrange(data, p5 + 8, p5 + 16));
    let fee_basis_points = u16_from_le_bytes(slice_subrange(data, p5 + 16, p5 + 18));
    let paused_byte = *slice_index_get(data, p5 + 18);
    if paused_byte != 0 && paused_byte != 1 {
        return Err(CodecError::Malformed);
    }
    let config = crate::hub::CrossChainConfig {
        admin,
        bridge_authority,
        eidas_authority,
        arcium_program,
        supported_chains,
        min_cross_chain_amount,
        max_cross_chain_amount,
        fee_basis_points,
        paused: paused_byte == 1,
    };
    proof {
        assert(spec_decode_config(data@) matches Some(w) && w =~= config_view(config));
    }
    Ok(config)
}

/// A buffer too short for `n` eight-byte words parses to nothing.
pub proof fn lemma_u64_list_too_short(data: Seq<u8>, pos: int, n: nat)
    requires
        0 <= pos <= data.len(),
        pos + 8 * n > data.len(),
    ensures
        spec_decode_u64_list(data, pos, n) is None,
    decreases n,
{
    if n > 0 && pos + 8 <= data.len() {
        lemma_u64_list_too_short(data, pos + 8, (n - 1) as nat);
    }
}

/// The canonical encoding of a wallet registration record: each byte
/// string is length-prefixed with a four-byte little-endian count.
pub open spec fn spec_encode_wallet_data(public_key: Seq<u8>, metadata: Seq<u8>) -> Seq<u8> {
    spec_u32_to_le_bytes(public_key.len() as u32) + public_key + spec_u32_to_le_bytes(
        metadata.len() as u32,
    ) + metadata
}

/// The structural parse of a wallet registration record.
pub open spec fn spec_decode_wallet_data(data: Seq<u8>) -> Option<(Seq<u8>, Seq<u8>)> {
    if data.len() < 8 {
        None
    } else {
        let n_pk = spec_u32_from_le_bytes(data.subrange(0, 4)) as int;
        if data.len() < 8 + n_pk {
            None
        } else {
            let public_key = data.subrange(4, 4 + n_pk);
            let n_md = spec_u32_from_le_bytes(data.subrange(4 + n_pk, 8 + n_pk)) as int;
            if data.len() != 8 + n_pk + n_md {
                None
            } else {
                Some((public_key, data.subrange(8 + n_pk, 8 + n_pk + n_md)))
            }
        }
    }
}

/// Round-trip law for wallet registration records.
pub proof fn lemma_wallet_data_round_trip(public_key: Seq<u8>, metadata: Seq<u8>)
    requires
        public_key.len() <= u32::MAX,
        metadata.len() <= u32::MAX,
    ensures
        spec_decode_wallet_data(spec_encode_wallet_data(public_key, metadata)) == Some(
            (public_key, metadata),
        ),
{
    lemma_auto_spec_u32_to_from_le_bytes();
    let e = spec_encode_wallet_data(public_key, metadata);
    let n_pk = public_key.len() as int;
    let n_md = metadata.len() as int;
    assert(e.subrange(0, 4) =~= spec_u32_to_le_bytes(n_pk as u32));
    assert(e.subrange(4, 4 + n_pk) =~= public_key);
    assert(e.subrange(4 + n_pk, 8 + n_pk) =~= spec_u32_to_le_bytes(n_md as u32));
    assert(e.subrange(8 + n_pk, 8 + n_pk + n_md) =~= metadata);
}

/// Serializes a wallet registration record; one whose byte strings are
/// too long for their length prefixes yields the empty byte string.
pub fn encode_wallet_data(wallet_data: &crate::wallet::WalletData) -> (r: Vec<u8>)
    ensures
        wallet_data.public_key@.len() <= u32::MAX && wallet_data.metadata@.len() <= u32::MAX
            ==> r@ == spec_encode_wallet_data(wallet_data.public_key@, wallet_data.metadata@),
        !(wallet_data.public_key@.len() <= u32::MAX && wallet_data.metadata@.len() <= u32::MAX)
            ==> r@ == Seq::<u8>::empty(),
{
    if wallet_data.public_key.len() > u32::MAX as usize || wallet_data.metadata.len()
        > u32::MAX as usize {
        return Vec::new();
    }
    let mut out: Vec<u8> = Vec::new();
    let mut piece = u32_to_le_bytes(wallet_data.public_key.len() as u32);
    out.append(&mut piece);
    let mut piece = slice_to_vec(wallet_data.public_key.as_slice());
    out.append(&mut piece);
    let mut piece = u32_to_le_bytes(wallet_data.metadata.len() as u32);
    out.append(&mut piece);
    let mut piece = slice_to_vec(wallet_data.metadata.as_slice());
    out.append(&mut piece);
    proof {
        assert(out@ =~= spec_encode_wallet_data(wallet_data.public_key@, wallet_data.metadata@));
    }
    out
}

/// Parses a wallet registration record; any input that is not exactly
/// such an encoding is refused as Malformed.
pub fn decode_wallet_data(data: &[u8]) -> (r: Result<crate::wallet::WalletData, CodecError>)
    ensures
        r matches Ok(d) ==> spec_decode_wallet_data(data@) == Some((d.public_key@, d.metadata@)),
        r is Err ==> spec_decode_wallet_data(data@) is None && r == Err::<
            crate::wallet::WalletData,
            CodecError,
        >(CodecError::Malformed),
{
    let len = data.len();
    if len < 8 {
        return Err(CodecError::Malformed);
    }
    let n_pk_word = u32_from_le_bytes(slice_subrange(data, 0, 4));
    let n_pk = n_pk_word as usize;
    if (len as u64) < 8u64 + (n_pk as u64) {
        return Err(CodecError::Malformed);
    }
    let public_key = slice_to_vec(slice_subrange(data, 4, 4 + n_pk));
    let n_md_word = u32_from_le_bytes(slice_subrange(data, 4 + n_pk, 8 + n_pk));
    let n_md = n_md_word as usize;
    if (len as u64) != 8u64 + (n_pk as u64) + (n_md as u64) {
        return Err(CodecError::Malformed);
    }
    let metadata = slice_to_vec(slice_subrange(data, 8 + n_pk, 8 + n_pk + n_md));
    Ok(crate::wallet::WalletData { public_key, metadata })
}

/// The canonical encoding of a transaction-signature request: the hash is
/// length-prefixed, the recipient is its 32 raw bytes, and the integers
/// are little-endian.
pub open spec fn spec_encode_signature_data(
    transaction_hash: Seq<u8>,
    amount: u64,
    recipient: Seq<u8>,
    source_chain: u64,
    destination_chain: u64,
    nonce: u64,
) -> Seq<u8> {
    spec_u32_to_le_bytes(transaction_hash.len() as u32) + transaction_hash + spec_u64_to_le_bytes(
        amount,
    ) + recipient + spec_u64_to_le_bytes(source_chain) + spec_u64_to_le_bytes(destination_chain)
        + spec_u64_to_le_bytes(nonce)
}

/// The structural parse of a transaction-signature request: the hash,
/// amount, recipient, source chain, destination chain and nonce.
pub open spec fn spec_decode_signature_data(data: Seq<u8>) -> Option<
    (Seq<u8>, u64, Seq<u8>, u64, u64, u64),
> {
    if data.len() < 68 {
        None
    } else {
        let n_hash = spec_u32_from_le_bytes(data.subrange(0, 4)) as int;
        if data.len() != 68 + n_hash {
            None
        } else {
            let o = 4 + n_hash;
            Some(
                (
                    data.subrange(4, 4 + n_hash),
                    spec_u64_from_le_bytes(data.subrange(o, o + 8)),
                    data.subrange(o + 8, o + 40),
                    spec_u64_from_le_bytes(data.subrange(o + 40, o + 48)),
                    spec_u64_from_le_bytes(data.subrange(o + 48, o + 56)),
                    spec_u64_from_le_bytes(data.subrange(o + 56, o + 64)),
                ),
            )
        }
    }
}

/// Round-trip law for transaction-signature requests.
pub proof fn lemma_signature_data_round_trip(
    transaction_hash: Seq<u8>,
    amount: u64,
    recipient: Seq<u8>,
    source_chain: u64,
    destination_chain: u64,
    nonce: u64,
)
    requires
        transaction_hash.len() <= u32::MAX,
        recipient.len() == 32,
    ensures
        spec_decode_signature_data(
            spec_encode_signature_data(
                transaction_hash,
                amount,
                recipient,
                source_chain,
                destination_chain,
                nonce,
            ),
        ) == Some((transaction_hash, amount, recipient, source_chain, destination_chain, nonce)),
{
    lemma_auto_spec_u32_to_from_le_bytes();
    lemma_auto_spec_u64_to_from_le_bytes();
    let e = spec_encode_signature_data(
        transaction_hash,
        amount,
        recipient,
        source_chain,
        destination_chain,
        nonce,
    );
    let n_hash = transaction_hash.len() as int;
    let o = 4 + n_hash;
    assert(e.subrange(0, 4) =~= spec_u32_to_le_bytes(n_hash as u32));
    assert(e.subrange(4, 4 + n_hash) =~= transaction_hash);
    assert(e.subrange(o, o + 8) =~= spec_u64_to_le_bytes(amount));
    assert(e.subrange(o + 8, o + 40) =~= recipient);
    assert(e.subrange(o + 40, o + 48) =~= spec_u64_to_le_bytes(source_chain));
    assert(e.subrange(o + 48, o + 56) =~= spec_u64_to_le_bytes(destination_chain));
    assert(e.subrange(o + 56, o + 64) =~= spec_u64_to_le_bytes(nonce));
}

/// Serializes a transaction-signature request; one whose hash is too long
/// for its length prefix yields the empty byte string.
pub fn encode_signature_data(sig_data: &crate::wallet::TransactionSignatureData) -> (r: Vec<u8>)
    ensures
        sig_data.transaction_hash@.len() <= u32::MAX ==> r@ == spec_encode_signature_data(
            sig_data.transaction_hash@,
            sig_data.amount,
            sig_data.recipient@,
            sig_data.source_chain,
            sig_data.destination_chain,
            sig_data.nonce,
        ),
        sig_data.transaction_hash@.len() > u32::MAX ==> r@ == Seq::<u8>::empty(),
{
    if sig_data.transaction_hash.len() > u32::MAX as usize {
        return Vec::new();
    }
    let mut out: Vec<u8> = Vec::new();
    let mut piece = u32_to_le_bytes(sig_data.transaction_hash.len() as u32);
    out.append(&mut piece);
    let mut piece = slice_to_vec(sig_data.transaction_hash.as_slice());
    out.append(&mut piece);
    let mut piece = u64_to_le_bytes(sig_data.amount);
    out.append(&mut piece);
    let recipient_bytes = sig_data.recipient.to_bytes();
    let mut piece = slice_to_vec(recipient_bytes.as_slice());
    out.append(&mut piece);
    let mut piece = u64_to_le_bytes(sig_data.source_chain);
    out.append(&mut piece);
    let mut piece = u64_to_le_bytes(sig_data.destination_chain);
    out.append(&mut piece);
    let mut piece = u64_to_le_bytes(sig_data.nonce);
    out.append(&mut piece);
    proof {
        assert(out@ =~= spec_encode_signature_data(
            sig_data.transaction_hash@,
            sig_data.amount,
            sig_data.recipient@,
            sig_data.source_chain,
            sig_data.destination_chain,
            sig_data.nonce,
        ));
    }
    out
}

/// Parses a transaction-signature request; any input that is not exactly
/// such an encoding is refused as Malformed.
pub fn decode_signature_data(data: &[u8]) -> (r: Result<
    crate::wallet::TransactionSignatureData,
    CodecError,
>)
    ensures
        r matches Ok(d) ==> spec_decode_signature_data(data@) == Some(
            (
                d.transaction_hash@,
                d.amount,
                d.recipient@,
                d.source_chain,
                d.destination_chain,
                d.nonce,
            ),
        ),
        r is Err ==> spec_decode_signature_data(data@) is None && r == Err::<
            crate::wallet::TransactionSignatureData,
            CodecError,
        >(CodecError::Malformed),
{
    let len = data.len();
    if len < 68 {
        return Err(CodecError::Malformed);
    }
    let n_hash_word = u32_from_le_bytes(slice_subrange(data, 0, 4));
    let n_hash = n_hash_word as usize;
    if (len as u64) != 68u64 + (n_hash as u64) {
        return Err(CodecError::Malformed);
    }
    let transaction_hash = slice_to_vec(slice_subrange(data, 4, 4 + n_hash));
    let o = 4 + n_hash;
    let amount = u64_from_le_bytes(slice_subrange(data, o, o + 8));
    let recipient = read_identity(data, o + 8);
    let source_chain = u64_from_le_bytes(slice_subrange(data, o + 40, o + 48));
    let destination_chain = u64_from_le_bytes(slice_subrange(data, o + 48, o + 56));
    let nonce = u64_from_le_bytes(slice_subrange(data, o + 56, o + 64));
    Ok(
        crate::wallet::TransactionSignatureData {
            transaction_hash,
            amount,
            recipient,
            source_chain,
            destination_chain,
            nonce,
        },
    )
}

/// Parses a canonical encoding back into a message; any input that is not
/// exactly the encoding of some well-formed message is refused as
/// Malformed.
pub fn decode_bridge_message(data: &[u8]) -> (r: Result<CrossChainMessage, CodecError>)
    ensures
        r matches Ok(m) ==> spec_decode(data@) == Some(m@),
        r is Err ==> spec_decode(data@) is None && r == Err::<CrossChainMessage, CodecError>(
            CodecError::Malformed,
        ),
{
    let len = data.len();
    if len < 4 {
        return Err(CodecError::Malformed);
    }
    let n_id_word = u32_from_le_bytes(slice_subrange(data, 0, 4));
    let n_id = n_id_word as usize;
    if (len as u64) < 105u64 + (n_id as u64) {
        return Err(CodecError::Malformed);
    }
    let id_vec = slice_to_vec(slice_subrange(data, 4, 4 + n_id));
    let id = match utf8_to_string(id_vec) {
        Some(s) => s,
        None => {
            return Err(CodecError::Malformed);
        },
    };
    let o = 4 + n_id;
    let source_chain = u64_from_le_bytes(slice_subrange(data, o, o + 8));
    let destination_chain = u64_from_le_bytes(slice_subrange(data, o + 8, o + 16));
    let sender = read_identity(data, o + 16);
    let recipient = read_identity(data, o + 48);
    let mt_byte = *slice_index_get(data, o + 80);
    let message_type = match byte_to_mt_exec(mt_byte) {
        Some(mt) => mt,
        None => {
            return Err(CodecError::Malformed);
        },
    };
    let n_pay_word = u32_from_le_bytes(slice_subrange(data, o + 81, o + 85));
    let n_pay = n_pay_word as usize;
    if (len as u64) != (o as u64) + 101u64 + (n_pay as u64) {
        return Err(CodecError::Malformed);
    }
    let payload = slice_to_vec(slice_subrange(data, o + 85, o + 85 + n_pay));
    let nonce = u64_from_le_bytes(slice_subrange(data, o + 85 + n_pay, o + 93 + n_pay));
    let ts_word = u64_from_le_bytes(slice_subrange(data, o + 93 + n_pay, o + 101 + n_pay));
    let timestamp = u64_to_i64_exec(ts_word);
    let message = CrossChainMessage {
        id,
        source_chain,
        destination_chain,
        sender,
        recipient,
        message_type,
        payload,
        nonce,
        timestamp,
    };
    proof {
        assert(spec_decode(data@) matches Some(w) && w =~= message@);
    }
    Ok(message)
}

} // verus!
