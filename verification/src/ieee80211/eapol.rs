//! EAPOL-Key PDU parsing and building (IEEE 802.1X-2010 §11.9).
//!
//! These operate on the raw 802.1X (EAPOL) PDU starting at the protocol
//! version byte, without any Ethernet header. This matches the frame format
//! used by control-port-over-nl80211, where the source MAC and EtherType are
//! carried in separate netlink attributes. The 4-way handshake MIC is also
//! computed over this exact PDU (with the MIC field zeroed).

use vstd::prelude::*;
use vstd::string::*;

use crate::bytes;
use crate::text;

verus! {

pub const EAPOL_VERSION: u8 = 2;

pub const EAPOL_TYPE_EAP: u8 = 0;

pub const EAPOL_TYPE_KEY: u8 = 3;

pub const EAPOL_KEY_DESCRIPTOR_RSN: u8 = 2;

// Offsets within the EAPOL-Key PDU (from the version byte).
const EAPOL_HDR_LEN: usize = 4;

const OFF_KEY_INFO: usize = 5;

const OFF_KEY_LEN: usize = 7;

const OFF_REPLAY: usize = 9;

const OFF_NONCE: usize = 17;

const OFF_IV: usize = 49;

const OFF_RSC: usize = 65;

const OFF_ID: usize = 73;

/// Offset of the MIC field.
pub const OFF_MIC: usize = 81;

const OFF_DATA_LEN: usize = 97;

/// Length of the fixed part of the PDU, after which the key data stands.
pub const OFF_DATA: usize = 99;

/// Length of the fixed part after the EAPOL header.
const KEY_DESC_HDR_LEN: usize = 95;

// Key Information bits (16-bit field, big-endian on the wire).
pub const KEY_INFO_DESC_TYPE_MASK: u16 = 0x0007;

pub const KEY_INFO_PAIRWISE: u16 = 0x0008;

pub const KEY_INFO_INSTALL: u16 = 0x0040;

pub const KEY_INFO_ACK: u16 = 0x0080;

pub const KEY_INFO_MIC: u16 = 0x0100;

pub const KEY_INFO_SECURE: u16 = 0x0200;

pub const KEY_INFO_ERROR: u16 = 0x0400;

pub const KEY_INFO_REQUEST: u16 = 0x0800;

pub const KEY_INFO_ENCRYPTED_DATA: u16 = 0x1000;

/// EAPOL-Key frame parsed fields.
#[derive(Debug, Clone)]
pub struct EapolKeyFrame {
    pub key_info: u16,
    pub key_len: u16,
    pub replay_counter: u64,
    pub key_nonce: [u8; 32],
    pub key_iv: [u8; 16],
    pub key_rsc: [u8; 8],
    pub key_id: [u8; 8],
    pub key_mic: [u8; 16],
    pub key_data: Vec<u8>,
    /// The full received PDU bytes (version byte onwards).
    pub raw: Vec<u8>,
}

/// Whether a PDU is an RSN EAPOL-Key PDU with its fixed part complete.
pub open spec fn is_key_pdu(pdu: Seq<u8>) -> bool {
    &&& pdu.len() >= OFF_DATA
    &&& pdu[1] == EAPOL_TYPE_KEY
    &&& pdu[4] == EAPOL_KEY_DESCRIPTOR_RSN
}

/// The key data of a key PDU: as many octets as its length field says, none
/// where the PDU is shorter than that.
pub open spec fn key_data_of(pdu: Seq<u8>) -> Seq<u8> {
    let n = bytes::be16(pdu[97], pdu[98]);
    if OFF_DATA + n <= pdu.len() {
        pdu.subrange(OFF_DATA as int, OFF_DATA + n)
    } else {
        Seq::empty()
    }
}

/// The octets of a key PDU with the given fields.
pub open spec fn key_pdu(
    key_info: u16,
    key_len: u16,
    replay_counter: u64,
    key_nonce: Seq<u8>,
    key_iv: Seq<u8>,
    key_rsc: Seq<u8>,
    key_id: Seq<u8>,
    key_mic: Seq<u8>,
    key_data: Seq<u8>,
) -> Seq<u8> {
    seq![EAPOL_VERSION, EAPOL_TYPE_KEY] + bytes::be16_bytes(
        ((95 + key_data.len()) % 0x1_0000) as u16,
    ) + seq![EAPOL_KEY_DESCRIPTOR_RSN] + bytes::be16_bytes(key_info) + bytes::be16_bytes(key_len)
        + bytes::be64_bytes(replay_counter) + key_nonce + key_iv + key_rsc + key_id + key_mic
        + bytes::be16_bytes((key_data.len() % 0x1_0000) as u16) + key_data
}

/// Message 2 of the 4-way handshake, with the MIC field zero.
pub open spec fn message_2_pdu(
    snonce: Seq<u8>,
    replay_counter: u64,
    rsne: Seq<u8>,
    desc_version: u16,
) -> Seq<u8> {
    key_pdu(
        KEY_INFO_PAIRWISE | KEY_INFO_MIC | desc_version,
        0,
        replay_counter,
        snonce,
        bytes::zeros(16),
        bytes::zeros(8),
        bytes::zeros(8),
        bytes::zeros(16),
        rsne,
    )
}

/// Message 4 of the 4-way handshake, with the MIC field zero.
pub open spec fn message_4_pdu(
    snonce: Seq<u8>,
    replay_counter: u64,
    desc_version: u16,
) -> Seq<u8> {
    key_pdu(
        KEY_INFO_PAIRWISE | KEY_INFO_MIC | KEY_INFO_SECURE | desc_version,
        0,
        replay_counter,
        snonce,
        bytes::zeros(16),
        bytes::zeros(8),
        bytes::zeros(8),
        bytes::zeros(16),
        Seq::empty(),
    )
}

/// Message 2 of the group key handshake, with the MIC field zero.
pub open spec fn group_message_2_pdu(
    replay_counter: u64,
    key_rsc: Seq<u8>,
    desc_version: u16,
) -> Seq<u8> {
    key_pdu(
        KEY_INFO_MIC | KEY_INFO_SECURE | desc_version,
        0,
        replay_counter,
        bytes::zeros(32),
        bytes::zeros(16),
        key_rsc,
        bytes::zeros(8),
        bytes::zeros(16),
        Seq::empty(),
    )
}

/// A PDU with `mic` in its MIC field; a PDU too short to have one is kept.
pub open spec fn with_mic(pdu: Seq<u8>, mic: Seq<u8>) -> Seq<u8> {
    if pdu.len() >= OFF_MIC + 16 {
        pdu.subrange(0, OFF_MIC as int) + mic + pdu.subrange(OFF_MIC + 16, pdu.len() as int)
    } else {
        pdu
    }
}

impl EapolKeyFrame {
    /// Whether this frame holds the fields of `pdu`.
    pub open spec fn decodes(self, pdu: Seq<u8>) -> bool {
        &&& self.key_info == bytes::be16(pdu[5], pdu[6])
        &&& self.key_len == bytes::be16(pdu[7], pdu[8])
        &&& self.replay_counter as nat == bytes::be_nat(pdu.subrange(9, 17))
        &&& self.key_nonce@ == pdu.subrange(17, 49)
        &&& self.key_iv@ == pdu.subrange(49, 65)
        &&& self.key_rsc@ == pdu.subrange(65, 73)
        &&& self.key_id@ == pdu.subrange(73, 81)
        &&& self.key_mic@ == pdu.subrange(81, 97)
        &&& self.key_data@ == key_data_of(pdu)
        &&& self.raw@ == pdu
    }

    /// The Key Descriptor Version bits.
    pub fn descriptor_type(&self) -> (r: u16)
        ensures
            r == self.key_info & KEY_INFO_DESC_TYPE_MASK,
            r == self.key_info & 7,
    {
        self.key_info & KEY_INFO_DESC_TYPE_MASK
    }

    pub fn is_pairwise(&self) -> (r: bool)
        ensures
            r == (self.key_info & KEY_INFO_PAIRWISE != 0),
            r == (self.key_info & 0x0008 != 0),
    {
        self.key_info & KEY_INFO_PAIRWISE != 0
    }

    pub fn has_install(&self) -> (r: bool)
        ensures
            r == (self.key_info & KEY_INFO_INSTALL != 0),
            r == (self.key_info & 0x0040 != 0),
    {
        self.key_info & KEY_INFO_INSTALL != 0
    }

    pub fn has_ack(&self) -> (r: bool)
        ensures
            r == (self.key_info & KEY_INFO_ACK != 0),
            r == (self.key_info & 0x0080 != 0),
    {
        self.key_info & KEY_INFO_ACK != 0
    }

    pub fn has_mic(&self) -> (r: bool)
        ensures
            r == (self.key_info & KEY_INFO_MIC != 0),
            r == (self.key_info & 0x0100 != 0),
    {
        self.key_info & KEY_INFO_MIC != 0
    }

    pub fn is_secure(&self) -> (r: bool)
        ensures
            r == (self.key_info & KEY_INFO_SECURE != 0),
            r == (self.key_info & 0x0200 != 0),
    {
        self.key_info & KEY_INFO_SECURE != 0
    }

    pub fn is_encrypted_data(&self) -> (r: bool)
        ensures
            r == (self.key_info & KEY_INFO_ENCRYPTED_DATA != 0),
            r == (self.key_info & 0x1000 != 0),
    {
        self.key_info & KEY_INFO_ENCRYPTED_DATA != 0
    }

    pub fn has_error(&self) -> (r: bool)
        ensures
            r == (self.key_info & KEY_INFO_ERROR != 0),
            r == (self.key_info & 0x0400 != 0),
    {
        self.key_info & KEY_INFO_ERROR != 0
    }

    pub fn has_request(&self) -> (r: bool)
        ensures
            r == (self.key_info & KEY_INFO_REQUEST != 0),
            r == (self.key_info & 0x0800 != 0),
    {
        self.key_info & KEY_INFO_REQUEST != 0
    }
}

/// The Key Descriptor Version bits of a Key Information field: 0 =
/// AKM-defined, 2 = HMAC-SHA1 MIC, 3 = AES-128-CMAC MIC.
pub fn desc_version(key_info: u16) -> (r: u16)
    ensures
        r == key_info & KEY_INFO_DESC_TYPE_MASK,
        r == key_info & 7,
{
    key_info & KEY_INFO_DESC_TYPE_MASK
}

/// Parse a raw EAPOL-Key PDU (no Ethernet header).
pub fn parse_eapol_key_frame(pdu: &[u8]) -> (r: Option<EapolKeyFrame>)
    ensures
        r is Some <==> is_key_pdu(pdu@),
        r matches Some(f) ==> f.decodes(pdu@),
{
    if pdu.len() < OFF_DATA {
        return None;
    }
    if pdu[1] != EAPOL_TYPE_KEY {
        return None;
    }
    if pdu[EAPOL_HDR_LEN] != EAPOL_KEY_DESCRIPTOR_RSN {
        return None;
    }
    let key_info: u16 = bytes::read_be16(pdu, OFF_KEY_INFO);
    let key_len: u16 = bytes::read_be16(pdu, OFF_KEY_LEN);
    let replay_counter: u64 = bytes::read_be64(pdu, OFF_REPLAY);
    let key_nonce = bytes::array32(pdu, OFF_NONCE);
    let key_iv = bytes::array16(pdu, OFF_IV);
    let key_rsc = bytes::array8(pdu, OFF_RSC);
    let key_id = bytes::array8(pdu, OFF_ID);
    let key_mic = bytes::array16(pdu, OFF_MIC);

    let key_data_len: usize = bytes::read_be16(pdu, OFF_DATA_LEN) as usize;
    let key_data = if key_data_len <= pdu.len() - OFF_DATA {
        bytes::sub_vec(pdu, OFF_DATA, OFF_DATA + key_data_len)
    } else {
        Vec::new()
    };
    assert(key_data@ =~= key_data_of(pdu@));

    Some(
        EapolKeyFrame {
            key_info,
            key_len,
            replay_counter,
            key_nonce,
            key_iv,
            key_rsc,
            key_id,
            key_mic,
            key_data,
            raw: bytes::to_vec(pdu),
        },
    )
}

/// Build a raw EAPOL-Key PDU (no Ethernet header). The MIC field is filled
/// from `key_mic` as given; callers that need a valid MIC should build with a
/// zero MIC, compute the MIC over the PDU, then patch [`OFF_MIC`]. The two
/// length fields hold the lengths modulo 65536.
#[allow(clippy::too_many_arguments)]
pub fn build_eapol_key_pdu(
    key_info: u16,
    key_len: u16,
    replay_counter: u64,
    key_nonce: &[u8; 32],
    key_iv: &[u8; 16],
    key_rsc: &[u8; 8],
    key_id: &[u8; 8],
    key_mic: &[u8; 16],
    key_data: &[u8],
) -> (pdu: Vec<u8>)
    ensures
        pdu@ == key_pdu(
            key_info,
            key_len,
            replay_counter,
            key_nonce@,
            key_iv@,
            key_rsc@,
            key_id@,
            key_mic@,
            key_data@,
        ),
{
    let data_len: u16 = (key_data.len() % 0x1_0000) as u16;
    let body_len: u16 = ((KEY_DESC_HDR_LEN + key_data.len() % 0x1_0000) % 0x1_0000) as u16;
    assert(body_len == ((95 + key_data@.len()) % 0x1_0000) as u16);
    let mut pdu: Vec<u8> = Vec::new();
    pdu.push(EAPOL_VERSION);
    pdu.push(EAPOL_TYPE_KEY);
    bytes::push_be16(&mut pdu, body_len);
    pdu.push(EAPOL_KEY_DESCRIPTOR_RSN);
    bytes::push_be16(&mut pdu, key_info);
    bytes::push_be16(&mut pdu, key_len);
    bytes::push_be64(&mut pdu, replay_counter);
    bytes::append(&mut pdu, key_nonce);
    bytes::append(&mut pdu, key_iv);
    bytes::append(&mut pdu, key_rsc);
    bytes::append(&mut pdu, key_id);
    bytes::append(&mut pdu, key_mic);
    bytes::push_be16(&mut pdu, data_len);
    bytes::append(&mut pdu, key_data);
    assert(pdu@ =~= key_pdu(
        key_info,
        key_len,
        replay_counter,
        key_nonce@,
        key_iv@,
        key_rsc@,
        key_id@,
        key_mic@,
        key_data@,
    ));
    pdu
}

/// Build 4-way handshake Message 2 (SNonce + RSNE), MIC field zeroed. Key
/// descriptor version 0 (AES-CMAC MIC + NIST AES key wrap) is used by the
/// SAE AKM.
pub fn build_message_2(snonce: &[u8; 32], replay_counter: u64, rsne: &[u8]) -> (r: Vec<u8>)
    ensures
        r@ == message_2_pdu(snonce@, replay_counter, rsne@, 0),
{
    build_message_2_with_version(snonce, replay_counter, rsne, 0)
}

/// Build 4-way handshake Message 2 with the Key Descriptor Version that the
/// AP chose in Message 1.
pub fn build_message_2_with_version(
    snonce: &[u8; 32],
    replay_counter: u64,
    rsne: &[u8],
    desc_version: u16,
) -> (r: Vec<u8>)
    ensures
        r@ == message_2_pdu(snonce@, replay_counter, rsne@, desc_version),
{
    let key_info: u16 = KEY_INFO_PAIRWISE | KEY_INFO_MIC | desc_version;
    let zero16: [u8; 16] = [0u8; 16];
    let zero8: [u8; 8] = [0u8; 8];
    assert(zero16@ =~= bytes::zeros(16));
    assert(zero8@ =~= bytes::zeros(8));
    build_eapol_key_pdu(
        key_info,
        0,
        replay_counter,
        snonce,
        &zero16,
        &zero8,
        &zero8,
        &zero16,
        rsne,
    )
}

/// Build 4-way handshake Message 4 (final ACK), MIC field zeroed.
pub fn build_message_4(snonce: &[u8; 32], replay_counter: u64) -> (r: Vec<u8>)
    ensures
        r@ == message_4_pdu(snonce@, replay_counter, 0),
{
    build_message_4_with_version(snonce, replay_counter, 0)
}

/// Build 4-way handshake Message 4 with the negotiated Key Descriptor
/// Version.
pub fn build_message_4_with_version(
    snonce: &[u8; 32],
    replay_counter: u64,
    desc_version: u16,
) -> (r: Vec<u8>)
    ensures
        r@ == message_4_pdu(snonce@, replay_counter, desc_version),
{
    let key_info: u16 = KEY_INFO_PAIRWISE | KEY_INFO_MIC | KEY_INFO_SECURE | desc_version;
    let zero16: [u8; 16] = [0u8; 16];
    let zero8: [u8; 8] = [0u8; 8];
    let none: Vec<u8> = Vec::new();
    assert(zero16@ =~= bytes::zeros(16));
    assert(zero8@ =~= bytes::zeros(8));
    build_eapol_key_pdu(
        key_info,
        0,
        replay_counter,
        snonce,
        &zero16,
        &zero8,
        &zero8,
        &zero16,
        none.as_slice(),
    )
}

/// Build the Group Key Handshake Message 2 (STA -> AP reply to a GTK rekey),
/// MIC field zeroed. This is a group-type EAPOL-Key frame (the Pairwise bit
/// is clear) carrying no key data; `key_rsc` echoes the group key RSC from
/// Message 1.
pub fn build_group_message_2(replay_counter: u64, key_rsc: &[u8; 8]) -> (r: Vec<u8>)
    ensures
        r@ == group_message_2_pdu(replay_counter, key_rsc@, 0),
{
    build_group_message_2_with_version(replay_counter, key_rsc, 0)
}

/// Build the Group Key Handshake Message 2 with the Key Descriptor Version
/// of Message 1.
pub fn build_group_message_2_with_version(
    replay_counter: u64,
    key_rsc: &[u8; 8],
    desc_version: u16,
) -> (r: Vec<u8>)
    ensures
        r@ == group_message_2_pdu(replay_counter, key_rsc@, desc_version),
{
    let key_info: u16 = KEY_INFO_MIC | KEY_INFO_SECURE | desc_version;
    let zero32: [u8; 32] = [0u8; 32];
    let zero16: [u8; 16] = [0u8; 16];
    let zero8: [u8; 8] = [0u8; 8];
    let none: Vec<u8> = Vec::new();
    assert(zero32@ =~= bytes::zeros(32));
    assert(zero16@ =~= bytes::zeros(16));
    assert(zero8@ =~= bytes::zeros(8));
    build_eapol_key_pdu(
        key_info,
        0,
        replay_counter,
        &zero32,
        &zero16,
        key_rsc,
        &zero8,
        &zero16,
        none.as_slice(),
    )
}

/// Return a copy of `pdu` with the 16-byte MIC field zeroed (for MIC
/// computation/verification).
pub fn pdu_with_zeroed_mic(pdu: &[u8]) -> (buf: Vec<u8>)
    ensures
        buf@ == with_mic(pdu@, bytes::zeros(16)),
{
    let mut buf = bytes::to_vec(pdu);
    let zero16: [u8; 16] = [0u8; 16];
    assert(zero16@ =~= bytes::zeros(16));
    set_mic_vec(&mut buf, &zero16);
    buf
}

/// Set the MIC field in an owned PDU.
fn set_mic_vec(pdu: &mut Vec<u8>, mic: &[u8; 16])
    ensures
        final(pdu)@ == with_mic(old(pdu)@, mic@),
{
    if pdu.len() < OFF_MIC + 16 {
        return ;
    }
    let ghost before = pdu@;
    let mut i: usize = 0;
    while i < 16
        invariant
            i <= 16,
            pdu@.len() == before.len(),
            before.len() >= OFF_MIC + 16,
            forall|j: int|
                0 <= j < before.len() ==> pdu@[j] == if OFF_MIC <= j < OFF_MIC + i {
                    mic@[j - OFF_MIC]
                } else {
                    before[j]
                },
        decreases 16 - i,
    {
        pdu.set(OFF_MIC + i, mic[i]);
        i = i + 1;
    }
    assert(pdu@ =~= with_mic(before, mic@));
}

/// Set the MIC field in a PDU in place.
pub fn set_mic(pdu: &mut [u8], mic: &[u8; 16])
    ensures
        final(pdu)@ == with_mic(old(pdu)@, mic@),
{
    if pdu.len() < OFF_MIC + 16 {
        return ;
    }
    let ghost before = pdu@;
    let mut i: usize = 0;
    while i < 16
        invariant
            i <= 16,
            pdu@.len() == before.len(),
            before.len() >= OFF_MIC + 16,
            forall|j: int|
                0 <= j < before.len() ==> pdu@[j] == if OFF_MIC <= j < OFF_MIC + i {
                    mic@[j - OFF_MIC]
                } else {
                    before[j]
                },
        decreases 16 - i,
    {
        pdu[OFF_MIC + i] = mic[i];
        i = i + 1;
    }
    assert(pdu@ =~= with_mic(before, mic@));
}

/// The text ` name` where the bit is set in a Key Information field.
pub open spec fn flag_text(key_info: u16, bit: u16, name: Seq<char>) -> Seq<char> {
    if key_info & bit != 0 {
        " "@ + name
    } else {
        Seq::empty()
    }
}

/// The text of a Key Information field: the descriptor version and the
/// names of the flags that are set.
pub open spec fn key_info_text(key_info: u16) -> Seq<char> {
    "desc="@ + text::dec((key_info & KEY_INFO_DESC_TYPE_MASK) as nat) + flag_text(
        key_info,
        KEY_INFO_PAIRWISE,
        "pairwise"@,
    ) + flag_text(key_info, KEY_INFO_INSTALL, "install"@) + flag_text(
        key_info,
        KEY_INFO_ACK,
        "ack"@,
    ) + flag_text(key_info, KEY_INFO_MIC, "mic"@) + flag_text(
        key_info,
        KEY_INFO_SECURE,
        "secure"@,
    ) + flag_text(key_info, KEY_INFO_ENCRYPTED_DATA, "enc-data"@)
}

/// Append ` name` where the bit is set.
fn push_flag(s: &mut String, key_info: u16, bit: u16, name: &str)
    ensures
        final(s)@ == old(s)@ + flag_text(key_info, bit, name@),
{
    let ghost before = s@;
    if key_info & bit != 0 {
        s.append(" ");
        s.append(name);
    }
    assert(s@ =~= before + flag_text(key_info, bit, name@));
}

/// Describe a Key Information field for log messages.
pub fn fmt_key_info(key_info: u16) -> (r: String)
    ensures
        r@ == key_info_text(key_info),
{
    let mut s = text::text("desc=");
    text::push_dec(&mut s, (key_info & KEY_INFO_DESC_TYPE_MASK) as u64);
    push_flag(&mut s, key_info, KEY_INFO_PAIRWISE, "pairwise");
    push_flag(&mut s, key_info, KEY_INFO_INSTALL, "install");
    push_flag(&mut s, key_info, KEY_INFO_ACK, "ack");
    push_flag(&mut s, key_info, KEY_INFO_MIC, "mic");
    push_flag(&mut s, key_info, KEY_INFO_SECURE, "secure");
    push_flag(&mut s, key_info, KEY_INFO_ENCRYPTED_DATA, "enc-data");
    s
}

/// The octets of an EAPOL frame that carries an EAP packet.
pub open spec fn eap_frame(eap: Seq<u8>) -> Seq<u8> {
    seq![EAPOL_VERSION, EAPOL_TYPE_EAP] + bytes::be16_bytes((eap.len() % 0x1_0000) as u16) + eap
}

/// Whether a PDU is an EAPOL frame with a complete EAP packet in it.
pub open spec fn is_eap_frame(pdu: Seq<u8>) -> bool {
    &&& pdu.len() >= 4
    &&& pdu[1] == EAPOL_TYPE_EAP
    &&& 4 + bytes::be16(pdu[2], pdu[3]) <= pdu.len()
}

/// The EAP packet in an EAPOL frame.
pub open spec fn eap_of(pdu: Seq<u8>) -> Seq<u8> {
    pdu.subrange(4, 4 + bytes::be16(pdu[2], pdu[3]))
}

/// The EAP packet that an EAPOL frame carries; `None` for other EAPOL types
/// and truncated frames.
pub fn parse_eapol_eap_frame(pdu: &[u8]) -> (r: Option<Vec<u8>>)
    ensures
        r is Some <==> is_eap_frame(pdu@),
        r matches Some(eap) ==> eap@ == eap_of(pdu@),
{
    if pdu.len() < EAPOL_HDR_LEN || pdu[1] != EAPOL_TYPE_EAP {
        return None;
    }
    let len: usize = bytes::read_be16(pdu, 2) as usize;
    if pdu.len() - EAPOL_HDR_LEN < len {
        return None;
    }
    Some(bytes::sub_vec(pdu, EAPOL_HDR_LEN, EAPOL_HDR_LEN + len))
}

/// Frame an EAP packet in EAPOL.
pub fn build_eapol_eap_frame(eap: &[u8]) -> (pdu: Vec<u8>)
    ensures
        pdu@ == eap_frame(eap@),
{
    let mut pdu: Vec<u8> = Vec::new();
    pdu.push(EAPOL_VERSION);
    pdu.push(EAPOL_TYPE_EAP);
    bytes::push_be16(&mut pdu, (eap.len() % 0x1_0000) as u16);
    bytes::append(&mut pdu, eap);
    assert(pdu@ =~= eap_frame(eap@));
    pdu
}

/// Every field of a built key PDU is found again by parsing it, key data of
/// up to 65535 octets included.
#[verifier::spinoff_prover]
#[verifier::rlimit(60)]
pub proof fn law_key_pdu_roundtrip(
    key_info: u16,
    key_len: u16,
    replay_counter: u64,
    key_nonce: Seq<u8>,
    key_iv: Seq<u8>,
    key_rsc: Seq<u8>,
    key_id: Seq<u8>,
    key_mic: Seq<u8>,
    key_data: Seq<u8>,
)
    requires
        key_nonce.len() == 32,
        key_iv.len() == 16,
        key_rsc.len() == 8,
        key_id.len() == 8,
        key_mic.len() == 16,
        key_data.len() < 0x1_0000,
    ensures
        ({
            let pdu = key_pdu(
                key_info,
                key_len,
                replay_counter,
                key_nonce,
                key_iv,
                key_rsc,
                key_id,
                key_mic,
                key_data,
            );
            &&& is_key_pdu(pdu)
            &&& bytes::be16(pdu[5], pdu[6]) == key_info
            &&& bytes::be16(pdu[7], pdu[8]) == key_len
            &&& bytes::be_nat(pdu.subrange(9, 17)) == replay_counter
            &&& pdu.subrange(17, 49) == key_nonce
            &&& pdu.subrange(49, 65) == key_iv
            &&& pdu.subrange(65, 73) == key_rsc
            &&& pdu.subrange(73, 81) == key_id
            &&& pdu.subrange(81, 97) == key_mic
            &&& key_data_of(pdu) == key_data
        }),
{
    let pdu = key_pdu(
        key_info,
        key_len,
        replay_counter,
        key_nonce,
        key_iv,
        key_rsc,
        key_id,
        key_mic,
        key_data,
    );
    let n = key_data.len() as u16;
    bytes::lemma_u16_bytes(key_info);
    bytes::lemma_u16_bytes(key_len);
    bytes::lemma_u16_bytes(n);
    bytes::lemma_be64_bytes(replay_counter);
    assert(pdu.len() == 99 + key_data.len());
    assert(pdu[5] == bytes::be16_bytes(key_info)[0] && pdu[6] == bytes::be16_bytes(key_info)[1]);
    assert(pdu[7] == bytes::be16_bytes(key_len)[0] && pdu[8] == bytes::be16_bytes(key_len)[1]);
    assert(pdu.subrange(9, 17) =~= bytes::be64_bytes(replay_counter));
    assert(pdu.subrange(17, 49) =~= key_nonce);
    assert(pdu.subrange(49, 65) =~= key_iv);
    assert(pdu.subrange(65, 73) =~= key_rsc);
    assert(pdu.subrange(73, 81) =~= key_id);
    assert(pdu.subrange(81, 97) =~= key_mic);
    assert(pdu[97] == bytes::be16_bytes(n)[0] && pdu[98] == bytes::be16_bytes(n)[1]);
    assert(pdu.subrange(99, 99 + key_data.len() as int) =~= key_data);
}

/// The MIC of a PDU covers every other octet: two PDUs that differ only in
/// their MIC fields have one zeroed form, and zeroing a patched PDU undoes
/// the patch.
pub proof fn law_zeroed_mic_ignores_mic(pdu: Seq<u8>, mic: Seq<u8>)
    requires
        mic.len() == 16,
    ensures
        with_mic(with_mic(pdu, mic), bytes::zeros(16)) == with_mic(pdu, bytes::zeros(16)),
        pdu.len() >= OFF_MIC + 16 ==> with_mic(pdu, mic).subrange(OFF_MIC as int, OFF_MIC + 16)
            == mic,
        with_mic(pdu, mic).len() == pdu.len(),
{
    if pdu.len() >= OFF_MIC + 16 {
        assert(with_mic(with_mic(pdu, mic), bytes::zeros(16)) =~= with_mic(pdu, bytes::zeros(16)));
        assert(with_mic(pdu, mic).subrange(OFF_MIC as int, OFF_MIC + 16) =~= mic);
    }
}

/// An EAP packet of up to 65535 octets is found again in its EAPOL frame.
pub proof fn law_eap_frame_roundtrip(eap: Seq<u8>)
    requires
        eap.len() < 0x1_0000,
    ensures
        is_eap_frame(eap_frame(eap)),
        eap_of(eap_frame(eap)) == eap,
        !is_key_pdu(eap_frame(eap)),
{
    let pdu = eap_frame(eap);
    bytes::lemma_u16_bytes(eap.len() as u16);
    assert(pdu[2] == bytes::be16_bytes(eap.len() as u16)[0] && pdu[3] == bytes::be16_bytes(
        eap.len() as u16,
    )[1]);
    assert(pdu.subrange(4, 4 + eap.len() as int) =~= eap);
}

} // verus!
