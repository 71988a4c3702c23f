//! The frames of the key handshakes on the wire: where each field of a reply
//! stands, which bits its Key Information has, and what its MIC covers.

use vstd::prelude::*;

use crate::bytes;
use crate::crypto::handshake4;
use crate::crypto::handshake4::{FourWayState, KeyDataKdes, MicAlg};
use crate::crypto::ocv;
use crate::crypto::peer;
use crate::crypto::primitives;
use crate::error::WifiError;
use crate::ieee80211::eapol;
use crate::ieee80211::eapol::EapolKeyFrame;
use crate::ieee80211::elements;
use crate::ieee80211::layouts;
use crate::ieee80211::tlv;

verus! {

/// The Key Information of a key frame: its octets 5 and 6, most significant
/// first.
pub open spec fn key_information(pdu: Seq<u8>) -> u16 {
    (256 * pdu[5] + pdu[6]) as u16
}

/// A frame with zeros in its MIC field, octets 81 to 96.
pub open spec fn without_mic(pdu: Seq<u8>) -> Seq<u8> {
    Seq::new(
        pdu.len(),
        |i: int|
            if 81 <= i < 97 {
                0u8
            } else {
                pdu[i]
            },
    )
}

/// Whether the MIC field of a frame holds what the algorithm gives for the
/// frame without it.
pub open spec fn is_authentic(pdu: Seq<u8>, alg: MicAlg, kck: Seq<u8>) -> bool {
    let mic = pdu.subrange(81, 97);
    match alg {
        MicAlg::AesCmac => mic == primitives::aes_128_cmac(kck, without_mic(pdu)),
        MicAlg::HmacSha256 => mic == primitives::hmac_sha256(kck, without_mic(pdu)).subrange(
            0,
            16,
        ),
        MicAlg::HmacSha1 => mic == primitives::hmac_sha1(kck, without_mic(pdu)).subrange(0, 16),
    }
}

/// Whether a frame is an EAPOL-Key frame (version 2, packet type 3, descriptor
/// type 2) with a nonce, a receive counter and key data, whose lengths, key
/// length, IV and key identifier are as a station sends them.
pub open spec fn reads_as(
    pdu: Seq<u8>,
    replay_counter: u64,
    nonce: Seq<u8>,
    rsc: Seq<u8>,
    data: Seq<u8>,
) -> bool {
    &&& pdu.len() == 99 + data.len()
    &&& pdu[0] == 2
    &&& pdu[1] == 3
    &&& 256 * pdu[2] + pdu[3] == 95 + data.len()
    &&& pdu[4] == 2
    &&& pdu[7] == 0 && pdu[8] == 0
    &&& bytes::be_nat(pdu.subrange(9, 17)) == replay_counter
    &&& pdu.subrange(17, 49) == nonce
    &&& forall|i: int| 49 <= i < 65 ==> pdu[i] == 0
    &&& pdu.subrange(65, 73) == rsc
    &&& forall|i: int| 73 <= i < 81 ==> pdu[i] == 0
    &&& 256 * pdu[97] + pdu[98] == data.len()
    &&& pdu.subrange(99, pdu.len() as int) == data
}

/// A built key frame has its fields in their places.
#[verifier::spinoff_prover]
#[verifier::rlimit(40)]
pub proof fn lemma_built_fields(
    info: u16,
    replay_counter: u64,
    nonce: Seq<u8>,
    rsc: Seq<u8>,
    mic: Seq<u8>,
    data: Seq<u8>,
)
    requires
        nonce.len() == 32,
        rsc.len() == 8,
        mic.len() == 16,
        95 + data.len() < 0x1_0000,
    ensures
        ({
            let pdu = eapol::key_pdu(
                info,
                0,
                replay_counter,
                nonce,
                bytes::zeros(16),
                rsc,
                bytes::zeros(8),
                mic,
                data,
            );
            reads_as(pdu, replay_counter, nonce, rsc, data) && key_information(pdu) == info
        }),
{
    let (iv, id) = (bytes::zeros(16), bytes::zeros(8));
    let pdu = eapol::key_pdu(info, 0, replay_counter, nonce, iv, rsc, id, mic, data);
    eapol::law_key_pdu_roundtrip(info, 0, replay_counter, nonce, iv, rsc, id, mic, data);
    let len = (95 + data.len()) as u16;
    let n = data.len() as u16;
    bytes::lemma_u16_bytes(len);
    bytes::lemma_u16_bytes(n);
    assert(pdu.len() == 99 + data.len());
    assert(pdu[0] == 2 && pdu[1] == 3 && pdu[4] == 2);
    assert(pdu[2] == bytes::be16_bytes(len)[0] && pdu[3] == bytes::be16_bytes(len)[1]);
    assert(pdu[97] == bytes::be16_bytes(n)[0] && pdu[98] == bytes::be16_bytes(n)[1]);
    assert(pdu[7] == 0 && pdu[8] == 0);
    assert forall|i: int| 49 <= i < 65 implies pdu[i] == 0 by {
        assert(pdu[i] == pdu.subrange(49, 65)[i - 49]);
    }
    assert forall|i: int| 73 <= i < 81 implies pdu[i] == 0 by {
        assert(pdu[i] == pdu.subrange(73, 81)[i - 73]);
    }
    assert(eapol::key_data_of(pdu) == pdu.subrange(99, pdu.len() as int));
}

/// Filling in the MIC of a frame changes nothing else.
#[verifier::spinoff_prover]
pub proof fn lemma_mic_keeps_fields(
    pdu: Seq<u8>,
    mic: Seq<u8>,
    replay_counter: u64,
    nonce: Seq<u8>,
    rsc: Seq<u8>,
    data: Seq<u8>,
)
    requires
        reads_as(pdu, replay_counter, nonce, rsc, data),
        mic.len() == 16,
    ensures
        ({
            let out = eapol::with_mic(pdu, mic);
            &&& reads_as(out, replay_counter, nonce, rsc, data)
            &&& key_information(out) == key_information(pdu)
            &&& out.subrange(81, 97) == mic
            &&& without_mic(out) == eapol::with_mic(pdu, bytes::zeros(16))
        }),
{
    let out = eapol::with_mic(pdu, mic);
    assert(out.len() == pdu.len());
    assert(forall|i: int| 0 <= i < 81 ==> out[i] == pdu[i]);
    assert(forall|i: int| 97 <= i < out.len() ==> out[i] == pdu[i]);
    assert(out.subrange(81, 97) =~= mic);
    assert(out.subrange(9, 17) =~= pdu.subrange(9, 17));
    assert(out.subrange(17, 49) =~= pdu.subrange(17, 49));
    assert(out.subrange(65, 73) =~= pdu.subrange(65, 73));
    assert(out.subrange(99, out.len() as int) =~= pdu.subrange(99, pdu.len() as int));
    assert(without_mic(out) =~= eapol::with_mic(pdu, bytes::zeros(16)));
}

/// A sealed key frame has its fields in their places and an authentic MIC.
proof fn lemma_sealed_fields(
    out: Seq<u8>,
    alg: MicAlg,
    kck: Seq<u8>,
    info: u16,
    replay_counter: u64,
    nonce: Seq<u8>,
    rsc: Seq<u8>,
    data: Seq<u8>,
)
    requires
        nonce.len() == 32,
        rsc.len() == 8,
        95 + data.len() < 0x1_0000,
        handshake4::is_sealed(
            out,
            alg,
            kck,
            eapol::key_pdu(
                info,
                0,
                replay_counter,
                nonce,
                bytes::zeros(16),
                rsc,
                bytes::zeros(8),
                bytes::zeros(16),
                data,
            ),
        ),
    ensures
        reads_as(out, replay_counter, nonce, rsc, data),
        key_information(out) == info,
        is_authentic(out, alg, kck),
{
    let pdu = eapol::key_pdu(
        info,
        0,
        replay_counter,
        nonce,
        bytes::zeros(16),
        rsc,
        bytes::zeros(8),
        bytes::zeros(16),
        data,
    );
    lemma_built_fields(info, replay_counter, nonce, rsc, bytes::zeros(16), data);
    let mic = handshake4::pdu_mic(alg, kck, pdu);
    lemma_mic_keeps_fields(pdu, mic, replay_counter, nonce, rsc, data);
}

/// What the bits of a Key Information field are: Pairwise is bit 3, Install
/// bit 6, Ack bit 7, MIC bit 8, Secure bit 9, Error bit 10, Request bit 11 and
/// Encrypted Key Data bit 12; the low three bits are the descriptor version.
pub proof fn lemma_reply_bits(v: u16)
    requires
        v <= 7,
    ensures
        ({
            let message_2 = 0x0008u16 | 0x0100u16 | v;
            &&& message_2 & 0x0008 != 0 && message_2 & 0x0100 != 0
            &&& message_2 & 0xfef0 == 0
            &&& message_2 & 7 == v
        }),
        ({
            let message_4 = 0x0008u16 | 0x0100u16 | 0x0200u16 | v;
            &&& message_4 & 0x0008 != 0 && message_4 & 0x0100 != 0 && message_4 & 0x0200 != 0
            &&& message_4 & 0xfcf0 == 0
            &&& message_4 & 7 == v
        }),
        ({
            let group_2 = 0x0100u16 | 0x0200u16 | v;
            &&& group_2 & 0x0100 != 0 && group_2 & 0x0200 != 0
            &&& group_2 & 0xfcf8 == 0
            &&& group_2 & 7 == v
        }),
{
    assert({
        let message_2 = 0x0008u16 | 0x0100u16 | v;
        &&& message_2 & 0x0008 != 0 && message_2 & 0x0100 != 0
        &&& message_2 & 0xfef0 == 0
        &&& message_2 & 7 == v
    }) by (bit_vector)
        requires
            v <= 7,
    ;
    assert({
        let message_4 = 0x0008u16 | 0x0100u16 | 0x0200u16 | v;
        &&& message_4 & 0x0008 != 0 && message_4 & 0x0100 != 0 && message_4 & 0x0200 != 0
        &&& message_4 & 0xfcf0 == 0
        &&& message_4 & 7 == v
    }) by (bit_vector)
        requires
            v <= 7,
    ;
    assert({
        let group_2 = 0x0100u16 | 0x0200u16 | v;
        &&& group_2 & 0x0100 != 0 && group_2 & 0x0200 != 0
        &&& group_2 & 0xfcf8 == 0
        &&& group_2 & 7 == v
    }) by (bit_vector)
        requires
            v <= 7,
    ;
}

/// A field without any bit of a mask has none of the single bits in it.
pub proof fn lemma_clear_bits(info: u16)
    ensures
        info & 0xfcf0 == 0 ==> info & 0x0080 == 0 && info & 0x0040 == 0 && info & 0x0400 == 0
            && info & 0x0800 == 0 && info & 0x1000 == 0,
        info & 0xfef0 == 0 ==> info & 0x0080 == 0 && info & 0x0040 == 0 && info & 0x0400 == 0
            && info & 0x0800 == 0 && info & 0x1000 == 0 && info & 0x0200 == 0,
        info & 0xfcf8 == 0 ==> info & 0x0080 == 0 && info & 0x0040 == 0 && info & 0x0400 == 0
            && info & 0x0800 == 0 && info & 0x1000 == 0 && info & 0x0008 == 0,
        info & 7 <= 7,
{
    assert(info & 0xfcf0 == 0 ==> info & 0x0080 == 0 && info & 0x0040 == 0 && info & 0x0400 == 0
        && info & 0x0800 == 0 && info & 0x1000 == 0) by (bit_vector);
    assert(info & 0xfef0 == 0 ==> info & 0x0080 == 0 && info & 0x0040 == 0 && info & 0x0400 == 0
        && info & 0x0800 == 0 && info & 0x1000 == 0 && info & 0x0200 == 0) by (bit_vector);
    assert(info & 0xfcf8 == 0 ==> info & 0x0080 == 0 && info & 0x0040 == 0 && info & 0x0400 == 0
        && info & 0x0800 == 0 && info & 0x1000 == 0 && info & 0x0008 == 0) by (bit_vector);
    assert(info & 7 <= 7) by (bit_vector);
}

/// Message 2 answers Message 1: it has the Pairwise and MIC bits, none of
/// Install, Ack, Secure, Error, Request and Encrypted Key Data, and the
/// descriptor version of Message 1; it carries our nonce, the counter of
/// Message 1 and the elements of the association, with Operating Channel
/// Validation followed by the KDE of our channel, and its MIC is made with the
/// first 16 octets of the pairwise key.
pub proof fn law_message_2_on_the_wire(
    before: FourWayState,
    after: FourWayState,
    anonce: [u8; 32],
    replay_counter: u64,
    key_info: u16,
    snonce: [u8; 32],
    msg2: Vec<u8>,
)
    requires
        after.message_1_processed(before, anonce, replay_counter, key_info, snonce, Ok(msg2)),
        before.rsne@.len() < 0x1_0000 - 104,
    ensures
        reads_as(
            msg2@,
            replay_counter,
            snonce@,
            Seq::new(8, |i: int| 0u8),
            match before.ocv {
                Some(o) => before.rsne@ + seq![
                    0xddu8,
                    7,
                    0,
                    0x0f,
                    0xac,
                    0x0d,
                    o.oci@[0],
                    o.oci@[1],
                    o.oci@[2],
                ],
                None => before.rsne@,
            },
        ),
        is_authentic(msg2@, before.mic_alg, after.ptk->0@.subrange(0, 16)),
        ({
            let info = key_information(msg2@);
            &&& info & 0x0008 != 0 && info & 0x0100 != 0
            &&& info & 0x0040 == 0 && info & 0x0080 == 0 && info & 0x0200 == 0
            &&& info & 0x0400 == 0 && info & 0x0800 == 0 && info & 0x1000 == 0
            &&& info & 7 == key_info & 7
        }),
        after.desc_version == key_info & 7,
        after.desc_version <= 7,
{
    let v = key_info & 7;
    match before.ocv {
        Some(o) => {
            layouts::law_oci_kde_octets(o.oci@, tlv::Element { id: 0, body: Seq::empty() });
        },
        None => {
            assert(before.message_2_key_data() =~= before.rsne@);
        },
    }
    lemma_clear_bits(key_info);
    lemma_reply_bits(v);
    lemma_sealed_fields(
        msg2@,
        before.mic_alg,
        after.spec_kck(),
        0x0008u16 | 0x0100u16 | v,
        replay_counter,
        snonce@,
        bytes::zeros(8),
        before.message_2_key_data(),
    );
    assert(bytes::zeros(8) =~= Seq::new(8, |i: int| 0u8));
    lemma_clear_bits(key_information(msg2@));
}

/// Message 4 answers an accepted Message 3: it has the Pairwise, MIC and Secure
/// bits, none of Install, Ack, Error, Request and Encrypted Key Data, and the
/// descriptor version of the handshake; it carries the counter of Message 3 and
/// no key data, and its MIC is made with the first 16 octets of the pairwise
/// key.
pub proof fn law_message_4_on_the_wire(
    before: FourWayState,
    after: FourWayState,
    frame: EapolKeyFrame,
    msg4: Vec<u8>,
    kdes: KeyDataKdes,
)
    requires
        before.desc_version <= 7,
        after.message_3_processed(before, frame, Ok((msg4, kdes))),
    ensures
        reads_as(
            msg4@,
            frame.replay_counter,
            before.snonce@,
            Seq::new(8, |i: int| 0u8),
            Seq::empty(),
        ),
        is_authentic(msg4@, before.mic_alg, before.ptk->0@.subrange(0, 16)),
        ({
            let info = key_information(msg4@);
            &&& info & 0x0008 != 0 && info & 0x0100 != 0 && info & 0x0200 != 0
            &&& info & 0x0040 == 0 && info & 0x0080 == 0
            &&& info & 0x0400 == 0 && info & 0x0800 == 0 && info & 0x1000 == 0
            &&& info & 7 == before.desc_version
        }),
        after.desc_version == before.desc_version,
{
    let v = before.desc_version;
    lemma_reply_bits(v);
    lemma_sealed_fields(
        msg4@,
        before.mic_alg,
        before.spec_kck(),
        0x0008u16 | 0x0100u16 | 0x0200u16 | v,
        frame.replay_counter,
        before.snonce@,
        bytes::zeros(8),
        Seq::empty(),
    );
    assert(bytes::zeros(8) =~= Seq::new(8, |i: int| 0u8));
    lemma_clear_bits(key_information(msg4@));
}

/// The reply to an accepted group key message has the MIC and Secure bits,
/// none of Pairwise, Install, Ack, Error, Request and Encrypted Key Data, and
/// the descriptor version of that message; it carries its counters and no key
/// data.
pub proof fn law_group_reply_on_the_wire(
    before: FourWayState,
    after: FourWayState,
    frame: EapolKeyFrame,
    reply: Vec<u8>,
)
    requires
        after.group_rekey_processed(before, frame, Ok(reply)),
    ensures
        reads_as(
            reply@,
            frame.replay_counter,
            Seq::new(32, |i: int| 0u8),
            frame.key_rsc@,
            Seq::empty(),
        ),
        is_authentic(reply@, before.mic_alg, before.ptk->0@.subrange(0, 16)),
        ({
            let info = key_information(reply@);
            &&& info & 0x0100 != 0 && info & 0x0200 != 0
            &&& info & 0x0008 == 0 && info & 0x0040 == 0 && info & 0x0080 == 0
            &&& info & 0x0400 == 0 && info & 0x0800 == 0 && info & 0x1000 == 0
            &&& info & 7 == frame.key_info & 7
        }),
{
    let v = frame.key_info & 7;
    lemma_clear_bits(frame.key_info);
    lemma_reply_bits(v);
    lemma_sealed_fields(
        reply@,
        before.mic_alg,
        before.spec_kck(),
        0x0100u16 | 0x0200u16 | v,
        frame.replay_counter,
        bytes::zeros(32),
        frame.key_rsc@,
        Seq::empty(),
    );
    assert(bytes::zeros(32) =~= Seq::new(32, |i: int| 0u8));
    lemma_clear_bits(key_information(reply@));
}

/// No Message 4 has the Key Information of a reply in a group key handshake.
pub proof fn law_message_4_is_no_group_reply(
    before: FourWayState,
    after: FourWayState,
    frame: EapolKeyFrame,
    msg4: Vec<u8>,
    kdes: KeyDataKdes,
    group_before: FourWayState,
    group_after: FourWayState,
    group_frame: EapolKeyFrame,
    reply: Vec<u8>,
)
    requires
        before.desc_version <= 7,
        after.message_3_processed(before, frame, Ok((msg4, kdes))),
        group_after.group_rekey_processed(group_before, group_frame, Ok(reply)),
    ensures
        key_information(msg4@) != key_information(reply@),
{
    law_message_4_on_the_wire(before, after, frame, msg4, kdes);
    law_group_reply_on_the_wire(group_before, group_after, group_frame, reply);
}

/// A key message whose keys are taken is authentic under the first 16 octets of
/// the pairwise key, and no older than what was accepted before: a Message 3
/// may repeat the last counter, a group key message may not.
pub proof fn law_accepted_frames_are_authentic(
    before: FourWayState,
    after: FourWayState,
    frame: EapolKeyFrame,
    handshake: Result<(Vec<u8>, KeyDataKdes), WifiError>,
    rekey: Result<Vec<u8>, WifiError>,
)
    requires
        eapol::is_key_pdu(frame.raw@),
        frame.decodes(frame.raw@),
        after.message_3_processed(before, frame, handshake) && handshake is Ok
            || after.group_rekey_processed(before, frame, rekey) && rekey is Ok,
    ensures
        before.ptk is Some,
        is_authentic(frame.raw@, before.mic_alg, before.ptk->0@.subrange(0, 16)),
        bytes::be_nat(frame.raw@.subrange(9, 17)) >= before.replay_counter,
        after.replay_counter == bytes::be_nat(frame.raw@.subrange(9, 17)),
        !(after.message_3_processed(before, frame, handshake) && handshake is Ok)
            ==> after.replay_counter > before.replay_counter,
{
    let pdu = frame.raw@;
    assert(without_mic(pdu) =~= eapol::with_mic(pdu, bytes::zeros(16)));
}

/// The key data that a Message 3 or a group key message with the Encrypted Key
/// Data bit (bit 12) hands over is unwrapped with octets 16 to 31 of the
/// pairwise key; without the bit it is taken as it is.
pub proof fn law_key_data_in_the_clear(fw: FourWayState, frame: EapolKeyFrame)
    requires
        fw.ptk is Some,
    ensures
        frame.key_info & 0x1000 == 0 || frame.key_data@.len() == 0 ==> fw.clear_data(frame) == Ok::<
            Seq<u8>,
            Seq<char>,
        >(frame.key_data@),
        frame.key_info & 0x1000 != 0 && frame.key_data@.len() > 0 ==> {
            let plain = primitives::aes_128_unwrapped(
                fw.ptk->0@.subrange(16, 32),
                frame.key_data@,
            );
            let whole = frame.key_data@.len() >= 16 && frame.key_data@.len() % 8 == 0;
            &&& fw.clear_data(frame) is Ok <==> whole && plain is Some
            &&& fw.clear_data(frame) matches Ok(d) ==> plain == Some(d)
        },
{
}

/// The pairwise key of an answered Message 1 is the one that the access point
/// derives from the same PMK, addresses and nonces, or under Fast Transition
/// from PMK-R1.
pub proof fn law_pairwise_key_of_handshake(
    before: FourWayState,
    after: FourWayState,
    anonce: [u8; 32],
    replay_counter: u64,
    key_info: u16,
)
    requires
        after.answers_message_1(before, anonce, replay_counter, key_info),
    ensures
        before.ft_pmk_r1 is None ==> ({
            let context = peer::lesser_first(
                before.mac_ap@,
                before.mac_sta@,
                anonce@,
                after.snonce@,
            );
            after.ptk->0@ == if before.mic_alg is HmacSha1 {
                peer::prf_384(before.pmk@, peer::octets_pairwise(), context)
            } else {
                peer::kdf_384(before.pmk@, peer::octets_pairwise(), context)
            }
        }),
        before.ft_pmk_r1 matches Some(r1) ==> after.ptk->0@ == peer::kdf_384(
            r1.key@,
            peer::octets_ft_ptk(),
            after.snonce@ + anonce@ + before.mac_ap@ + before.mac_sta@,
        ),
{
    peer::law_pairwise_key_agrees(
        before.mic_alg,
        before.pmk@,
        before.mac_ap@,
        before.mac_sta@,
        anonce@,
        after.snonce@,
    );
    match before.ft_pmk_r1 {
        Some(r1) => {
            peer::lemma_octets_ft_ptk();
            peer::law_kdf_blocks(
                r1.key@,
                peer::octets_ft_ptk(),
                after.snonce@ + anonce@ + before.mac_ap@ + before.mac_sta@,
            );
        },
        None => {},
    }
}

/// Whether key data carries the elements that the access point advertises:
/// nothing is asked where none are known; otherwise the RSNE has to be the same
/// (under Fast Transition, its PMKIDs aside), and so has the RSNXE where the
/// access point advertises one.
pub open spec fn repeats_the_beacon(fw: FourWayState, kdes: handshake4::Kdes) -> bool {
    fw.ap_rsne@.len() > 0 ==> {
        &&& kdes.rsne matches Some(rsne) && (rsne == fw.ap_rsne@ || fw.ft_pmk_r1 is Some
            && elements::rsne_same_but_pmkids(rsne, fw.ap_rsne@))
        &&& fw.ap_rsnxe@.len() > 0 ==> kdes.rsnxe == Some(fw.ap_rsnxe@)
    }
}

/// Whether key data names the channel of the handshake, where Operating Channel
/// Validation is on.
pub open spec fn names_the_channel(fw: FourWayState, plain: Seq<u8>) -> bool {
    fw.ocv matches Some(o) ==> {
        &&& ocv::first_oci(tlv::elements_from(plain, 0)) matches Some(oci)
        &&& ocv::oci_of_freq(o.freq_mhz) matches Some(own)
        &&& oci[1] == own[1]
    }
}

/// Which messages are accepted. A Message 3 needs a derived pairwise key, a
/// counter that is not below the last, an authentic frame, key data that can be
/// read, the elements of the beacon, the channel and, with Extended Key ID, a
/// key id. A group key message needs a counter above the last, and a GTK.
pub proof fn law_accepted_messages(fw: FourWayState, frame: EapolKeyFrame)
    requires
        eapol::is_key_pdu(frame.raw@),
        frame.decodes(frame.raw@),
    ensures
        fw.message_3_error(frame) is None <==> {
            &&& frame.replay_counter >= fw.replay_counter
            &&& fw.ptk is Some
            &&& is_authentic(frame.raw@, fw.mic_alg, fw.ptk->0@.subrange(0, 16))
            &&& fw.clear_data(frame) matches Ok(plain)
            &&& repeats_the_beacon(fw, fw.frame_kdes(frame))
            &&& names_the_channel(fw, plain)
            &&& fw.ext_key_id ==> fw.frame_kdes(frame).key_id is Some
        },
        fw.group_rekey_error(frame) is None <==> {
            &&& frame.replay_counter > fw.replay_counter
            &&& fw.ptk is Some
            &&& is_authentic(frame.raw@, fw.mic_alg, fw.ptk->0@.subrange(0, 16))
            &&& frame.key_data@.len() > 0
            &&& fw.clear_data(frame) matches Ok(plain)
            &&& names_the_channel(fw, plain)
            &&& fw.frame_kdes(frame).gtk is Some
        },
{
    let pdu = frame.raw@;
    assert(without_mic(pdu) =~= eapol::with_mic(pdu, bytes::zeros(16)));
    elements::lemma_same_rsne(fw.ap_rsne@);
}

/// Over a whole handshake, the Message 4 that answers the accepted Message 3 has
/// the Pairwise, MIC and Secure bits, none of Install, Ack, Error, Request and
/// Encrypted Key Data, and the descriptor version that Message 1 named.
pub proof fn law_handshake_on_the_wire(
    start: FourWayState,
    middle: FourWayState,
    end: FourWayState,
    anonce: [u8; 32],
    replay_counter: u64,
    key_info: u16,
    snonce: [u8; 32],
    msg2: Vec<u8>,
    frame: EapolKeyFrame,
    msg4: Vec<u8>,
    kdes: KeyDataKdes,
)
    requires
        middle.message_1_processed(start, anonce, replay_counter, key_info, snonce, Ok(msg2)),
        end.message_3_processed(middle, frame, Ok((msg4, kdes))),
    ensures
        ({
            let info = key_information(msg4@);
            &&& info & 0x0008 != 0 && info & 0x0100 != 0 && info & 0x0200 != 0
            &&& info & 0x0040 == 0 && info & 0x0080 == 0
            &&& info & 0x0400 == 0 && info & 0x0800 == 0 && info & 0x1000 == 0
            &&& info & 7 == key_info & 7
        }),
        is_authentic(msg4@, start.mic_alg, middle.ptk->0@.subrange(0, 16)),
        msg4@.subrange(17, 49) == snonce@,
        frame.replay_counter >= replay_counter,
        bytes::be_nat(msg4@.subrange(9, 17)) == frame.replay_counter,
        end.ptk == middle.ptk,
{
    lemma_clear_bits(key_info);
    law_message_4_on_the_wire(middle, end, frame, msg4, kdes);
}

} // verus!
