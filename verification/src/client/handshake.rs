//! EAPOL over the control port: 802.1X EAP, the 4-way handshake and group
//! rekeys, and the keys they deliver.

use vstd::prelude::*;
use vstd::string::*;

use crate::bytes;
use crate::client::associate::{lemma_wanted_of_first, security_ie, AssociateRequest};
use crate::client::state::{
    AuthSession, Link, ScanEngine, WifiIface, WifiState, RETRY_BACKOFF_INIT_SEC,
};
use crate::crypto::ft::PmkR1;
use crate::crypto::handshake4::{FourWayState, Kdes, KeyDataKdes, MgmtKey, MgmtKeyKde, MicAlg};
use crate::crypto::ocv;
use crate::crypto::owe;
use crate::crypto::primitives;
use crate::eap;
use crate::eap::{EapAction, EapMethod, EapPacket, EapPeer};
use crate::eap_tls::EapTlsMethod;
use crate::error::{ErrorKind, WifiError};
use crate::ieee80211::eapol;
use crate::ieee80211::eapol::EapolKeyFrame;
use crate::ieee80211::elements;
use crate::ieee80211::elements::CipherSuite;
use crate::ieee80211::tlv;
use crate::scan::SecurityType;
use crate::text;

verus! {

/// One step after a completed 4-way handshake.
#[derive(Debug, Clone)]
pub enum KeyStep {
    /// Install the pairwise key for reception alone, under a key id.
    InstallPairwiseRx { key_id: u8, tk: [u8; 16] },
    /// Send an EAPOL frame.
    SendFrame(Vec<u8>),
    /// Install the pairwise key; with a key id it is activated as the default
    /// unicast TX key.
    InstallPairwise { key_id: Option<u8>, tk: [u8; 16] },
    /// Install the group key.
    InstallGroup { index: u8, key: Vec<u8> },
    /// Install the management group key (IGTK).
    InstallMgmtGroup { key: MgmtKeyKde, cipher: CipherSuite },
    /// Install the beacon group key (BIGTK).
    InstallBeaconGroup { key: MgmtKeyKde, cipher: CipherSuite },
}

/// One step after a completed 4-way handshake, as plain data.
pub enum KeyAction {
    InstallPairwiseRx(u8, Seq<u8>),
    SendFrame(Seq<u8>),
    InstallPairwise(Option<u8>, Seq<u8>),
    InstallGroup(u8, Seq<u8>),
    InstallMgmtGroup(MgmtKey, CipherSuite),
    InstallBeaconGroup(MgmtKey, CipherSuite),
}

impl View for KeyStep {
    type V = KeyAction;

    open spec fn view(&self) -> KeyAction {
        match *self {
            KeyStep::InstallPairwiseRx { key_id, tk } => KeyAction::InstallPairwiseRx(key_id, tk@),
            KeyStep::SendFrame(f) => KeyAction::SendFrame(f@),
            KeyStep::InstallPairwise { key_id, tk } => KeyAction::InstallPairwise(key_id, tk@),
            KeyStep::InstallGroup { index, key } => KeyAction::InstallGroup(index, key@),
            KeyStep::InstallMgmtGroup { key, cipher } => KeyAction::InstallMgmtGroup(key@, cipher),
            KeyStep::InstallBeaconGroup { key, cipher } => KeyAction::InstallBeaconGroup(
                key@,
                cipher,
            ),
        }
    }
}

impl KeyAction {
    /// Whether the connection fails with the step. Without the IGTK,
    /// protected management frames are dropped, but the data path works: the
    /// management keys are best effort.
    pub open spec fn is_fatal(self) -> bool {
        !(self is InstallMgmtGroup) && !(self is InstallBeaconGroup)
    }
}

impl KeyStep {
    /// Whether the connection fails with the step.
    pub fn is_fatal(&self) -> (r: bool)
        ensures
            r == self@.is_fatal(),
    {
        !matches!(self, KeyStep::InstallMgmtGroup { .. } | KeyStep::InstallBeaconGroup { .. })
    }
}

/// The steps as plain data.
pub open spec fn actions(steps: Seq<KeyStep>) -> Seq<KeyAction> {
    Seq::new(steps.len(), |i: int| steps[i]@)
}

/// The steps after a completed 4-way handshake. With Extended Key ID the
/// pairwise key is installed in two phases - RX-only before Message 4 (so
/// frames protected with the new key id decrypt), then activated (TX) after
/// Message 4.
pub open spec fn key_plan(
    msg4: Seq<u8>,
    tk: Seq<u8>,
    key_id: Option<u8>,
    kdes: Kdes,
    cipher: CipherSuite,
) -> Seq<KeyAction> {
    (match key_id {
        Some(id) => seq![KeyAction::InstallPairwiseRx(id, tk)],
        None => Seq::empty(),
    }) + seq![KeyAction::SendFrame(msg4), KeyAction::InstallPairwise(key_id, tk)] + (
    match kdes.gtk {
        Some((index, key)) => seq![KeyAction::InstallGroup(index, key)],
        None => Seq::empty(),
    }) + (match kdes.igtk {
        Some(key) => seq![KeyAction::InstallMgmtGroup(key, cipher)],
        None => Seq::empty(),
    }) + (match kdes.bigtk {
        Some(key) => seq![KeyAction::InstallBeaconGroup(key, cipher)],
        None => Seq::empty(),
    })
}

/// What an EAPOL frame asks for.
#[derive(Debug, Clone)]
pub enum PortStep {
    /// Nothing to send. The state says whether the attempt failed.
    Nothing,
    /// Send this EAPOL frame.
    SendFrame(Vec<u8>),
    /// The handshake is complete: perform these steps in order. The bitmap is
    /// the AP's Transition Disable, where it sent one.
    InstallKeys { steps: Vec<KeyStep>, transition_disable: Option<u8> },
    /// The group key changed: send the reply, then install the key. Neither
    /// fails the connection.
    Rekey { reply: Vec<u8>, index: u8, key: Vec<u8> },
    /// The cached PMK is stale: fall back to full authentication.
    Fallback,
}

/// What kind of message an EAPOL-Key frame is, by its Key Information.
#[derive(Debug, Clone, Copy, PartialEq, Eq, Structural)]
pub enum KeyMessage {
    /// 4-way handshake Message 1 (ANonce).
    Message1,
    /// 4-way handshake Message 3 (GTK + MIC).
    Message3,
    /// Group key handshake Message 1.
    GroupMessage1,
    /// None of these: dropped. EAPOL-Key with the Request bit asks the
    /// supplicant to start a handshake; handshakes here are AP-driven only.
    Other,
}

/// What kind of message a Key Information field tells.
pub open spec fn key_message(info: u16) -> KeyMessage {
    let mic = info & eapol::KEY_INFO_MIC != 0;
    let ack = info & eapol::KEY_INFO_ACK != 0;
    let secure = info & eapol::KEY_INFO_SECURE != 0;
    let pairwise = info & eapol::KEY_INFO_PAIRWISE != 0;
    if info & eapol::KEY_INFO_REQUEST != 0 {
        KeyMessage::Other
    } else if !mic && ack {
        KeyMessage::Message1
    } else if mic && secure && pairwise {
        KeyMessage::Message3
    } else if mic && secure && ack {
        KeyMessage::GroupMessage1
    } else {
        KeyMessage::Other
    }
}

/// What kind of message an EAPOL-Key frame is.
pub fn classify(frame: &EapolKeyFrame) -> (r: KeyMessage)
    ensures
        r == key_message(frame.key_info),
{
    if frame.has_request() {
        KeyMessage::Other
    } else if !frame.has_mic() && frame.has_ack() {
        KeyMessage::Message1
    } else if frame.has_mic() && frame.is_secure() && frame.is_pairwise() {
        KeyMessage::Message3
    } else if frame.has_mic() && frame.is_secure() && frame.has_ack() {
        KeyMessage::GroupMessage1
    } else {
        KeyMessage::Other
    }
}

/// What a 4-way handshake starts from.
pub struct HandshakeInput {
    pub pmk: Seq<u8>,
    pub rsne: Seq<u8>,
    pub mic_alg: MicAlg,
    pub ft_pmk_r1: Option<PmkR1>,
}

impl WifiIface {
    /// The SAE PMK, once there is one.
    pub open spec fn sae_pmk(self) -> Option<[u8; 32]> {
        match self.auth.method {
            Some(m) => m.exchange().pmk,
            None => None,
        }
    }

    /// The OWE PMK, once there is one.
    pub open spec fn owe_pmk(self) -> Option<[u8; 32]> {
        match self.auth.owe {
            Some(o) => o.pmk,
            None => None,
        }
    }

    /// The PMK of an authentication without a cache, the security mode whose
    /// elements go with it, and the MIC algorithm of its AKM.
    pub open spec fn fresh_pmk(self) -> (Option<[u8; 32]>, SecurityType, MicAlg) {
        match self.link.bss_info.security {
            SecurityType::Owe => (self.owe_pmk(), SecurityType::Owe, MicAlg::HmacSha256),
            SecurityType::Wpa2Psk => (self.auth.psk_pmk, SecurityType::Wpa2Psk, MicAlg::HmacSha1),
            SecurityType::Wpa2PskSha256 => (
                self.auth.psk_pmk,
                SecurityType::Wpa2PskSha256,
                MicAlg::AesCmac,
            ),
            SecurityType::Wpa2Ent => (self.auth.eap_pmk, SecurityType::Wpa2Ent, MicAlg::HmacSha1),
            SecurityType::Wpa2EntSha256 => (
                self.auth.eap_pmk,
                SecurityType::Wpa2EntSha256,
                MicAlg::AesCmac,
            ),
            SecurityType::SaeExtKey => (
                self.sae_pmk(),
                SecurityType::SaeExtKey,
                MicAlg::HmacSha256,
            ),
            _ => (self.sae_pmk(), SecurityType::Sae, MicAlg::AesCmac),
        }
    }

    /// What a 4-way handshake starts from; none where no PMK is known.
    ///
    /// Initial association with an FT AKM: the handshake runs with the PTK
    /// derived from PMK-R1 (802.11-2020 §12.8); Message 2's RSNE must carry
    /// PMKR1Name as its PMKID, and MDIE + FTIE from the association response
    /// join it.
    ///
    /// Over a cached PMK the RSNE must be the same one the association
    /// request carried (with the PMKID) - the AP verifies that.
    pub open spec fn handshake_input(self) -> Option<HandshakeInput> {
        let cipher = self.link.bss_info.group_mgmt_cipher;
        if self.link.bss_info.security.spec_is_ft() {
            match self.link.ft {
                Some(ft) => Some(
                    HandshakeInput {
                        pmk: bytes::zeros(32),
                        rsne: self.link.advertised(
                            self.link.rsne(Some(ft.pmk_r1.name)) + ft.assoc_resp_ft_ies@,
                        ),
                        mic_alg: MicAlg::AesCmac,
                        ft_pmk_r1: Some(ft.pmk_r1),
                    },
                ),
                None => None,
            }
        } else {
            match self.link.pmksa_in_use {
                Some(entry) => Some(
                    HandshakeInput {
                        pmk: entry.pmk@,
                        rsne: self.link.advertised(self.link.rsne(Some(entry.pmkid))),
                        mic_alg: entry.mic_alg,
                        ft_pmk_r1: None,
                    },
                ),
                None => match self.fresh_pmk() {
                    (Some(pmk), mode, mic_alg) => Some(
                        HandshakeInput {
                            pmk: pmk@,
                            rsne: self.link.advertised(security_ie(mode, None, cipher)),
                            mic_alg,
                            ft_pmk_r1: None,
                        },
                    ),
                    _ => None,
                },
            }
        }
    }

    /// Whether `fw` is a new 4-way handshake of this interface from `input`.
    pub open spec fn starts_from(self, fw: FourWayState, input: HandshakeInput) -> bool {
        &&& fw.is_new()
        &&& fw.pmk@ == input.pmk
        &&& fw.rsne@ == input.rsne
        &&& fw.mic_alg == input.mic_alg
        &&& fw.ft_pmk_r1 == input.ft_pmk_r1
        &&& fw.mac_sta == self.core.mac
        &&& fw.mac_ap == self.link.bss_info.bssid
        &&& fw.ap_rsne@ == self.link.bss_info.ap_rsne@
        &&& fw.ap_rsnxe@ == self.link.bss_info.ap_rsnxe@
        &&& fw.ocv is None
        &&& !fw.ext_key_id
    }

    /// Whether `fw` is a new 4-way handshake of this interface from `input`
    /// with the features that the network and the AP agree on: Operating
    /// Channel Validation over the channel of the BSS, and Extended Key ID.
    pub open spec fn begins_with(self, fw: FourWayState, input: HandshakeInput) -> bool {
        &&& self.starts_from(FourWayState { ocv: None, ext_key_id: false, ..fw }, input)
        &&& match fw.ocv {
            Some(o) => {
                &&& self.link.wants_ocv()
                &&& o.freq_mhz == self.link.bss_info.freq_mhz
                &&& ocv::oci_of_freq(self.link.bss_info.freq_mhz) == Some(o.oci@)
            },
            None => !self.link.wants_ocv(),
        }
        &&& fw.ext_key_id == self.link.wants_ext_key_id()
    }

    /// A new 4-way handshake; none where no PMK is known.
    fn new_fourway(&self, snonce: [u8; 32]) -> (r: Option<FourWayState>)
        ensures
            match self.handshake_input() {
                Some(input) => r matches Some(fw) && self.starts_from(fw, input),
                None => r is None,
            },
    {
        let cipher = self.link.bss_info.group_mgmt_cipher;
        let zero: [u8; 32] = [0u8; 32];
        assert(zero@ =~= bytes::zeros(32));
        let (pmk, ie, mic_alg, ft_pmk_r1) = if self.link.bss_info.security.is_ft() {
            match &self.link.ft {
                Some(ft) => {
                    let mut ie = self.link.rsne_with_pmkid(Some(ft.pmk_r1.name));
                    bytes::append(&mut ie, ft.assoc_resp_ft_ies.as_slice());
                    (zero, ie, MicAlg::AesCmac, Some(ft.pmk_r1))
                },
                None => {
                    return None;
                },
            }
        } else {
            match &self.link.pmksa_in_use {
                Some(entry) => (
                    entry.pmk,
                    self.link.rsne_with_pmkid(Some(entry.pmkid)),
                    entry.mic_alg,
                    None,
                ),
                None => {
                    let (pmk, ie, mic_alg) = match self.link.bss_info.security {
                        SecurityType::Owe => (
                            match &self.auth.owe {
                                Some(o) => o.pmk(),
                                None => None,
                            },
                            elements::owe_ie_cipher(cipher),
                            MicAlg::HmacSha256,
                        ),
                        SecurityType::Wpa2Psk => (
                            self.auth.psk_pmk,
                            elements::wpa2_psk_ie_cipher(cipher),
                            MicAlg::HmacSha1,
                        ),
                        SecurityType::Wpa2PskSha256 => (
                            self.auth.psk_pmk,
                            elements::wpa2_psk_sha256_ie_cipher(cipher),
                            MicAlg::AesCmac,
                        ),
                        SecurityType::Wpa2Ent => (
                            self.auth.eap_pmk,
                            elements::wpa2_ent_ie_cipher(cipher),
                            MicAlg::HmacSha1,
                        ),
                        SecurityType::Wpa2EntSha256 => (
                            self.auth.eap_pmk,
                            elements::wpa2_ent_sha256_ie_cipher(cipher),
                            MicAlg::AesCmac,
                        ),
                        SecurityType::SaeExtKey => (
                            self.current_sae_pmk(),
                            elements::sae_ext_key_ie_cipher(cipher),
                            MicAlg::HmacSha256,
                        ),
                        _ => (
                            self.current_sae_pmk(),
                            elements::sae_ie_cipher(cipher),
                            MicAlg::AesCmac,
                        ),
                    };
                    match pmk {
                        Some(pmk) => (pmk, ie, mic_alg, None),
                        None => {
                            return None;
                        },
                    }
                },
            }
        };
        let rsne = self.link.advertise(ie);
        Some(
            FourWayState::with_snonce(
                &pmk,
                mic_alg,
                self.core.mac,
                self.link.bss_info.bssid,
                rsne,
                bytes::to_vec(self.link.bss_info.ap_rsne.as_slice()),
                bytes::to_vec(self.link.bss_info.ap_rsnxe.as_slice()),
                ft_pmk_r1,
                snonce,
            ),
        )
    }

    /// The SAE PMK, once there is one.
    fn current_sae_pmk(&self) -> (r: Option<[u8; 32]>)
        ensures
            r == self.sae_pmk(),
    {
        match &self.auth.method {
            Some(m) => m.pmk(),
            None => None,
        }
    }

    /// Whether a Message 1 has to wait: with an FT AKM the PTK comes from the
    /// FT key hierarchy, whose parameters only become known through the
    /// association response event - which can race behind this first EAPOL
    /// frame.
    pub open spec fn buffers_message_1(self) -> bool {
        self.link.bss_info.security.spec_is_ft() && self.link.ft is None
    }

    /// Whether the channel of the link cannot be validated although it should
    /// be.
    pub open spec fn ocv_unmappable(self) -> bool {
        &&& self.link.wants_ocv()
        &&& ocv::oci_of_freq(self.link.bss_info.freq_mhz) is None
    }

    /// Answer a 4-way handshake Message 1 under a given SNonce.
    fn on_message_1(&mut self, parsed: &EapolKeyFrame, frame: &[u8], snonce: [u8; 32]) -> (r:
        PortStep)
        requires
            old(self).wf(),
        ensures
            final(self).wf(),
            message_1_outcome(*old(self), *final(self), *parsed, frame@, snonce, r),
    {
        if self.link.bss_info.security.is_ft() && self.link.ft.is_none() {
            self.link.pending_ft_msg1 = Some(bytes::to_vec(frame));
            return PortStep::Nothing;
        }
        let mut fw = match self.link.fourway.take() {
            Some(fw) => fw,
            None => {
                let mut fw = match self.new_fourway(snonce) {
                    Some(fw) => fw,
                    None => {
                        self.state = WifiState::Failed;
                        return PortStep::Nothing;
                    },
                };
                let ghost plain = fw;
                if !self.link.enable_ocv(&mut fw) {
                    self.state = WifiState::Failed;
                    return PortStep::Nothing;
                }
                fw.set_ext_key_id(self.link.ext_key_id_enabled());
                assert((FourWayState { ocv: None, ext_key_id: false, ..fw }) == plain);
                fw
            },
        };
        let ghost fw0 = fw;
        let answer = fw.process_message_1_with(
            &parsed.key_nonce,
            parsed.replay_counter,
            parsed.key_info,
            snonce,
        );
        let ghost fw1 = fw;
        let ghost given = answer;
        let r = self.finish_message_1(fw, answer);
        assert(answered(*old(self), *self, *parsed, fw0, fw1, snonce, given, r));
        r
    }

    /// Act on what the handshake made of a Message 1; `fw` is the handshake
    /// after it.
    pub fn finish_message_1(&mut self, fw: FourWayState, answer: Result<Vec<u8>, WifiError>) -> (r:
        PortStep)
        requires
            old(self).wf(),
        ensures
            final(self).wf(),
            message_1_acted(*old(self), *final(self), fw, answer, r),
    {
        self.link.fourway = Some(fw);
        match answer {
            Ok(msg2) => PortStep::SendFrame(msg2),
            Err(_) => {
                self.state = WifiState::Failed;
                PortStep::Nothing
            },
        }
    }

    /// Handle a 4-way handshake Message 3.
    fn on_message_3(&mut self, parsed: &EapolKeyFrame) -> (r: PortStep)
        requires
            old(self).wf(),
        ensures
            final(self).wf(),
            message_3_outcome(*old(self), *final(self), *parsed, r),
    {
        let mut fw = match self.link.fourway.take() {
            Some(fw) => fw,
            None => {
                self.state = WifiState::Failed;
                return PortStep::Nothing;
            },
        };
        let processed = fw.process_message_3(parsed);
        let ghost fw1 = fw;
        let ghost p = processed;
        let r = self.finish_message_3(fw, processed);
        assert(message_3_acted(*old(self), *self, fw1, p, r));
        r
    }

    /// Act on what the handshake made of a Message 3; `fw` is the handshake
    /// after it.
    pub fn finish_message_3(
        &mut self,
        fw: FourWayState,
        processed: Result<(Vec<u8>, KeyDataKdes), WifiError>,
    ) -> (r: PortStep)
        requires
            old(self).wf(),
        ensures
            final(self).wf(),
            message_3_acted(*old(self), *final(self), fw, processed, r),
    {
        let tk = fw.tk();
        let key_id: Option<u8> = fw.key_id();
        self.link.fourway = Some(fw);
        match (processed, tk) {
            (Ok((msg4, kdes)), Some(tk)) => {
                let transition_disable = kdes.transition_disable;
                let steps = key_steps(
                    msg4,
                    tk,
                    key_id,
                    kdes,
                    self.link.bss_info.group_mgmt_cipher,
                );
                PortStep::InstallKeys { steps, transition_disable }
            },
            (Ok(_), None) => {
                self.state = WifiState::Failed;
                PortStep::Nothing
            },
            (Err(e), _) => {
                // SAE already proved the passphrase, so a Message 3 MIC
                // mismatch here is a transient frame/AP issue: retry on the
                // short backoff. With a cached PMK it means the cache entry is
                // stale: drop it and fall back to full authentication right
                // away.
                if self.link.pmksa_in_use.is_some() {
                    return PortStep::Fallback;
                }
                let mismatch = text::text("MIC mismatch");
                if self.link.bss_info.security.is_psk() && text::same_text(&e.msg, &mismatch) {
                    // WPA2-PSK/FT-PSK verifies the passphrase only in the
                    // 4-way handshake; a Message 3 MIC mismatch is the
                    // wrong-password signal.
                    let err = WifiError::wrong_password(self.link.network.ssid.as_str());
                    self.fail_auth(err);
                } else {
                    self.state = WifiState::Failed;
                }
                PortStep::Nothing
            },
        }
    }

    /// Handle a group key handshake Message 1: GTK rekey while connected.
    fn on_group_message_1(&mut self, parsed: &EapolKeyFrame) -> (r: PortStep)
        requires
            old(self).wf(),
        ensures
            final(self).wf(),
            group_outcome(*old(self), *final(self), *parsed, r),
    {
        let mut fw = match self.link.fourway.take() {
            Some(fw) => fw,
            None => {
                return PortStep::Nothing;
            },
        };
        let processed = fw.process_group_rekey(parsed);
        let ghost fw1 = fw;
        let ghost p = processed;
        let r = self.finish_group_rekey(fw, processed);
        assert(group_acted(*old(self), *self, fw1, p, r));
        r
    }

    /// Act on what the handshake made of a group key handshake Message 1; `fw`
    /// is the handshake after it.
    pub fn finish_group_rekey(&mut self, fw: FourWayState, processed: Result<Vec<u8>, WifiError>) -> (
        r: PortStep)
        requires
            old(self).wf(),
        ensures
            final(self).wf(),
            group_acted(*old(self), *final(self), fw, processed, r),
    {
        let index: u8 = fw.gtk_index();
        let key: Option<Vec<u8>> = match fw.gtk() {
            Some(g) => Some(bytes::to_vec(g)),
            None => None,
        };
        self.link.fourway = Some(fw);
        match (processed, key) {
            (Ok(reply), Some(key)) => PortStep::Rekey { reply, index, key },
            _ => PortStep::Nothing,
        }
    }

    /// Handle a parsed EAPOL-Key frame (4-way handshake / group rekey) under
    /// a given SNonce; `frame` is what was parsed.
    pub fn handle_key_frame(&mut self, parsed: &EapolKeyFrame, frame: &[u8], snonce: [u8; 32]) -> (r:
        PortStep)
        requires
            old(self).wf(),
        ensures
            final(self).wf(),
            key_frame_outcome(*old(self), *final(self), *parsed, frame@, snonce, r),
    {
        match classify(parsed) {
            KeyMessage::Message1 => self.on_message_1(parsed, frame, snonce),
            KeyMessage::Message3 => self.on_message_3(parsed),
            KeyMessage::GroupMessage1 => self.on_group_message_1(parsed),
            KeyMessage::Other => PortStep::Nothing,
        }
    }

    /// Handle a frame of the control port: 802.1X EAP frames (EAPOL type 0)
    /// arrive on the same control port as EAPOL-Key frames (4-way handshake /
    /// group rekey). A Message 1 is answered under a random SNonce; where the
    /// system gives no randomness, the attempt fails.
    pub fn handle_control_port_frame(&mut self, frame: &[u8]) -> (r: PortStep)
        requires
            old(self).wf(),
        ensures
            final(self).wf(),
            control_port_outcome(*old(self), *final(self), frame@, r),
    {
        if let Some(eap_pdu) = eapol::parse_eapol_eap_frame(frame) {
            return self.handle_eap_frame(eap_pdu.as_slice());
        }
        let parsed = match eapol::parse_eapol_key_frame(frame) {
            Some(parsed) => parsed,
            None => {
                return PortStep::Nothing;
            },
        };
        let waits = self.link.bss_info.security.is_ft() && self.link.ft.is_none();
        let snonce: [u8; 32] = match classify(&parsed) {
            KeyMessage::Message1 if !waits => match primitives::random_32() {
                Some(snonce) => snonce,
                None => {
                    self.state = WifiState::Failed;
                    return PortStep::Nothing;
                },
            },
            _ => [0u8; 32],
        };
        let step = self.handle_key_frame(&parsed, frame, snonce);
        assert(key_frame_outcome(*old(self), *self, parsed, frame@, snonce, step));
        step
    }

    /// Feed an EAP packet into the 802.1X peer state machine and act on its
    /// output (response / Success / Failure).
    #[verifier::rlimit(40)]
    pub fn handle_eap_frame(&mut self, eap_pdu: &[u8]) -> (r: PortStep)
        requires
            old(self).wf(),
        ensures
            final(self).wf(),
            eap_outcome(*old(self), *final(self), eap_pdu@, r),
    {
        let packet = match EapPacket::parse(eap_pdu) {
            Some(p) => p,
            None => {
                return PortStep::Nothing;
            },
        };
        let mut peer = match self.auth.eap_peer.take() {
            Some(p) => p,
            None => {
                return PortStep::Nothing;
            },
        };
        let ghost peer0 = peer;
        let handled = peer.handle_packet(&packet);
        let msk = peer.msk();
        self.auth.eap_peer = Some(peer);
        let ghost kept = *self;
        let ghost outcome = handled;
        let r = self.act_on_eap(handled, msk);
        proof {
            assert(!(peer0.step(packet@) is AskMethod) ==> kept == *old(self));
            if peer0.step(packet@) is AskMethod {
                let answer = choose|answer: Result<Vec<u8>, WifiError>| #[trigger]
                    kept.auth.eap_peer->0.asked(peer0, packet@, answer, outcome);
                assert(method_acted(*old(self), *self, peer0, packet@, answer, r));
            } else if let Err(cause) = outcome {
                assert(eap_broken(*old(self), *self, kept.auth, cause));
            }
        }
        r
    }

    /// Act on what the 802.1X peer made of a packet; `msk` is the MSK of its
    /// method.
    fn act_on_eap(&mut self, handled: Result<EapAction, WifiError>, msk: Option<[u8; 64]>) -> (r:
        PortStep)
        requires
            old(self).wf(),
        ensures
            final(self).wf(),
            match handled {
                Ok(EapAction::Respond(response)) => {
                    &&& r matches PortStep::SendFrame(f)
                    &&& f@ == eapol::eap_frame(response@)
                    &&& *final(self) == *old(self)
                },
                Ok(EapAction::Success) => r is Nothing && eap_succeeded(
                    *old(self),
                    *final(self),
                    msk,
                ),
                Ok(EapAction::Failure) => {
                    &&& r is Nothing
                    &&& final(self).last_error matches Some(e)
                    &&& e.is(
                        ErrorKind::AuthFailed,
                        "EAP authentication failed: check the configured EAP credentials"@,
                    )
                    &&& final(self).auth_failed(*old(self), old(self).auth, e)
                },
                Ok(EapAction::Wait) => r is Nothing && *final(self) == *old(self),
                Err(cause) => r is Nothing && eap_broken(
                    *old(self),
                    *final(self),
                    old(self).auth,
                    cause,
                ),
            },
    {
        match handled {
            Ok(EapAction::Respond(response)) => PortStep::SendFrame(
                eapol::build_eapol_eap_frame(response.as_slice()),
            ),
            Ok(EapAction::Success) => {
                match msk {
                    Some(msk) => {
                        self.auth.eap_pmk = Some(bytes::array32(&msk, 0));
                    },
                    None => {
                        let e = WifiError::new(ErrorKind::AuthFailed, "EAP-Success without an MSK");
                        self.fail_auth(e);
                    },
                }
                PortStep::Nothing
            },
            Ok(EapAction::Failure) => {
                let e = WifiError::new(
                    ErrorKind::AuthFailed,
                    "EAP authentication failed: check the configured EAP credentials",
                );
                self.fail_auth(e);
                PortStep::Nothing
            },
            Ok(EapAction::Wait) => PortStep::Nothing,
            Err(cause) => {
                let t = cause.to_text();
                let msg = text::text2("EAP authentication failed: ", t.as_str());
                let e = WifiError::new(ErrorKind::AuthFailed, msg.as_str());
                self.fail_auth(e);
                PortStep::Nothing
            },
        }
    }

    /// An EAPOL frame could not be sent, or a key that the connection needs
    /// could not be installed.
    pub fn port_step_failed(&mut self)
        ensures
            *final(self) == (WifiIface { state: WifiState::Failed, ..*old(self) }),
    {
        self.state = WifiState::Failed;
    }

    /// What the driver needs to rekey the group key by itself: KEK, KCK and
    /// replay counter.
    pub fn rekey_offload(&self) -> (r: Option<([u8; 16], [u8; 16], [u8; 8])>)
        ensures
            match self.link.fourway {
                Some(fw) => {
                    &&& r is Some <==> fw.ptk is Some
                    &&& r matches Some((kek, kck, ctr)) ==> kek@ == fw.spec_kek() && kck@
                        == fw.spec_kck() && ctr@ == bytes::be64_bytes(fw.replay_counter)
                    &&& r matches Some((kek, kck, ctr)) ==> kek@ == fw.ptk->0@.subrange(16, 32)
                        && kck@ == fw.ptk->0@.subrange(0, 16)
                },
                None => r is None,
            },
    {
        match &self.link.fourway {
            Some(fw) => match (fw.kek(), fw.kck()) {
                (Some(kek), Some(kck)) => Some((kek, kck, fw.replay_counter_bytes())),
                _ => None,
            },
            None => None,
        }
    }

    /// The keys are installed: the connection is established. The state tells
    /// whether the driver took over group rekeys.
    pub fn handshake_done(&mut self, offloaded: bool)
        requires
            old(self).wf(),
        ensures
            final(self).wf(),
            *final(self) == (WifiIface {
                scan: ScanEngine {
                    scan_retry_interval: RETRY_BACKOFF_INIT_SEC,
                    ..old(self).scan
                },
                state: if offloaded {
                    WifiState::ConnectedWithOffloadRekey
                } else {
                    WifiState::ConnectedWithoutOffloadRekey
                },
                ..*old(self)
            }),
    {
        self.scan.scan_retry_interval = RETRY_BACKOFF_INIT_SEC;
        self.state = if offloaded {
            WifiState::ConnectedWithOffloadRekey
        } else {
            WifiState::ConnectedWithoutOffloadRekey
        };
    }

    /// Process the Association Response IEs for OWE: find the AP's DH
    /// Parameter Element and derive PMK/PMKID (RFC 8110 §4.4). Returns true
    /// on success.
    pub fn process_owe_assoc_response(&mut self, ies: Option<&[u8]>) -> (r: bool)
        requires
            old(self).wf(),
        ensures
            final(self).wf(),
            ({
                let octets = match ies {
                    Some(s) => Some(s@),
                    None => None,
                };
                match old(self).owe_dh(octets) {
                    Some(dh) => {
                        &&& r
                        &&& final(self).auth.owe matches Some(after)
                        &&& after.derives(old(self).auth.owe->0, dh)
                        &&& *final(self) == (WifiIface {
                            auth: AuthSession { owe: Some(after), ..old(self).auth },
                            ..*old(self)
                        })
                    },
                    None => !r && *final(self) == *old(self),
                }
            }),
    {
        let ies = match ies {
            Some(ies) => ies,
            None => {
                return false;
            },
        };
        let dh_data = match owe::find_owe_dh_element(ies) {
            Some(d) => d,
            None => {
                return false;
            },
        };
        let mut exchange = match self.auth.owe.take() {
            Some(o) => o,
            None => {
                return false;
            },
        };
        let processed = exchange.process_ap_dh_element(dh_data);
        self.auth.owe = Some(exchange);
        processed.is_ok()
    }

    /// The DH Parameter data of an association response that completes the OWE
    /// exchange; none where it does not.
    pub open spec fn owe_dh(self, ies: Option<Seq<u8>>) -> Option<Seq<u8>> {
        match (self.auth.owe, ies) {
            (Some(_), Some(ies)) => match owe::first_dh(tlv::elements_from(ies, 0)) {
                Some(d) if owe::dh_error(d) is None => Some(d),
                _ => None,
            },
            _ => None,
        }
    }
}

/// The steps after a completed 4-way handshake.
fn key_steps(
    msg4: Vec<u8>,
    tk: [u8; 16],
    key_id: Option<u8>,
    kdes: KeyDataKdes,
    cipher: CipherSuite,
) -> (r: Vec<KeyStep>)
    ensures
        actions(r@) == key_plan(msg4@, tk@, key_id, kdes@, cipher),
{
    let mut steps: Vec<KeyStep> = Vec::new();
    let ghost m = msg4@;
    let ghost k = kdes@;
    if let Some(id) = key_id {
        steps.push(KeyStep::InstallPairwiseRx { key_id: id, tk });
    }
    steps.push(KeyStep::SendFrame(msg4));
    steps.push(KeyStep::InstallPairwise { key_id, tk });
    if let Some((index, key)) = kdes.gtk {
        steps.push(KeyStep::InstallGroup { index, key });
    }
    if let Some(key) = kdes.igtk {
        steps.push(KeyStep::InstallMgmtGroup { key, cipher });
    }
    if let Some(key) = kdes.bigtk {
        steps.push(KeyStep::InstallBeaconGroup { key, cipher });
    }
    assert(actions(steps@) =~= key_plan(m, tk@, key_id, k, cipher));
    steps
}

/// Whether `after` and `r` are what follows in `before` on a processed Message
/// 1: `fw` is the handshake after it and `answer` what it gave.
pub open spec fn message_1_acted(
    before: WifiIface,
    after: WifiIface,
    fw: FourWayState,
    answer: Result<Vec<u8>, WifiError>,
    r: PortStep,
) -> bool {
    let moved = WifiIface { link: Link { fourway: Some(fw), ..before.link }, ..before };
    match answer {
        Ok(msg2) => r matches PortStep::SendFrame(f) && f == msg2 && after == moved,
        Err(_) => r is Nothing && after == (WifiIface { state: WifiState::Failed, ..moved }),
    }
}

/// Whether `after` and `r` are `before` after a Message 1 was put to its
/// handshake `fw0`, begun for it where there was none; it became `fw1` and gave
/// `answer`.
pub open spec fn answered(
    before: WifiIface,
    after: WifiIface,
    parsed: EapolKeyFrame,
    fw0: FourWayState,
    fw1: FourWayState,
    snonce: [u8; 32],
    answer: Result<Vec<u8>, WifiError>,
    r: PortStep,
) -> bool {
    &&& match before.link.fourway {
        Some(fw) => fw == fw0,
        None => before.handshake_input() matches Some(input) && before.begins_with(fw0, input),
    }
    &&& fw1.message_1_processed(
        fw0,
        parsed.key_nonce,
        parsed.replay_counter,
        parsed.key_info,
        snonce,
        answer,
    )
    &&& message_1_acted(before, after, fw1, answer, r)
}

/// Whether `after` and `r` are what a Message 1 makes of `before`.
pub open spec fn message_1_outcome(
    before: WifiIface,
    after: WifiIface,
    parsed: EapolKeyFrame,
    frame: Seq<u8>,
    snonce: [u8; 32],
    r: PortStep,
) -> bool {
    if before.buffers_message_1() {
        &&& r is Nothing
        &&& after.link.pending_ft_msg1 matches Some(f)
        &&& f@ == frame
        &&& after == (WifiIface {
            link: Link { pending_ft_msg1: Some(f), ..before.link },
            ..before
        })
    } else if before.link.fourway is None && (before.handshake_input() is None
        || before.ocv_unmappable()) {
        r is Nothing && after == (WifiIface { state: WifiState::Failed, ..before })
    } else {
        exists|fw0: FourWayState, fw1: FourWayState, answer: Result<Vec<u8>, WifiError>| #[trigger]
            answered(before, after, parsed, fw0, fw1, snonce, answer, r)
    }
}

/// Whether `after` and `r` are what follows in `before` on a processed Message
/// 3: `fw` is the handshake after it and `processed` what it gave.
pub open spec fn message_3_acted(
    before: WifiIface,
    after: WifiIface,
    fw: FourWayState,
    processed: Result<(Vec<u8>, KeyDataKdes), WifiError>,
    r: PortStep,
) -> bool {
    let moved = WifiIface { link: Link { fourway: Some(fw), ..before.link }, ..before };
    match processed {
        Ok((msg4, kdes)) => if fw.ptk is Some {
            &&& r matches PortStep::InstallKeys { steps, transition_disable }
            &&& transition_disable == kdes.transition_disable
            &&& actions(steps@) == key_plan(
                msg4@,
                fw.spec_tk(),
                fw.key_id,
                kdes@,
                before.link.bss_info.group_mgmt_cipher,
            )
            &&& after == moved
        } else {
            r is Nothing && after == (WifiIface { state: WifiState::Failed, ..moved })
        },
        Err(e) => if before.link.pmksa_in_use is Some {
            r is Fallback && after == moved
        } else if before.link.bss_info.security.spec_is_psk() && e.msg@ == "MIC mismatch"@ {
            &&& r is Nothing
            &&& after.last_error matches Some(wrong)
            &&& wrong.is(
                ErrorKind::WrongPassword,
                "wrong password for SSID '"@ + before.link.network.ssid@ + "'"@,
            )
            &&& after.auth_failed(moved, before.auth, wrong)
        } else {
            r is Nothing && after == (WifiIface { state: WifiState::Failed, ..moved })
        },
    }
}

/// Whether `after` and `r` are what a Message 3 makes of `before`.
pub open spec fn message_3_outcome(
    before: WifiIface,
    after: WifiIface,
    parsed: EapolKeyFrame,
    r: PortStep,
) -> bool {
    match before.link.fourway {
        None => r is Nothing && after == (WifiIface { state: WifiState::Failed, ..before }),
        Some(fw0) => exists|
            fw1: FourWayState,
            processed: Result<(Vec<u8>, KeyDataKdes), WifiError>,
        |
            fw1.message_3_processed(fw0, parsed, processed) && #[trigger] message_3_acted(
                before,
                after,
                fw1,
                processed,
                r,
            ),
    }
}

/// Whether `after` and `r` are what follows in `before` on a processed group
/// key handshake Message 1: `fw` is the handshake after it and `processed` what
/// it gave.
pub open spec fn group_acted(
    before: WifiIface,
    after: WifiIface,
    fw: FourWayState,
    processed: Result<Vec<u8>, WifiError>,
    r: PortStep,
) -> bool {
    &&& after == (WifiIface { link: Link { fourway: Some(fw), ..before.link }, ..before })
    &&& match (processed, fw.gtk) {
        (Ok(msg2), Some(gtk)) => {
            &&& r matches PortStep::Rekey { reply, index, key }
            &&& reply == msg2
            &&& index == fw.gtk_index
            &&& key@ == gtk@
        },
        _ => r is Nothing,
    }
}

/// Whether `after` and `r` are what a group key handshake Message 1 makes of
/// `before`.
pub open spec fn group_outcome(
    before: WifiIface,
    after: WifiIface,
    parsed: EapolKeyFrame,
    r: PortStep,
) -> bool {
    match before.link.fourway {
        None => r is Nothing && after == before,
        Some(fw0) => exists|fw1: FourWayState, processed: Result<Vec<u8>, WifiError>|
            fw1.group_rekey_processed(fw0, parsed, processed) && #[trigger] group_acted(
                before,
                after,
                fw1,
                processed,
                r,
            ),
    }
}

/// Whether `after` and `r` are what an EAPOL-Key frame makes of `before`.
pub open spec fn key_frame_outcome(
    before: WifiIface,
    after: WifiIface,
    parsed: EapolKeyFrame,
    frame: Seq<u8>,
    snonce: [u8; 32],
    r: PortStep,
) -> bool {
    match key_message(parsed.key_info) {
        KeyMessage::Message1 => message_1_outcome(before, after, parsed, frame, snonce, r),
        KeyMessage::Message3 => message_3_outcome(before, after, parsed, r),
        KeyMessage::GroupMessage1 => group_outcome(before, after, parsed, r),
        KeyMessage::Other => r is Nothing && after == before,
    }
}

/// Whether `after` is `before` after EAP-Success: the first half of the MSK is
/// the PMK. Without an MSK the authentication fails.
pub open spec fn eap_succeeded(before: WifiIface, after: WifiIface, msk: Option<[u8; 64]>) -> bool {
    match msk {
        Some(msk) => {
            &&& after.auth.eap_pmk matches Some(pmk)
            &&& pmk@ == msk@.subrange(0, 32)
            &&& after == (WifiIface {
                auth: AuthSession { eap_pmk: Some(pmk), ..before.auth },
                ..before
            })
        },
        None => {
            &&& after.last_error matches Some(e)
            &&& e.is(ErrorKind::AuthFailed, "EAP-Success without an MSK"@)
            &&& after.auth_failed(before, before.auth, e)
        },
    }
}

/// Whether `after` is `before` after the 802.1X peer failed on a packet for
/// `cause`.
pub open spec fn eap_broken(
    before: WifiIface,
    after: WifiIface,
    auth: AuthSession,
    cause: WifiError,
) -> bool {
    &&& after.last_error matches Some(e)
    &&& e.is(ErrorKind::AuthFailed, "EAP authentication failed: "@ + cause.spec_text())
    &&& after.auth_failed(before, auth, e)
}

/// Whether `after` and `r` are what a Request for the method of `peer` makes of
/// `before`, where the method answers it with `answer`: the method steps once,
/// a Response is sent, and an error fails the authentication.
pub open spec fn method_acted(
    before: WifiIface,
    after: WifiIface,
    peer: EapPeer<EapTlsMethod>,
    p: eap::Packet,
    answer: Result<Vec<u8>, WifiError>,
    r: PortStep,
) -> bool {
    let moved = after.auth.eap_peer->0;
    let auth = AuthSession { eap_peer: Some(moved), ..before.auth };
    &&& after.auth.eap_peer is Some
    &&& moved == (EapPeer { method: moved.method, ..peer })
    &&& moved.method is Some
    &&& peer.method->0.steps(p.identifier, p.body, &moved.method->0, answer)
    &&& match answer {
        Ok(body) => {
            &&& r matches PortStep::SendFrame(f)
            &&& f@ == eapol::eap_frame(eap::response_octets(p.identifier, p.type_->0, body@))
            &&& after == (WifiIface { auth, ..before })
        },
        Err(cause) => r is Nothing && eap_broken(before, after, auth, cause),
    }
}

/// Whether `after` and `r` are what an EAP packet makes of `before`.
pub open spec fn eap_outcome(
    before: WifiIface,
    after: WifiIface,
    eap_pdu: Seq<u8>,
    r: PortStep,
) -> bool {
    match (eap::parsed_packet(eap_pdu), before.auth.eap_peer) {
        (Some(p), Some(peer)) => {
            &&& after.auth.eap_peer is Some
            &&& match peer.step(p) {
                eap::Step::Success => r is Nothing && eap_succeeded(
                    before,
                    after,
                    peer.msk_known(),
                ),
                eap::Step::Failure => {
                    &&& r is Nothing
                    &&& after.last_error matches Some(e)
                    &&& e.is(
                        ErrorKind::AuthFailed,
                        "EAP authentication failed: check the configured EAP credentials"@,
                    )
                    &&& after.auth_failed(before, before.auth, e)
                },
                eap::Step::Wait => r is Nothing && after == before,
                eap::Step::NoType => {
                    &&& r is Nothing
                    &&& exists|cause: WifiError|
                        cause.is(ErrorKind::HandshakeFailed, "EAP Request without a Type"@)
                            && #[trigger] eap_broken(before, after, before.auth, cause)
                },
                eap::Step::Answer(type_, body) => {
                    &&& r matches PortStep::SendFrame(f)
                    &&& f@ == eapol::eap_frame(eap::response_octets(p.identifier, type_, body))
                    &&& after == before
                },
                eap::Step::AskMethod => exists|answer: Result<Vec<u8>, WifiError>| #[trigger]
                    method_acted(before, after, peer, p, answer, r),
            }
        },
        _ => r is Nothing && after == before,
    }
}

/// Whether `after` and `r` are what a control port frame makes of `before`.
pub open spec fn control_port_outcome(
    before: WifiIface,
    after: WifiIface,
    frame: Seq<u8>,
    r: PortStep,
) -> bool {
    if eapol::is_eap_frame(frame) {
        eap_outcome(before, after, eapol::eap_of(frame), r)
    } else if !eapol::is_key_pdu(frame) {
        r is Nothing && after == before
    } else {
        ||| exists|parsed: EapolKeyFrame, snonce: [u8; 32]|
            parsed.decodes(frame) && #[trigger] key_frame_outcome(
                before,
                after,
                parsed,
                frame,
                snonce,
                r,
            )
        ||| {
            &&& key_message(bytes::be16(frame[5], frame[6])) == KeyMessage::Message1
            &&& !before.buffers_message_1()
            &&& r is Nothing
            &&& after == (WifiIface { state: WifiState::Failed, ..before })
        }
    }
}

/// A Message 3 that the handshake refuses installs nothing and sends nothing.
/// Without a cached PMK, it means a wrong password exactly where its MIC does
/// not match in a mode that proves the passphrase in the handshake: WPA2-PSK,
/// PSK-SHA256 and FT-PSK.
pub proof fn law_mic_mismatch_is_wrong_password(
    before: WifiIface,
    after: WifiIface,
    fw: FourWayState,
    cause: WifiError,
    r: PortStep,
)
    requires
        before.link.pmksa_in_use is None,
        message_3_acted(before, after, fw, Err(cause), r),
    ensures
        r is Nothing,
        ({
            let security = before.link.bss_info.security;
            let psk = security == SecurityType::Wpa2Psk || security == SecurityType::Wpa2PskSha256
                || security == SecurityType::FtPsk;
            if psk && cause.msg@ == "MIC mismatch"@ {
                &&& after.state == WifiState::FailedAuthentication
                &&& after.last_error matches Some(e)
                &&& e.is(
                    ErrorKind::WrongPassword,
                    "wrong password for SSID '"@ + before.link.network.ssid@ + "'"@,
                )
            } else {
                after.state == WifiState::Failed && after.last_error == before.last_error
            }
        }),
{
}

/// Keys are installed after a Message 3 exactly where the handshake finds
/// nothing wrong with it.
pub proof fn law_keys_follow_an_accepted_message_3(
    before: WifiIface,
    after: WifiIface,
    parsed: EapolKeyFrame,
    r: PortStep,
)
    requires
        before.link.fourway is Some,
        message_3_outcome(before, after, parsed, r),
    ensures
        r is InstallKeys <==> before.link.fourway->0.message_3_error(parsed) is None,
{
}

/// A group rekey is answered and its key installed exactly where the handshake
/// finds nothing wrong with the message.
pub proof fn law_rekey_follows_an_accepted_message(
    before: WifiIface,
    after: WifiIface,
    parsed: EapolKeyFrame,
    r: PortStep,
)
    requires
        before.link.fourway is Some,
        group_outcome(before, after, parsed, r),
    ensures
        r is Rekey <==> before.link.fourway->0.group_rekey_error(parsed) is None,
{
}

/// A Message 1 that need not wait is answered wherever there is a handshake to
/// put it to, or one can be begun.
pub proof fn law_message_1_is_answered(
    before: WifiIface,
    after: WifiIface,
    parsed: EapolKeyFrame,
    frame: Seq<u8>,
    snonce: [u8; 32],
    r: PortStep,
)
    requires
        !before.buffers_message_1(),
        before.link.fourway is Some || before.handshake_input() is Some
            && !before.ocv_unmappable(),
        message_1_outcome(before, after, parsed, frame, snonce, r),
    ensures
        r is SendFrame,
        after.state == before.state,
{
}

/// Message 4 is sent before the pairwise key is installed for sending, and
/// after it is installed for reception where there is such a phase.
pub proof fn law_message_4_before_pairwise_key(
    msg4: Seq<u8>,
    tk: Seq<u8>,
    key_id: Option<u8>,
    kdes: Kdes,
    cipher: CipherSuite,
    i: int,
    j: int,
)
    requires
        0 <= i < key_plan(msg4, tk, key_id, kdes, cipher).len(),
        0 <= j < key_plan(msg4, tk, key_id, kdes, cipher).len(),
        key_plan(msg4, tk, key_id, kdes, cipher)[i] is SendFrame,
    ensures
        ({
            let plan = key_plan(msg4, tk, key_id, kdes, cipher);
            &&& plan[j] is InstallPairwise ==> i < j
            &&& plan[j] is InstallPairwiseRx ==> j < i
            &&& plan[j] is SendFrame ==> i == j
        }),
{
}

/// The elements that an association request carries for a security mode
/// without Fast Transition, whichever way the authentication went, are byte for
/// byte those that the supplicant proves in Message 2. With OWE they are
/// followed by the DH element of the exchange, which Message 2 does not carry.
#[verifier::spinoff_prover]
#[verifier::rlimit(40)]
pub proof fn law_message_2_repeats_association(
    iface: WifiIface,
    input: HandshakeInput,
    req: AssociateRequest,
    mfp: bool,
)
    requires
        !iface.link.bss_info.security.spec_is_ft(),
        iface.link.bss_info.security != SecurityType::Open,
        iface.link.bss_info.security != SecurityType::Unsupported,
        iface.handshake_input() == Some(input),
        match iface.link.pmksa_in_use {
            Some(entry) => iface.link.is_request(
                req,
                iface.link.rsne(Some(entry.pmkid)),
                mfp,
                true,
            ),
            None => if iface.link.bss_info.security.spec_is_sae() {
                iface.link.sae_assoc_ie() matches Some(ie) && iface.link.is_request(
                    req,
                    ie,
                    mfp,
                    false,
                )
            } else if iface.link.bss_info.security == SecurityType::Owe {
                iface.auth.owe matches Some(exchange) && iface.link.is_request(
                    req,
                    iface.link.rsne(None) + owe::dh_element(exchange.our_pubkey_raw@),
                    mfp,
                    false,
                )
            } else {
                iface.link.open_system_ie() matches Some(ie) && iface.link.is_request(
                    req,
                    ie,
                    mfp,
                    false,
                )
            },
        },
    ensures
        if iface.link.bss_info.security == SecurityType::Owe && iface.link.pmksa_in_use is None {
            req.ie@ == input.rsne + owe::dh_element(iface.auth.owe->0.our_pubkey_raw@)
        } else {
            req.ie@ == input.rsne
        },
{
    let cipher = iface.link.bss_info.group_mgmt_cipher;
    if iface.link.bss_info.security == SecurityType::Owe && iface.link.pmksa_in_use is None {
        lemma_wanted_of_first(
            elements::AKM_OWE,
            elements::CAPS_MFP_REQUIRED,
            cipher,
            owe::dh_element(iface.auth.owe->0.our_pubkey_raw@),
            iface.link.network.ocv,
            iface.link.network.ext_key_id,
        );
    }
}

} // verus!
