//! Association: which elements the request carries, and the PMKSA cache that
//! can replace the authentication before it.

use vstd::prelude::*;
use vstd::string::*;

use crate::bytes;
use crate::client::state::{Link, WifiIface, WifiState};
use crate::config;
use crate::crypto::handshake4::{FourWayState, MicAlg};
use crate::crypto::kdf;
use crate::crypto::ocv;
use crate::crypto::primitives;
use crate::ieee80211::elements;
use crate::ieee80211::elements::CipherSuite;
use crate::pmksa;
use crate::pmksa::{Pmksa, PmksaEntry};
use crate::scan::SecurityType;

verus! {

/// An association request for the selected BSS.
#[derive(Debug, Clone, PartialEq, Eq)]
pub struct AssociateRequest {
    /// The RSN element built for the network's security mode (plus e.g. the
    /// OWE DH Parameter Element); empty for open networks.
    pub ie: Vec<u8>,
    /// Whether management frame protection (IEEE 802.11w) is required.
    pub mfp: bool,
    /// Whether EAPOL goes over nl80211 and the connection's lifetime is tied
    /// to the socket: for encrypted networks.
    pub control_port: bool,
    /// Whether the request carries a cached PMKID: then a failure falls back
    /// to full authentication.
    pub cached: bool,
}

/// The elements of a security mode in an association request and in 4-way
/// Message 2, with a PMKID where one is cached.
pub open spec fn security_ie(
    security: SecurityType,
    pmkid: Option<[u8; 16]>,
    cipher: CipherSuite,
) -> Seq<u8> {
    match security {
        SecurityType::Sae => elements::rsne_octets(
            elements::AKM_SAE,
            elements::CAPS_MFP_REQUIRED,
            pmkid,
            cipher,
        ) + elements::sae_rsnxe_octets(),
        SecurityType::SaeExtKey => elements::rsne_octets(
            elements::AKM_SAE_EXT_KEY,
            elements::CAPS_MFP_REQUIRED,
            pmkid,
            cipher,
        ) + elements::sae_rsnxe_octets(),
        SecurityType::FtSae => elements::rsne_octets(
            elements::AKM_FT_SAE,
            elements::CAPS_MFP_REQUIRED,
            pmkid,
            cipher,
        ) + elements::sae_rsnxe_octets(),
        SecurityType::FtSaeExtKey => elements::rsne_octets(
            elements::AKM_FT_SAE_EXT_KEY,
            elements::CAPS_MFP_REQUIRED,
            pmkid,
            cipher,
        ) + elements::sae_rsnxe_octets(),
        SecurityType::Wpa2Psk => elements::rsne_octets(
            elements::AKM_PSK,
            elements::CAP_MFPC,
            pmkid,
            cipher,
        ),
        SecurityType::Wpa2PskSha256 => elements::rsne_octets(
            elements::AKM_PSK_SHA256,
            elements::CAP_MFPC,
            pmkid,
            cipher,
        ),
        SecurityType::Wpa2Ent => elements::rsne_octets(
            elements::AKM_8021X,
            elements::CAP_MFPC,
            None,
            cipher,
        ),
        SecurityType::Wpa2EntSha256 => elements::rsne_octets(
            elements::AKM_8021X_SHA256,
            elements::CAPS_MFP_REQUIRED,
            None,
            cipher,
        ),
        SecurityType::FtPsk => elements::rsne_octets(
            elements::AKM_FT_PSK,
            elements::CAP_MFPC,
            pmkid,
            cipher,
        ),
        SecurityType::Owe => elements::rsne_octets(
            elements::AKM_OWE,
            elements::CAPS_MFP_REQUIRED,
            None,
            cipher,
        ),
        SecurityType::Open => Seq::empty(),
        SecurityType::Unsupported => Seq::empty(),
    }
}

/// Elements with the RSN capabilities that a network asks for advertised.
pub open spec fn with_wanted_capabilities(ie: Seq<u8>, ocv: bool, ext_key_id: bool) -> Seq<u8> {
    let first = if ocv {
        elements::with_capability(ie, elements::CAP_OCVC, true)
    } else {
        ie
    };
    if ext_key_id {
        elements::with_capability(first, elements::CAP_EXT_KEY_ID, true)
    } else {
        first
    }
}

/// Advertising capabilities in a built RSNE leaves what follows it alone.
pub proof fn lemma_wanted_of_first(
    akm: u32,
    caps: u16,
    cipher: CipherSuite,
    rest: Seq<u8>,
    ocv: bool,
    ext_key_id: bool,
)
    ensures
        ({
            let rsne = elements::rsne_octets(akm, caps, None, cipher);
            with_wanted_capabilities(rsne + rest, ocv, ext_key_id) == with_wanted_capabilities(
                rsne,
                ocv,
                ext_key_id,
            ) + rest
        }),
{
    let rsne = elements::rsne_octets(akm, caps, None, cipher);
    elements::law_rsne_fields(akm, caps, None, cipher);
    assert(rsne.len() >= 4) by {
        if rsne.len() < 4 {
            assert(elements::capabilities(rsne.subrange(2, rsne.len() as int)) is None);
        }
    }
    elements::lemma_capability_of_first(rsne, rest, elements::CAP_OCVC, true);
    let first = if ocv {
        elements::with_capability(rsne, elements::CAP_OCVC, true)
    } else {
        rsne
    };
    elements::lemma_capability_of_first(first, rest, elements::CAP_EXT_KEY_ID, true);
}

impl Link {
    /// Elements with the RSN capabilities that the network asks for
    /// advertised.
    pub open spec fn advertised(self, ie: Seq<u8>) -> Seq<u8> {
        with_wanted_capabilities(ie, self.network.ocv, self.network.ext_key_id)
    }

    /// Advertise the OCVC and Extended Key ID RSN capabilities when the
    /// network asks for them.
    pub fn advertise(&self, ie: Vec<u8>) -> (r: Vec<u8>)
        ensures
            r@ == self.advertised(ie@),
    {
        let mut ie = ie;
        if self.network.ocv {
            elements::rsne_set_ocvc(ie.as_mut_slice(), true);
        }
        if self.network.ext_key_id {
            elements::rsne_set_ext_key_id(ie.as_mut_slice(), true);
        }
        ie
    }

    /// Whether Operating Channel Validation applies to a handshake: the
    /// network asks for it, and the AP's RSNE advertises it.
    pub open spec fn wants_ocv(self) -> bool {
        self.network.ocv && elements::advertises(self.bss_info.ap_rsne@, elements::CAP_OCVC)
    }

    /// Whether Extended Key ID applies to a handshake: the network asks for
    /// it, and the AP's RSNE advertises it.
    pub open spec fn wants_ext_key_id(self) -> bool {
        self.network.ext_key_id && elements::advertises(
            self.bss_info.ap_rsne@,
            elements::CAP_EXT_KEY_ID,
        )
    }

    /// Enable OCV on the 4-way state with our OCI derived from the BSS
    /// frequency, but only when the AP's RSNE actually advertises OCVC
    /// support. Otherwise Message 3 will never carry an OCI KDE and the check
    /// would unconditionally fail the handshake, so it goes on without OCV
    /// instead. Returns false only when OCV is otherwise usable but the
    /// frequency cannot be mapped to an OCI.
    pub fn enable_ocv(&self, fw: &mut FourWayState) -> (r: bool)
        ensures
            r == !(self.wants_ocv() && ocv::oci_of_freq(self.bss_info.freq_mhz) is None),
            *final(fw) == (FourWayState { ocv: final(fw).ocv, ..*old(fw) }),
            if r && self.wants_ocv() {
                &&& final(fw).ocv matches Some(o)
                &&& o.freq_mhz == self.bss_info.freq_mhz
                &&& ocv::oci_of_freq(self.bss_info.freq_mhz) == Some(o.oci@)
            } else {
                final(fw).ocv == old(fw).ocv
            },
    {
        if !self.network.ocv || !self.bss_info.ap_ocv_capable() {
            return true;
        }
        match ocv::oci_from_freq(self.bss_info.freq_mhz) {
            Some(oci) => {
                fw.set_ocv(true, oci, self.bss_info.freq_mhz);
                true
            },
            None => false,
        }
    }

    /// Whether Extended Key ID should be requested for this 4-way handshake -
    /// both the network config and the AP's advertised RSN capability (bit
    /// 13) must agree, otherwise Message 3 will never carry a Key ID KDE and
    /// the handshake would unconditionally fail.
    pub fn ext_key_id_enabled(&self) -> (r: bool)
        ensures
            r == self.wants_ext_key_id(),
    {
        self.network.ext_key_id && self.bss_info.ap_ext_key_id_capable()
    }

    /// The elements of the link's security mode.
    pub open spec fn rsne(self, pmkid: Option<[u8; 16]>) -> Seq<u8> {
        security_ie(self.bss_info.security, pmkid, self.bss_info.group_mgmt_cipher)
    }

    /// The RSNE sent in the association request / 4-way Message 2 for the
    /// current security type, optionally carrying a PMKID (PMKSA caching).
    /// Both sites must stay byte-identical - the AP verifies that.
    pub fn rsne_with_pmkid(&self, pmkid: Option<[u8; 16]>) -> (r: Vec<u8>)
        ensures
            r@ == self.rsne(pmkid),
    {
        let cipher = self.bss_info.group_mgmt_cipher;
        match self.bss_info.security {
            SecurityType::Sae => elements::sae_ie_with_pmkid_cipher(pmkid, cipher),
            SecurityType::SaeExtKey => elements::sae_ext_key_ie_with_pmkid_cipher(pmkid, cipher),
            SecurityType::FtSae => elements::ft_sae_ie_cipher(pmkid, cipher),
            SecurityType::FtSaeExtKey => elements::ft_sae_ext_key_ie_cipher(pmkid, cipher),
            SecurityType::Wpa2Psk => elements::wpa2_psk_ie_with_pmkid_cipher(pmkid, cipher),
            SecurityType::Wpa2PskSha256 => elements::wpa2_psk_sha256_ie_with_pmkid_cipher(
                pmkid,
                cipher,
            ),
            SecurityType::Wpa2Ent => elements::wpa2_ent_ie_cipher(cipher),
            SecurityType::Wpa2EntSha256 => elements::wpa2_ent_sha256_ie_cipher(cipher),
            SecurityType::FtPsk => elements::ft_psk_ie_cipher(pmkid, cipher),
            SecurityType::Owe => elements::owe_ie_cipher(cipher),
            SecurityType::Open | SecurityType::Unsupported => Vec::new(),
        }
    }

    /// The MDIE of the link's AP, where it is in a mobility domain.
    pub open spec fn mdie_octets(self) -> Option<Seq<u8>> {
        match self.bss_info.mdie {
            Some(m) => Some(
                seq![elements::IE_ID_MDIE, 3u8, m.mdid@[0], m.mdid@[1], m.ft_capab],
            ),
            None => None,
        }
    }

    /// FT initial mobility domain association: the request carries the MDIE,
    /// which prompts the AP to answer with MDIE + FTIE (R0KH-ID / R1KH-ID).
    /// None where the AP advertises no mobility domain.
    pub fn append_ft_mdie(&self, ies: Vec<u8>) -> (r: Option<Vec<u8>>)
        ensures
            match self.mdie_octets() {
                Some(m) => r matches Some(v) && v@ == ies@ + m,
                None => r is None,
            },
    {
        match self.bss_info.mdie {
            Some(m) => {
                let mut ies = ies;
                let mdie = elements::mdie(m.mdid, m.ft_capab);
                bytes::append(&mut ies, mdie.as_slice());
                Some(ies)
            },
            None => None,
        }
    }

    /// Whether `req` asks for an association with some elements.
    pub open spec fn is_request(
        self,
        req: AssociateRequest,
        ie: Seq<u8>,
        mfp: bool,
        cached: bool,
    ) -> bool {
        &&& req.ie@ == self.advertised(ie)
        &&& req.mfp == mfp
        &&& req.control_port == (self.bss_info.security != SecurityType::Open)
        &&& req.cached == cached
    }

    /// An association request for the selected BSS. Encrypted networks carry
    /// EAPOL over nl80211 and tie the connection's lifetime to the socket;
    /// open networks don't.
    pub fn associate(&self, ie: Vec<u8>, mfp: bool, cached: bool) -> (r: AssociateRequest)
        ensures
            self.is_request(r, ie@, mfp, cached),
    {
        AssociateRequest {
            ie: self.advertise(ie),
            mfp,
            control_port: self.bss_info.security != SecurityType::Open,
            cached,
        }
    }

    /// Whether an association with a cached PMKID requires management frame
    /// protection: always for SAE, otherwise where the AP is capable of it.
    pub open spec fn cached_mfp(self) -> bool {
        ||| self.bss_info.security == SecurityType::Sae
        ||| self.bss_info.security == SecurityType::SaeExtKey
        ||| self.bss_info.security == SecurityType::FtSaeExtKey
        ||| elements::advertises(self.bss_info.ap_rsne@, elements::CAP_MFPC)
    }
}

/// The association that a completed handshake proves, by security mode.
pub open spec fn proven_pmksa(iface: WifiIface, now: u64) -> Option<Pmksa> {
    let bss = iface.link.bss_info;
    let ssid = iface.link.network.ssid@;
    let name = kdf::pmk_name_data(bss.bssid@, iface.core.mac@);
    let make = |pmk: Seq<u8>, pmkid: Seq<u8>, mic_alg: MicAlg|
        Some(
            Pmksa { ssid, bssid: bss.bssid@, pmkid, pmk, mic_alg, expires: pmksa::expiry(now) },
        );
    match bss.security {
        // The PMKID is derived by the SAE exchange itself.
        SecurityType::Sae => match iface.auth.method {
            Some(m) => match (m.exchange().pmk, m.exchange().pmkid) {
                (Some(pmk), Some(pmkid)) => make(pmk@, pmkid@, MicAlg::AesCmac),
                _ => None,
            },
            None => None,
        },
        SecurityType::SaeExtKey => match iface.auth.method {
            Some(m) => match (m.exchange().pmk, m.exchange().pmkid) {
                (Some(pmk), Some(pmkid)) => make(pmk@, pmkid@, MicAlg::HmacSha256),
                _ => None,
            },
            None => None,
        },
        SecurityType::Wpa2Psk => match iface.auth.psk_pmk {
            Some(pmk) => make(
                pmk@,
                primitives::hmac_sha1(pmk@, name).subrange(0, 16),
                MicAlg::HmacSha1,
            ),
            None => None,
        },
        SecurityType::Wpa2PskSha256 => match iface.auth.psk_pmk {
            Some(pmk) => make(
                pmk@,
                primitives::hmac_sha256(pmk@, name).subrange(0, 16),
                MicAlg::AesCmac,
            ),
            None => None,
        },
        _ => None,
    }
}

/// The association to remember after a completed handshake: the reused one
/// with a fresh lifetime, or the one the handshake proves.
pub open spec fn pmksa_to_cache(iface: WifiIface, now: u64) -> Option<Pmksa> {
    match iface.link.pmksa_in_use {
        Some(e) => Some(Pmksa { expires: pmksa::expiry(now), ..e@ }),
        None => proven_pmksa(iface, now),
    }
}

impl WifiIface {
    /// Associate with the cached PMKID in the RSNE so the AP can skip the
    /// full authentication. MFP stays required for SAE and is requested on
    /// MFP-capable WPA2-PSK APs, matching the full-auth association. None
    /// where no association is cached.
    pub fn associate_with_pmksa(&self) -> (r: Option<AssociateRequest>)
        ensures
            match self.link.pmksa_in_use {
                Some(entry) => r matches Some(req) && self.link.is_request(
                    req,
                    self.link.rsne(Some(entry.pmkid)),
                    self.link.cached_mfp(),
                    true,
                ),
                None => r is None,
            },
    {
        match &self.link.pmksa_in_use {
            Some(entry) => {
                let ie = self.link.rsne_with_pmkid(Some(entry.pmkid));
                let mfp = match self.link.bss_info.security {
                    SecurityType::Sae | SecurityType::SaeExtKey | SecurityType::FtSaeExtKey => true,
                    _ => self.link.bss_info.ap_mfp_capable(),
                };
                Some(self.link.associate(ie, mfp, true))
            },
            None => None,
        }
    }

    /// The AP rejected the cached PMKID (association rejected) or the
    /// handshake over the cached PMK failed (stale entry): drop the entry
    /// from the cache. It is handed out, to be dropped from the driver's
    /// cache as well; full authentication follows at once.
    pub fn pmksa_fallback(&mut self) -> (r: Option<PmksaEntry>)
        ensures
            r == old(self).link.pmksa_in_use,
            *final(self) == (WifiIface {
                link: Link { pmksa_in_use: None, ..old(self).link },
                pmksa_cache: final(self).pmksa_cache,
                ..*old(self)
            }),
            final(self).pmksa_cache@ == match old(self).link.pmksa_in_use {
                Some(e) => old(self).pmksa_cache@.remove((e.ssid@, e.bssid@)),
                None => old(self).pmksa_cache@,
            },
    {
        let entry = self.link.pmksa_in_use.take();
        if let Some(e) = &entry {
            self.pmksa_cache.invalidate(&e.ssid, &e.bssid);
        }
        entry
    }

    /// What came of the full authentication after a fallback.
    pub fn fallback_started(&mut self, ok: bool)
        ensures
            *final(self) == (WifiIface {
                state: if ok {
                    WifiState::Authenticating
                } else {
                    WifiState::Failed
                },
                ..*old(self)
            }),
    {
        self.state = if ok {
            WifiState::Authenticating
        } else {
            WifiState::Failed
        };
    }

    /// An association request could not be sent. Returns whether a cached
    /// PMKID was in it, and full authentication has to follow.
    pub fn associate_failed(&mut self, cached: bool) -> (r: bool)
        ensures
            r == cached,
            *final(self) == (WifiIface {
                state: if cached {
                    old(self).state
                } else {
                    WifiState::Failed
                },
                ..*old(self)
            }),
    {
        if !cached {
            self.state = WifiState::Failed;
        }
        cached
    }

    /// The 4-way handshake proved the PMK - remember the PMKSA for the next
    /// reconnect/roam. A reused entry simply gets a fresh lifetime. The entry
    /// is handed out, for the driver's PMKSA cache.
    pub fn cache_pmksa(&mut self, now: u64) -> (r: Option<PmksaEntry>)
        ensures
            *final(self) == (WifiIface {
                link: Link { pmksa_in_use: None, ..old(self).link },
                pmksa_cache: final(self).pmksa_cache,
                ..*old(self)
            }),
            match pmksa_to_cache(*old(self), now) {
                Some(p) => {
                    &&& r matches Some(e)
                    &&& e@ == p
                    &&& final(self).pmksa_cache@ == old(self).pmksa_cache@.insert(
                        (p.ssid, p.bssid),
                        p,
                    )
                },
                None => r is None && final(self).pmksa_cache == old(self).pmksa_cache,
            },
    {
        let entry = match self.link.pmksa_in_use.take() {
            Some(entry) => pmksa::entry_with_fresh_lifetime(entry, now),
            None => {
                let (pmk, pmkid, mic_alg) = match self.link.bss_info.security {
                    // SAE: the PMKID is derived by the SAE exchange itself
                    // (L(val, 0, 128)); the AP caches that one.
                    SecurityType::Sae => match self.sae_keys() {
                        Some((pmk, pmkid)) => (pmk, pmkid, MicAlg::AesCmac),
                        None => {
                            return None;
                        },
                    },
                    // SAE-EXT-KEY: same SAE PMK/PMKID derivation; the 4-way
                    // MIC is HMAC-SHA256 (AKM-defined).
                    SecurityType::SaeExtKey => match self.sae_keys() {
                        Some((pmk, pmkid)) => (pmk, pmkid, MicAlg::HmacSha256),
                        None => {
                            return None;
                        },
                    },
                    // WPA2-PSK: PMKID = Truncate-128(HMAC-SHA1(PMK, "PMK
                    // Name" || AA || SPA)), 802.11-2020 §9.4.2.25.3.
                    SecurityType::Wpa2Psk => match &self.auth.psk_pmk {
                        Some(pmk) => {
                            let id = kdf::pmkid_sha1(
                                pmk,
                                &self.link.bss_info.bssid,
                                &self.core.mac,
                            );
                            (*pmk, id, MicAlg::HmacSha1)
                        },
                        None => {
                            return None;
                        },
                    },
                    // PSK-SHA256: PMKID = Truncate-128(HMAC-SHA256(PMK, "PMK
                    // Name" || AA || SPA)).
                    SecurityType::Wpa2PskSha256 => match &self.auth.psk_pmk {
                        Some(pmk) => {
                            let id = kdf::pmkid_sha256(
                                pmk,
                                &self.link.bss_info.bssid,
                                &self.core.mac,
                            );
                            (*pmk, id, MicAlg::AesCmac)
                        },
                        None => {
                            return None;
                        },
                    },
                    _ => {
                        return None;
                    },
                };
                PmksaEntry {
                    ssid: config::copy_text(&self.link.network.ssid),
                    bssid: self.link.bss_info.bssid,
                    pmkid,
                    pmk,
                    mic_alg,
                    expires: pmksa::fresh_expiry(now),
                }
            },
        };
        let out = entry.copy();
        self.pmksa_cache.insert(entry);
        Some(out)
    }

    /// PMK and PMKID of the SAE exchange, once it gave both.
    fn sae_keys(&self) -> (r: Option<([u8; 32], [u8; 16])>)
        ensures
            match self.auth.method {
                Some(m) => match (m.exchange().pmk, m.exchange().pmkid) {
                    (Some(pmk), Some(pmkid)) => r == Some((pmk, pmkid)),
                    _ => r is None,
                },
                None => r is None,
            },
    {
        match &self.auth.method {
            Some(m) => match (m.pmk(), m.pmkid()) {
                (Some(pmk), Some(pmkid)) => Some((pmk, pmkid)),
                _ => None,
            },
            None => None,
        }
    }
}

} // verus!
