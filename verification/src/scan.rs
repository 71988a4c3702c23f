//! What a scan finds: the BSS and its security mode.

use vstd::prelude::*;

use crate::bytes;
use crate::ieee80211::elements;
use crate::ieee80211::elements::CipherSuite;

verus! {

/// Security mode of a BSS, as its RSNE advertises it.
#[derive(Debug, Clone, Copy, PartialEq, Eq, Structural)]
#[non_exhaustive]
pub enum SecurityType {
    Open,
    Owe,
    Sae,
    SaeExtKey,
    Wpa2Psk,
    Wpa2PskSha256,
    Wpa2Ent,
    Wpa2EntSha256,
    FtSae,
    FtSaeExtKey,
    FtPsk,
    Unsupported,
}

impl SecurityType {
    /// Whether this is a fast transition (802.11r) mode.
    pub open spec fn spec_is_ft(self) -> bool {
        self == SecurityType::FtSae || self == SecurityType::FtSaeExtKey || self
            == SecurityType::FtPsk
    }

    /// Whether the passphrase itself is the credential that the 4-way
    /// handshake verifies.
    pub open spec fn spec_is_psk(self) -> bool {
        self == SecurityType::Wpa2Psk || self == SecurityType::Wpa2PskSha256 || self
            == SecurityType::FtPsk
    }

    /// Whether the SAE exchange precedes the association.
    pub open spec fn spec_is_sae(self) -> bool {
        self == SecurityType::Sae || self == SecurityType::SaeExtKey || self == SecurityType::FtSae
            || self == SecurityType::FtSaeExtKey
    }

    /// Whether EAP follows the association.
    pub open spec fn spec_is_enterprise(self) -> bool {
        self == SecurityType::Wpa2Ent || self == SecurityType::Wpa2EntSha256
    }

    /// The name of the mode in messages.
    pub open spec fn spec_name(self) -> Seq<char> {
        match self {
            SecurityType::Open => "Open"@,
            SecurityType::Owe => "Owe"@,
            SecurityType::Sae => "Sae"@,
            SecurityType::SaeExtKey => "SaeExtKey"@,
            SecurityType::Wpa2Psk => "Wpa2Psk"@,
            SecurityType::Wpa2PskSha256 => "Wpa2PskSha256"@,
            SecurityType::Wpa2Ent => "Wpa2Ent"@,
            SecurityType::Wpa2EntSha256 => "Wpa2EntSha256"@,
            SecurityType::FtSae => "FtSae"@,
            SecurityType::FtSaeExtKey => "FtSaeExtKey"@,
            SecurityType::FtPsk => "FtPsk"@,
            SecurityType::Unsupported => "Unsupported"@,
        }
    }

    /// Whether this is a fast transition (802.11r) mode.
    pub fn is_ft(self) -> (r: bool)
        ensures
            r == self.spec_is_ft(),
    {
        matches!(self, SecurityType::FtSae | SecurityType::FtSaeExtKey | SecurityType::FtPsk)
    }

    /// Whether the passphrase itself is the credential that the 4-way
    /// handshake verifies.
    pub fn is_psk(self) -> (r: bool)
        ensures
            r == self.spec_is_psk(),
    {
        matches!(self, SecurityType::Wpa2Psk | SecurityType::Wpa2PskSha256 | SecurityType::FtPsk)
    }

    /// Whether the SAE exchange precedes the association.
    pub fn is_sae(self) -> (r: bool)
        ensures
            r == self.spec_is_sae(),
    {
        matches!(
            self,
            SecurityType::Sae
                | SecurityType::SaeExtKey
                | SecurityType::FtSae
                | SecurityType::FtSaeExtKey
        )
    }

    /// Whether EAP follows the association.
    pub fn is_enterprise(self) -> (r: bool)
        ensures
            r == self.spec_is_enterprise(),
    {
        matches!(self, SecurityType::Wpa2Ent | SecurityType::Wpa2EntSha256)
    }

    /// The name of the mode in messages.
    pub fn name(self) -> (r: &'static str)
        ensures
            r@ == self.spec_name(),
    {
        match self {
            SecurityType::Open => "Open",
            SecurityType::Owe => "Owe",
            SecurityType::Sae => "Sae",
            SecurityType::SaeExtKey => "SaeExtKey",
            SecurityType::Wpa2Psk => "Wpa2Psk",
            SecurityType::Wpa2PskSha256 => "Wpa2PskSha256",
            SecurityType::Wpa2Ent => "Wpa2Ent",
            SecurityType::Wpa2EntSha256 => "Wpa2EntSha256",
            SecurityType::FtSae => "FtSae",
            SecurityType::FtSaeExtKey => "FtSaeExtKey",
            SecurityType::FtPsk => "FtPsk",
            SecurityType::Unsupported => "Unsupported",
        }
    }
}

/// The mobility domain of an FT-capable AP.
#[derive(Debug, Clone, Copy, PartialEq, Eq)]
pub struct MdieInfo {
    pub mdid: [u8; 2],
    pub ft_capab: u8,
}

/// A BSS that a scan found.
#[derive(Debug, Clone, PartialEq, Eq)]
#[non_exhaustive]
pub struct BssInfo {
    pub bssid: [u8; 6],
    pub freq_mhz: u32,
    pub signal_dbm: i32,
    pub security: SecurityType,
    /// The AP's RSNE as a full element (ID 48 + length + body), empty for
    /// open networks.
    pub ap_rsne: Vec<u8>,
    /// The AP's RSNXE as a full element (ID 244 + length + body), empty when
    /// the AP advertises none.
    pub ap_rsnxe: Vec<u8>,
    /// Negotiated group management (BIP) cipher.
    pub group_mgmt_cipher: CipherSuite,
    pub mdie: Option<MdieInfo>,
    pub hidden: bool,
    /// Whether the AP advertises BSS Transition Management (802.11v).
    pub btm_support: bool,
    /// Whether the AP advertises Neighbor Report (802.11k).
    pub rm_neighbor_report: bool,
}

impl BssInfo {
    /// No BSS: every field zero, empty or off.
    pub fn none() -> (r: Self)
        ensures
            r.is_none(),
    {
        let bssid: [u8; 6] = [0u8; 6];
        assert(bssid@ =~= bytes::zeros(6));
        BssInfo {
            bssid,
            freq_mhz: 0,
            signal_dbm: 0,
            security: SecurityType::Open,
            ap_rsne: Vec::new(),
            ap_rsnxe: Vec::new(),
            group_mgmt_cipher: CipherSuite::BipCmac128,
            mdie: None,
            hidden: false,
            btm_support: false,
            rm_neighbor_report: false,
        }
    }

    /// Whether this stands for no BSS.
    pub open spec fn is_none(self) -> bool {
        &&& self.bssid@ == bytes::zeros(6)
        &&& self.freq_mhz == 0
        &&& self.signal_dbm == 0
        &&& self.security == SecurityType::Open
        &&& self.ap_rsne@.len() == 0
        &&& self.ap_rsnxe@.len() == 0
        &&& self.group_mgmt_cipher == CipherSuite::BipCmac128
        &&& self.mdie is None
        &&& !self.hidden
        &&& !self.btm_support
        &&& !self.rm_neighbor_report
    }

    /// Whether the AP's RSNXE advertises SAE hash-to-element.
    pub fn ap_supports_sae_h2e(&self) -> (r: bool)
        ensures
            r == (self.ap_rsnxe@.len() >= 3 && self.ap_rsnxe@[2] & 0x20 != 0),
    {
        elements::ap_rsnxe_supports_sae_h2e(self.ap_rsnxe.as_slice())
    }

    /// Whether the AP's RSNE advertises Operating Channel Validation.
    pub fn ap_ocv_capable(&self) -> (r: bool)
        ensures
            r == elements::advertises(self.ap_rsne@, elements::CAP_OCVC),
    {
        elements::ap_rsne_supports_ocv(self.ap_rsne.as_slice())
    }

    /// Whether the AP's RSNE advertises Extended Key ID.
    pub fn ap_ext_key_id_capable(&self) -> (r: bool)
        ensures
            r == elements::advertises(self.ap_rsne@, elements::CAP_EXT_KEY_ID),
    {
        elements::ap_rsne_supports_ext_key_id(self.ap_rsne.as_slice())
    }

    /// Whether the AP's RSNE says that it is capable of management frame
    /// protection.
    pub fn ap_mfp_capable(&self) -> (r: bool)
        ensures
            r == elements::advertises(self.ap_rsne@, elements::CAP_MFPC),
    {
        let rsne = self.ap_rsne.as_slice();
        if rsne.len() < 2 {
            return false;
        }
        match elements::rsne_capabilities_field(
            vstd::slice::slice_subrange(rsne, 2, rsne.len()),
        ) {
            Some(c) => c & elements::CAP_MFPC != 0,
            None => false,
        }
    }

    /// Whether the AP advertises a managed-roaming capability (802.11v BSS
    /// Transition or 802.11k Neighbor Report).
    pub fn ap_supports_signal_roam(&self) -> (r: bool)
        ensures
            r == (self.btm_support || self.rm_neighbor_report),
    {
        self.btm_support || self.rm_neighbor_report
    }
}

} // verus!
