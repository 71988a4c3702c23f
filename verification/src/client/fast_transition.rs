//! Fast BSS Transition (802.11r): the key hierarchy of an initial association
//! with an FT AKM.

use vstd::prelude::*;
use vstd::string::*;

use crate::bytes;
use crate::client::state::{FtContext, WifiIface};
use crate::crypto::ft;
use crate::crypto::ft::PmkR1;
use crate::crypto::kdf;
use crate::error::{ErrorKind, WifiError};
use crate::ieee80211::elements;
use crate::ieee80211::elements::{IE_ID_FTIE, IE_ID_MDIE};
use crate::ieee80211::tlv;
use crate::scan::SecurityType;

verus! {

/// What the FT key hierarchy of an association is derived from.
pub struct KeyHolders {
    /// The body of the Mobility Domain element.
    pub mdie: Seq<u8>,
    /// The body of the Fast BSS Transition element.
    pub ftie: Seq<u8>,
    pub r0kh_id: Seq<u8>,
    pub r1kh_id: Seq<u8>,
    /// The PMK of the authentication.
    pub xxkey: Seq<u8>,
}

/// The body of the first element of a list that has an identifier.
pub open spec fn first_body(ies: Seq<u8>, id: u8) -> Option<Seq<u8>> {
    match tlv::first_with(tlv::elements_from(ies, 0), id) {
        Some(e) => Some(e.body),
        None => None,
    }
}

/// The octets of an element.
pub open spec fn element_octets(id: u8, body: Seq<u8>) -> Seq<u8> {
    seq![id, body.len() as u8] + body
}

/// Whether a PMK-R1 is the one that a station derives from key holders.
pub open spec fn is_pmk_r1(r1: PmkR1, holders: KeyHolders, ssid: Seq<u8>, station: Seq<u8>) -> bool {
    let r0 = ft::r0_key_data(
        holders.xxkey,
        ssid,
        holders.mdie.subrange(0, 2),
        holders.r0kh_id,
        station,
    );
    let r0_name = ft::sha256_128(ft::ft_r0n() + r0.subrange(32, 48));
    &&& r1.key@ == kdf::kdf_output(
        r0.subrange(0, 32),
        "FT-R1".spec_bytes(),
        holders.r1kh_id + station,
        32,
    )
    &&& r1.name@ == ft::sha256_128(ft::ft_r1n() + r0_name + holders.r1kh_id + station)
}

/// The whole first element of a list that has an identifier.
pub fn whole_element(ies: &[u8], id: u8) -> (r: Option<Vec<u8>>)
    ensures
        match r {
            Some(e) => first_body(ies@, id) matches Some(body) && e@ == element_octets(id, body),
            None => first_body(ies@, id) is None,
        },
{
    proof {
        tlv::lemma_offset_is_first(ies@, 0, id);
    }
    match elements::find_ie_pos(ies, id) {
        Some(pos) => Some(bytes::to_vec(elements::ie_at(ies, pos))),
        None => None,
    }
}

/// An error of the FT setup.
fn ft_error(msg: &str) -> (e: WifiError)
    ensures
        e.is(ErrorKind::HandshakeFailed, msg@),
{
    WifiError::new(ErrorKind::HandshakeFailed, msg)
}

impl WifiIface {
    /// The PMK that the FT key hierarchy starts from: of the passphrase for
    /// FT-PSK, of the exchange for FT-SAE.
    pub open spec fn ft_xxkey(self) -> Option<[u8; 32]> {
        if self.link.bss_info.security == SecurityType::FtPsk {
            self.auth.psk_pmk
        } else {
            match self.auth.method {
                Some(m) => m.exchange().pmk,
                None => None,
            }
        }
    }

    /// The key holders that an association response names, or what it lacks.
    pub open spec fn ft_holders(self, ies: Seq<u8>) -> Result<KeyHolders, Seq<char>> {
        match (first_body(ies, IE_ID_MDIE), first_body(ies, IE_ID_FTIE)) {
            (None, _) => Err("FT association response without MDIE"@),
            (Some(mdie), _) if mdie.len() < 3 => Err("FT association response with a short MDIE"@),
            (Some(_), None) => Err("FT association response without FTIE"@),
            (Some(_), Some(ftie)) if ftie.len() < 82 => Err(
                "FT association response with a short FTIE"@,
            ),
            (Some(mdie), Some(ftie)) => {
                let fields = elements::ft_fields(tlv::elements_from(ftie, 82));
                match (fields.r0kh_id, fields.r1kh_id, self.ft_xxkey()) {
                    (None, _, _) => Err("FTIE without R0KH-ID"@),
                    (Some(_), None, _) => Err("FTIE without R1KH-ID"@),
                    (Some(_), Some(_), None) => Err("no PMK for the FT key hierarchy"@),
                    (Some(r0kh_id), Some(r1kh_id), Some(xxkey)) => Ok(
                        KeyHolders { mdie, ftie, r0kh_id, r1kh_id, xxkey: xxkey@ },
                    ),
                }
            },
        }
    }

    /// Derive the FT key hierarchy from the mobility domain and the R0/R1 key
    /// holders of an association response. The MDIE and FTIE are kept as the
    /// AP sent them: 4-way Message 2 repeats them.
    pub fn setup_ft_context(&self, ies: &[u8]) -> (r: Result<FtContext, WifiError>)
        ensures
            match self.ft_holders(ies@) {
                Err(msg) => r matches Err(e) && e.is(ErrorKind::HandshakeFailed, msg),
                Ok(holders) => {
                    &&& r matches Ok(context)
                    &&& is_pmk_r1(
                        context.pmk_r1,
                        holders,
                        vstd::utf8::encode_utf8(self.link.network.ssid@),
                        self.core.mac@,
                    )
                    &&& context.assoc_resp_ft_ies@ == element_octets(IE_ID_MDIE, holders.mdie)
                        + element_octets(IE_ID_FTIE, holders.ftie)
                },
            },
    {
        let mdid = match elements::find_ie(ies, IE_ID_MDIE) {
            None => {
                return Err(ft_error("FT association response without MDIE"));
            },
            Some(body) => match elements::parse_mdie(body) {
                None => {
                    return Err(ft_error("FT association response with a short MDIE"));
                },
                Some((mdid, _)) => mdid,
            },
        };
        let ftie = match elements::find_ie(ies, IE_ID_FTIE) {
            None => {
                return Err(ft_error("FT association response without FTIE"));
            },
            Some(body) => match elements::parse_ftie(body) {
                None => {
                    return Err(ft_error("FT association response with a short FTIE"));
                },
                Some(ftie) => ftie,
            },
        };
        let r0kh_id = match &ftie.r0kh_id {
            None => {
                return Err(ft_error("FTIE without R0KH-ID"));
            },
            Some(id) => id,
        };
        let r1kh_id = match ftie.r1kh_id {
            None => {
                return Err(ft_error("FTIE without R1KH-ID"));
            },
            Some(id) => id,
        };
        let xxkey = if self.link.bss_info.security == SecurityType::FtPsk {
            self.auth.psk_pmk
        } else {
            match &self.auth.method {
                Some(m) => m.pmk(),
                None => None,
            }
        };
        let xxkey = match xxkey {
            None => {
                return Err(ft_error("no PMK for the FT key hierarchy"));
            },
            Some(key) => key,
        };
        let pmk_r0 = ft::derive_pmk_r0(
            &xxkey,
            self.link.network.ssid.as_str(),
            mdid,
            r0kh_id.as_slice(),
            self.core.mac,
        );
        let pmk_r1 = ft::derive_pmk_r1(&pmk_r0, r1kh_id, self.core.mac);
        let mut assoc_resp_ft_ies: Vec<u8> = Vec::new();
        if let Some(e) = whole_element(ies, IE_ID_MDIE) {
            bytes::append(&mut assoc_resp_ft_ies, e.as_slice());
        }
        if let Some(e) = whole_element(ies, IE_ID_FTIE) {
            bytes::append(&mut assoc_resp_ft_ies, e.as_slice());
        }
        Ok(FtContext { pmk_r1, assoc_resp_ft_ies })
    }
}

} // verus!
