//! OWE (Opportunistic Wireless Encryption), RFC 8110.
//!
//! Implements the Diffie-Hellman exchange carried in the 802.11 Association
//! Request/Response and the PMK/PMKID derivation from the shared secret. Only
//! ECC group 19 (NIST P-256) is supported (mandatory per RFC 8110 §4.3).

use vstd::prelude::*;
use vstd::string::*;

use crate::bytes;
use crate::crypto::curve;
use crate::crypto::kdf;
use crate::crypto::primitives;
use crate::error::{ErrorKind, WifiError};
use crate::ieee80211::tlv;
use crate::text;

verus! {

pub const GROUP_19: u16 = 19;

/// Compact public key: x-coordinate only (RFC 8110 §4.3 / RFC 6090 §4.3.1),
/// 32 bytes for P-256.
pub const P256_PUBKEY_LEN: usize = 32;

/// Element ID extension of the OWE Diffie-Hellman Parameter element.
pub const EXT_OWE_DH: u8 = 32;

/// OWE Diffie-Hellman state for a single association attempt.
#[derive(Clone, Debug)]
pub struct OweAuth {
    /// Our secret scalar.
    pub secret: [u8; 32],
    /// Our public key: its x-coordinate.
    pub our_pubkey_raw: [u8; 32],
    /// PMK derived after processing the AP's DH element.
    pub pmk: Option<[u8; 32]>,
    pub pmkid: Option<[u8; 16]>,
}

/// Why an AP's DH data is refused, where it is.
pub open spec fn dh_error(dh_data: Seq<u8>) -> Option<Seq<char>> {
    if dh_data.len() < 2 + P256_PUBKEY_LEN {
        Some("OWE DH element too short: "@ + text::dec(dh_data.len()) + " bytes"@)
    } else if bytes::le16(dh_data[0], dh_data[1]) != GROUP_19 {
        Some(
            "unsupported OWE group "@ + text::dec(bytes::le16(dh_data[0], dh_data[1]) as nat),
        )
    } else if !is_x_coordinate(dh_data.subrange(2, 34)) {
        Some("invalid OWE AP public key: crypto error"@)
    } else {
        None
    }
}

/// Whether 32 octets are the x-coordinate of a curve point.
pub open spec fn is_x_coordinate(x: Seq<u8>) -> bool {
    bytes::be_nat(x) < curve::prime() && curve::is_square(curve::curve_rhs(bytes::be_nat(x)))
}

/// Whether `p` is the curve point with an x-coordinate and an even y.
pub open spec fn is_even_point(p: Seq<u8>, x: Seq<u8>) -> bool {
    &&& curve::is_point(p)
    &&& p.len() == 65
    &&& p.subrange(1, 33) == x
    &&& bytes::be_nat(p.subrange(33, 65)) % 2 == 0
}

/// Whether `z` is the shared secret of a secret scalar and the peer's public
/// key: the x-coordinate of the peer's point times the scalar. Where the
/// peer's key is that of a scalar, it is the same on both sides.
pub open spec fn is_shared_x(z: Seq<u8>, secret: nat, theirs: Seq<u8>) -> bool {
    &&& exists|p: Seq<u8>| #[trigger]
        is_even_point(p, theirs) && z == curve::point_mul(p, secret).subrange(1, 33)
    &&& forall|e: nat|
        0 < e < curve::order() && theirs == (#[trigger] curve::public_point(e)).subrange(1, 33)
            ==> {
            &&& z == curve::point_mul(curve::public_point(e), secret).subrange(1, 33)
            &&& z == curve::point_mul(curve::public_point(secret), e).subrange(1, 33)
        }
}

/// The PMK of an exchange: from the shared secret `z`, our public key and
/// the AP's.
pub open spec fn owe_pmk(z: Seq<u8>, ours: Seq<u8>, theirs: Seq<u8>) -> Seq<u8> {
    kdf::hkdf_expand_output(
        primitives::hmac_sha256(ours + theirs + bytes::le16_bytes(GROUP_19), z),
        "OWE Key Generation".spec_bytes(),
        32,
    )
}

/// The PMKID of an exchange.
pub open spec fn owe_pmkid(ours: Seq<u8>, theirs: Seq<u8>) -> Seq<u8> {
    primitives::sha256(ours + theirs).subrange(0, 16)
}

/// The DH Parameter element that carries a public key.
pub open spec fn dh_element(pubkey: Seq<u8>) -> Seq<u8> {
    seq![255u8, (1 + 2 + pubkey.len()) as u8, EXT_OWE_DH] + bytes::le16_bytes(GROUP_19) + pubkey
}

impl OweAuth {
    /// What holds of every exchange: the secret is a scalar that is not
    /// zero, the public key is its own, and PMK and PMKID are there together.
    pub open spec fn wf(self) -> bool {
        &&& 0 < bytes::be_nat(self.secret@) < curve::order()
        &&& self.our_pubkey_raw@ == curve::public_point(bytes::be_nat(self.secret@)).subrange(1, 33)
        &&& self.pmk is Some <==> self.pmkid is Some
    }

    /// Whether this is `before` with the PMK and PMKID that follow from the AP's
    /// DH Parameter data.
    pub open spec fn derives(self, before: Self, dh_data: Seq<u8>) -> bool {
        let theirs = dh_data.subrange(2, 34);
        &&& self == (OweAuth { pmk: self.pmk, pmkid: self.pmkid, ..before })
        &&& self.pmkid matches Some(id) && id@ == owe_pmkid(before.our_pubkey_raw@, theirs)
        &&& self.pmk matches Some(pmk) && exists|z: Seq<u8>| #[trigger]
            is_shared_x(z, bytes::be_nat(before.secret@), theirs) && pmk@ == owe_pmk(
                z,
                before.our_pubkey_raw@,
                theirs,
            )
    }

    /// An exchange with a given secret.
    pub fn with_secret(secret: [u8; 32]) -> (r: Self)
        requires
            0 < bytes::be_nat(secret@) < curve::order(),
        ensures
            r.wf(),
            r.secret == secret,
            r.pmk is None,
            r.pmkid is None,
    {
        let pubkey = curve::public_key(&secret);
        let our_pubkey_raw = bytes::array32(pubkey.sec1.as_slice(), 1);
        OweAuth { secret, our_pubkey_raw, pmk: None, pmkid: None }
    }

    /// An exchange with a fresh secret. The error is that the system gave no
    /// randomness.
    pub fn new() -> (r: Result<Self, WifiError>)
        ensures
            match r {
                Ok(owe) => owe.wf() && owe.pmk is None && owe.pmkid is None,
                Err(e) => e.is(ErrorKind::AuthFailed, "RNG"@),
            },
    {
        match curve::random_secret_key() {
            Some(secret) => Ok(OweAuth::with_secret(secret)),
            None => Err(WifiError::new(ErrorKind::AuthFailed, "RNG")),
        }
    }

    /// Build the OWE Diffie-Hellman Parameter Element (RFC 8110 §4.3,
    /// Figure 1): Element ID (255) | Length | Ext (32) | Group (LE) | PubKey
    pub fn build_dh_element(&self) -> (r: Vec<u8>)
        ensures
            r@ == dh_element(self.our_pubkey_raw@),
    {
        let mut elem: Vec<u8> = Vec::new();
        elem.push(255);
        elem.push(35);
        elem.push(EXT_OWE_DH);
        bytes::push_le16(&mut elem, GROUP_19);
        bytes::append(&mut elem, &self.our_pubkey_raw);
        assert(elem@ =~= dh_element(self.our_pubkey_raw@));
        elem
    }

    /// Process the AP's OWE DH Parameter Element from the Association
    /// Response. Derives PMK and PMKID per RFC 8110 §4.4.
    ///
    /// `dh_data` starts at the Group field (after Element ID, Length, and
    /// Extension octets have been stripped).
    pub fn process_ap_dh_element(&mut self, dh_data: &[u8]) -> (r: Result<(), WifiError>)
        requires
            old(self).wf(),
        ensures
            final(self).wf(),
            match dh_error(dh_data@) {
                None => r is Ok && final(self).derives(*old(self), dh_data@),
                Some(msg) => {
                    &&& r matches Err(e)
                    &&& e.is(ErrorKind::AuthFailed, msg)
                    &&& *final(self) == *old(self)
                },
            },
    {
        if dh_data.len() < 2 + P256_PUBKEY_LEN {
            let mut msg = text::text("OWE DH element too short: ");
            text::push_dec(&mut msg, dh_data.len() as u64);
            msg.append(" bytes");
            return Err(WifiError::new(ErrorKind::AuthFailed, msg.as_str()));
        }
        let group: u16 = bytes::read_le16(dh_data, 0);
        if group != GROUP_19 {
            let mut msg = text::text("unsupported OWE group ");
            text::push_dec(&mut msg, group as u64);
            return Err(WifiError::new(ErrorKind::AuthFailed, msg.as_str()));
        }
        let ap_pubkey_raw = bytes::array32(dh_data, 2);
        // Reconstruct the SEC1 point from the compact x-coordinate. Use
        // compressed form (0x02 || x); either y parity yields the same ECDH
        // shared-secret x-coordinate.
        let mut sec1: [u8; 33] = [2u8; 33];
        let mut i: usize = 0;
        while i < 32
            invariant
                i <= 32,
                sec1@.len() == 33,
                sec1@[0] == 2,
                forall|j: int| 0 <= j < i ==> sec1@[1 + j] == ap_pubkey_raw@[j],
            decreases 32 - i,
        {
            sec1[1 + i] = ap_pubkey_raw[i];
            i = i + 1;
        }
        assert(sec1@.subrange(1, 33) =~= ap_pubkey_raw@);
        let ap_pubkey = match curve::decompress(&sec1) {
            Some(p) => p,
            None => {
                return Err(
                    WifiError::new(
                        ErrorKind::AuthFailed,
                        "invalid OWE AP public key: crypto error",
                    ),
                );
            },
        };
        proof {
            let p = ap_pubkey@;
            let y = bytes::be_nat(p.subrange(33, 65));
            assert(y < curve::prime() && (y * y) % curve::prime() == curve::curve_rhs(
                bytes::be_nat(ap_pubkey_raw@),
            ));
            assert(is_x_coordinate(ap_pubkey_raw@));
            assert(is_even_point(p, ap_pubkey_raw@));
        }
        // z = F(DH(x, Y)): x-coordinate of the shared secret.
        let z = curve::shared_x(&self.secret, &ap_pubkey);
        assert(is_shared_x(z@, bytes::be_nat(self.secret@), ap_pubkey_raw@));
        // prk = HKDF-Extract(salt = C | A | group, IKM = z)
        // PMK = HKDF-Expand(prk, "OWE Key Generation", n)
        let mut salt: Vec<u8> = Vec::new();
        bytes::append(&mut salt, &self.our_pubkey_raw);
        bytes::append(&mut salt, &ap_pubkey_raw);
        let hash = primitives::digest_sha256(salt.as_slice());
        bytes::push_le16(&mut salt, GROUP_19);
        let prk = kdf::hkdf_extract_sha256(salt.as_slice(), &z);
        let mut okm: Vec<u8> = Vec::new();
        bytes::append(&mut okm, &z);
        kdf::hkdf_expand(&prk, "OWE Key Generation".as_bytes(), okm.as_mut_slice());
        let pmk = bytes::array32(okm.as_slice(), 0);
        assert(pmk@ =~= okm@);
        self.pmk = Some(pmk);
        // PMKID = Truncate-128(Hash(C | A))
        self.pmkid = Some(bytes::array16(&hash, 0));
        Ok(())
    }

    pub fn pmk(&self) -> (r: Option<[u8; 32]>)
        ensures
            r == self.pmk,
    {
        self.pmk
    }

    /// PMKID of the completed OWE exchange.
    pub fn pmkid(&self) -> (r: Option<[u8; 16]>)
        ensures
            r == self.pmkid,
    {
        self.pmkid
    }
}

/// Whether an element is an OWE DH Parameter element: Element ID 255
/// (Extension) with Extension ID 32.
pub open spec fn is_dh_element(e: tlv::Element) -> bool {
    e.id == 255 && e.body.len() >= 1 && e.body[0] == EXT_OWE_DH
}

/// The data of the first OWE DH Parameter element, from its Group field on.
pub open spec fn first_dh(list: Seq<tlv::Element>) -> Option<Seq<u8>>
    decreases list.len(),
{
    if list.len() == 0 {
        None
    } else if is_dh_element(list[0]) {
        Some(list[0].body.subrange(1, list[0].body.len() as int))
    } else {
        first_dh(list.drop_first())
    }
}

/// Find the OWE DH Parameter Element in an IE buffer and return the data
/// after Element ID + Length + Extension (i.e. starting at the Group field).
pub fn find_owe_dh_element(ies: &[u8]) -> (r: Option<&[u8]>)
    ensures
        match r {
            Some(d) => first_dh(tlv::elements_from(ies@, 0)) == Some(d@),
            None => first_dh(tlv::elements_from(ies@, 0)) is None,
        },
{
    let mut pos: usize = 0;
    loop
        invariant
            pos <= ies@.len(),
            first_dh(tlv::elements_from(ies@, 0)) == first_dh(tlv::elements_from(ies@, pos as int)),
        decreases ies@.len() - pos,
    {
        match tlv::next_end(ies, pos) {
            None => {
                return None;
            },
            Some(end) => {
                proof {
                    let list = tlv::elements_from(ies@, pos as int);
                    assert(list[0] == tlv::element_at(ies@, pos as int));
                    assert(list.drop_first() =~= tlv::elements_from(ies@, end as int));
                }
                if ies[pos] == 255 && end > pos + 2 && ies[pos + 2] == EXT_OWE_DH {
                    let d = vstd::slice::slice_subrange(ies, pos + 3, end);
                    assert(d@ =~= tlv::element_at(ies@, pos as int).body.subrange(
                        1,
                        end - pos - 2,
                    ));
                    return Some(d);
                }
                pos = end;
            },
        }
    }
}

/// The DH element that a station builds is found again among elements, and
/// the data found is accepted where the key is the x-coordinate of a point.
pub proof fn law_dh_element_roundtrip(pubkey: Seq<u8>)
    requires
        pubkey.len() == 32,
    ensures
        first_dh(tlv::elements_from(dh_element(pubkey), 0)) == Some(
            bytes::le16_bytes(GROUP_19) + pubkey,
        ),
        is_x_coordinate(pubkey) ==> dh_error(bytes::le16_bytes(GROUP_19) + pubkey) is None,
{
    let s = dh_element(pubkey);
    let d = bytes::le16_bytes(GROUP_19) + pubkey;
    assert(s.len() == 37);
    tlv::lemma_single(s, 0);
    let e = tlv::element_at(s, 0);
    assert(e.body.subrange(1, e.body.len() as int) =~= d);
    assert(seq![e][0] == e);
    bytes::lemma_u16_bytes(GROUP_19);
    assert(d.subrange(2, 34) =~= pubkey);
}

/// Two exchanges that process each other's public keys have the same shared
/// secret: the one that expands it in the other's order of the keys has the
/// other's PMK.
pub proof fn law_exchange_agrees(
    sta: OweAuth,
    sta_done: OweAuth,
    ap: OweAuth,
    ap_done: OweAuth,
    to_sta: Seq<u8>,
    to_ap: Seq<u8>,
)
    requires
        sta.wf(),
        ap.wf(),
        sta_done.derives(sta, to_sta),
        ap_done.derives(ap, to_ap),
        to_sta.subrange(2, 34) == ap.our_pubkey_raw@,
        to_ap.subrange(2, 34) == sta.our_pubkey_raw@,
    ensures
        exists|z: Seq<u8>|
            sta_done.pmk->0@ == #[trigger] owe_pmk(z, sta.our_pubkey_raw@, ap.our_pubkey_raw@)
                && ap_done.pmk->0@ == owe_pmk(z, ap.our_pubkey_raw@, sta.our_pubkey_raw@),
{
    let s = bytes::be_nat(sta.secret@);
    let a = bytes::be_nat(ap.secret@);
    let zs = choose|z: Seq<u8>| #[trigger]
        is_shared_x(z, s, ap.our_pubkey_raw@) && sta_done.pmk->0@ == owe_pmk(
            z,
            sta.our_pubkey_raw@,
            ap.our_pubkey_raw@,
        );
    let za = choose|z: Seq<u8>| #[trigger]
        is_shared_x(z, a, sta.our_pubkey_raw@) && ap_done.pmk->0@ == owe_pmk(
            z,
            ap.our_pubkey_raw@,
            sta.our_pubkey_raw@,
        );
    assert(zs == curve::point_mul(curve::public_point(a), s).subrange(1, 33));
    assert(za == curve::point_mul(curve::public_point(a), s).subrange(1, 33));
    assert(sta_done.pmk->0@ == owe_pmk(zs, sta.our_pubkey_raw@, ap.our_pubkey_raw@));
}

} // verus!
