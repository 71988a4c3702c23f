//! Which keys an accepted Message 3 or group key message installs, told from
//! the octets of its key data.

use vstd::prelude::*;

use crate::bytes;
use crate::client::fast_transition::KeyHolders;
use crate::client::handshake::{
    actions, answered, group_acted, group_outcome, key_plan, message_1_outcome, message_3_acted,
    message_3_outcome, HandshakeInput, KeyAction, KeyStep, PortStep,
};
use crate::client::state::WifiIface;
use crate::crypto::handshake4;
use crate::crypto::handshake4::{FourWayState, KeyDataKdes, Kdes};
use crate::crypto::key_frames;
use crate::crypto::peer;
use crate::error::WifiError;
use crate::ieee80211::eapol;
use crate::ieee80211::eapol::EapolKeyFrame;
use crate::ieee80211::elements;
use crate::ieee80211::elements::CipherSuite;
use crate::ieee80211::tlv;
use crate::scan::SecurityType;

verus! {

/// Whether an element is a KDE of the OUI 00-0F-AC with a type and at least so
/// many octets.
pub open spec fn is_kde(e: tlv::Element, kind: u8, least: nat) -> bool {
    &&& e.id == 0xdd
    &&& e.body.len() >= least
    &&& e.body[0] == 0x00 && e.body[1] == 0x0f && e.body[2] == 0xac
    &&& e.body[3] == kind
}

/// A GTK KDE: type 1, with a key of at least one octet.
pub open spec fn is_gtk_kde(e: tlv::Element) -> bool {
    is_kde(e, 1, 7)
}

/// An IGTK KDE: type 9, with a key of at least 16 octets.
pub open spec fn is_igtk_kde(e: tlv::Element) -> bool {
    is_kde(e, 9, 28)
}

/// A BIGTK KDE: type 10, with a key of at least 16 octets.
pub open spec fn is_bigtk_kde(e: tlv::Element) -> bool {
    is_kde(e, 10, 28)
}

/// A Key ID KDE: type 10, too short for a BIGTK.
pub open spec fn is_key_id_kde(e: tlv::Element) -> bool {
    is_kde(e, 10, 5) && e.body.len() < 28
}

/// A Transition Disable KDE: type 20 (hexadecimal) of the OUI 50-6F-9A.
pub open spec fn is_transition_kde(e: tlv::Element) -> bool {
    &&& e.id == 0xdd
    &&& e.body.len() >= 5
    &&& e.body[0] == 0x50 && e.body[1] == 0x6f && e.body[2] == 0x9a
    &&& e.body[3] == 0x20
}

/// Whether the element at `j` is the last GTK KDE of a list.
pub open spec fn last_gtk(list: Seq<tlv::Element>, j: int) -> bool {
    &&& 0 <= j < list.len() && is_gtk_kde(list[j])
    &&& forall|k: int| j < k < list.len() ==> !is_gtk_kde(#[trigger] list[k])
}

/// Whether the element at `j` is the last IGTK KDE of a list.
pub open spec fn last_igtk(list: Seq<tlv::Element>, j: int) -> bool {
    &&& 0 <= j < list.len() && is_igtk_kde(list[j])
    &&& forall|k: int| j < k < list.len() ==> !is_igtk_kde(#[trigger] list[k])
}

/// Whether the element at `j` is the last BIGTK KDE of a list.
pub open spec fn last_bigtk(list: Seq<tlv::Element>, j: int) -> bool {
    &&& 0 <= j < list.len() && is_bigtk_kde(list[j])
    &&& forall|k: int| j < k < list.len() ==> !is_bigtk_kde(#[trigger] list[k])
}

/// Whether the element at `j` is the last Key ID KDE of a list.
pub open spec fn last_key_id(list: Seq<tlv::Element>, j: int) -> bool {
    &&& 0 <= j < list.len() && is_key_id_kde(list[j])
    &&& forall|k: int| j < k < list.len() ==> !is_key_id_kde(#[trigger] list[k])
}

/// Whether the element at `j` is the last Transition Disable KDE of a list.
pub open spec fn last_transition(list: Seq<tlv::Element>, j: int) -> bool {
    &&& 0 <= j < list.len() && is_transition_kde(list[j])
    &&& forall|k: int| j < k < list.len() ==> !is_transition_kde(#[trigger] list[k])
}

/// Of each kind of KDE a list of elements says what its last one holds, and
/// nothing where it has none: the index and the key of the group key, the
/// index, the packet number and the key of the two management keys, the
/// pairwise key id and the Transition Disable bitmap.
pub proof fn law_kdes_from_octets(list: Seq<tlv::Element>)
    ensures
        forall|j: int| #[trigger]
            last_gtk(list, j) ==> handshake4::kdes_of(list).gtk == Some(
                (list[j].body[4] & 3, list[j].body.subrange(6, list[j].body.len() as int)),
            ),
        forall|j: int| #[trigger]
            last_igtk(list, j) ==> handshake4::kdes_of(list).igtk == Some(
                handshake4::MgmtKey {
                    key_index: list[j].body[4],
                    ipn: list[j].body.subrange(6, 12),
                    key: list[j].body.subrange(12, list[j].body.len() as int),
                },
            ),
        forall|j: int| #[trigger]
            last_bigtk(list, j) ==> handshake4::kdes_of(list).bigtk == Some(
                handshake4::MgmtKey {
                    key_index: list[j].body[4],
                    ipn: list[j].body.subrange(6, 12),
                    key: list[j].body.subrange(12, list[j].body.len() as int),
                },
            ),
        forall|j: int| #[trigger]
            last_key_id(list, j) ==> handshake4::kdes_of(list).key_id == Some(
                list[j].body[4] & 3,
            ),
        forall|j: int| #[trigger]
            last_transition(list, j) ==> handshake4::kdes_of(list).transition_disable == Some(
                list[j].body[4],
            ),
        handshake4::kdes_of(list).gtk is Some <==> exists|j: int| last_gtk(list, j),
        handshake4::kdes_of(list).gtk is Some <==> exists|j: int|
            0 <= j < list.len() && is_gtk_kde(#[trigger] list[j]),
        handshake4::kdes_of(list).igtk is Some <==> exists|j: int| last_igtk(list, j),
        handshake4::kdes_of(list).igtk is Some <==> exists|j: int|
            0 <= j < list.len() && is_igtk_kde(#[trigger] list[j]),
        handshake4::kdes_of(list).bigtk is Some <==> exists|j: int| last_bigtk(list, j),
        handshake4::kdes_of(list).bigtk is Some <==> exists|j: int|
            0 <= j < list.len() && is_bigtk_kde(#[trigger] list[j]),
        handshake4::kdes_of(list).key_id is Some <==> exists|j: int| last_key_id(list, j),
        handshake4::kdes_of(list).transition_disable is Some <==> exists|j: int|
            last_transition(list, j),
    decreases list.len(),
{
    if list.len() > 0 {
        let front = list.drop_last();
        let n = list.len() - 1;
        law_kdes_from_octets(front);
        assert forall|j: int| 0 <= j < n implies #[trigger] list[j] == front[j] by {}
        assert(list[n] == list.last());
        lemma_last_gtk(list);
        lemma_last_igtk(list);
        lemma_last_bigtk(list);
        lemma_last_key_id(list);
        lemma_last_transition(list);
    }
}

/// The last GTK KDE of a list is its last element or that of the rest.
proof fn lemma_last_gtk(list: Seq<tlv::Element>)
    requires
        list.len() > 0,
    ensures
        is_gtk_kde(list.last()) ==> last_gtk(list, list.len() - 1),
        forall|j: int|
            is_gtk_kde(list.last()) && #[trigger] last_gtk(list, j) ==> j == list.len() - 1,
        forall|j: int|
            !is_gtk_kde(list.last()) ==> (#[trigger] last_gtk(list, j) <==> last_gtk(
                list.drop_last(),
                j,
            )),
        !is_gtk_kde(list.last()) ==> ((exists|j: int| last_gtk(list, j)) <==> (exists|j: int|
            last_gtk(list.drop_last(), j))),
{
    let front = list.drop_last();
    assert forall|j: int| !is_gtk_kde(list.last()) implies (#[trigger] last_gtk(list, j)
        <==> last_gtk(front, j)) by {
        assert(forall|k: int| 0 <= k < front.len() ==> front[k] == list[k]);
        if last_gtk(front, j) {
            assert forall|k: int| j < k < list.len() implies !is_gtk_kde(#[trigger] list[k]) by {
                if k < front.len() {
                    assert(!is_gtk_kde(front[k]));
                }
            }
        }
        if last_gtk(list, j) {
            assert(j < front.len());
        }
    }
    if exists|j: int| last_gtk(front, j) {
        let j = choose|j: int| last_gtk(front, j);
        if !is_gtk_kde(list.last()) {
            assert(last_gtk(list, j));
        }
    }
}

/// The last IGTK KDE of a list is its last element or that of the rest.
proof fn lemma_last_igtk(list: Seq<tlv::Element>)
    requires
        list.len() > 0,
    ensures
        is_igtk_kde(list.last()) ==> last_igtk(list, list.len() - 1),
        forall|j: int|
            is_igtk_kde(list.last()) && #[trigger] last_igtk(list, j) ==> j == list.len() - 1,
        forall|j: int|
            !is_igtk_kde(list.last()) ==> (#[trigger] last_igtk(list, j) <==> last_igtk(
                list.drop_last(),
                j,
            )),
        !is_igtk_kde(list.last()) ==> ((exists|j: int| last_igtk(list, j)) <==> (exists|j: int|
            last_igtk(list.drop_last(), j))),
{
    let front = list.drop_last();
    assert forall|j: int| !is_igtk_kde(list.last()) implies (#[trigger] last_igtk(list, j)
        <==> last_igtk(front, j)) by {
        assert(forall|k: int| 0 <= k < front.len() ==> front[k] == list[k]);
        if last_igtk(front, j) {
            assert forall|k: int| j < k < list.len() implies !is_igtk_kde(#[trigger] list[k]) by {
                if k < front.len() {
                    assert(!is_igtk_kde(front[k]));
                }
            }
        }
        if last_igtk(list, j) {
            assert(j < front.len());
        }
    }
    if exists|j: int| last_igtk(front, j) {
        let j = choose|j: int| last_igtk(front, j);
        if !is_igtk_kde(list.last()) {
            assert(last_igtk(list, j));
        }
    }
}

/// The last BIGTK KDE of a list is its last element or that of the rest.
proof fn lemma_last_bigtk(list: Seq<tlv::Element>)
    requires
        list.len() > 0,
    ensures
        is_bigtk_kde(list.last()) ==> last_bigtk(list, list.len() - 1),
        forall|j: int|
            is_bigtk_kde(list.last()) && #[trigger] last_bigtk(list, j) ==> j == list.len() - 1,
        forall|j: int|
            !is_bigtk_kde(list.last()) ==> (#[trigger] last_bigtk(list, j) <==> last_bigtk(
                list.drop_last(),
                j,
            )),
        !is_bigtk_kde(list.last()) ==> ((exists|j: int| last_bigtk(list, j)) <==> (exists|j: int|
            last_bigtk(list.drop_last(), j))),
{
    let front = list.drop_last();
    assert forall|j: int| !is_bigtk_kde(list.last()) implies (#[trigger] last_bigtk(list, j)
        <==> last_bigtk(front, j)) by {
        assert(forall|k: int| 0 <= k < front.len() ==> front[k] == list[k]);
        if last_bigtk(front, j) {
            assert forall|k: int| j < k < list.len() implies !is_bigtk_kde(#[trigger] list[k]) by {
                if k < front.len() {
                    assert(!is_bigtk_kde(front[k]));
                }
            }
        }
        if last_bigtk(list, j) {
            assert(j < front.len());
        }
    }
    if exists|j: int| last_bigtk(front, j) {
        let j = choose|j: int| last_bigtk(front, j);
        if !is_bigtk_kde(list.last()) {
            assert(last_bigtk(list, j));
        }
    }
}

/// The last Key ID KDE of a list is its last element or that of the rest.
proof fn lemma_last_key_id(list: Seq<tlv::Element>)
    requires
        list.len() > 0,
    ensures
        is_key_id_kde(list.last()) ==> last_key_id(list, list.len() - 1),
        forall|j: int|
            is_key_id_kde(list.last()) && #[trigger] last_key_id(list, j) ==> j == list.len() - 1,
        forall|j: int|
            !is_key_id_kde(list.last()) ==> (#[trigger] last_key_id(list, j) <==> last_key_id(
                list.drop_last(),
                j,
            )),
        !is_key_id_kde(list.last()) ==> ((exists|j: int| last_key_id(list, j)) <==> (exists|j: int|
            last_key_id(list.drop_last(), j))),
{
    let front = list.drop_last();
    assert forall|j: int| !is_key_id_kde(list.last()) implies (#[trigger] last_key_id(list, j)
        <==> last_key_id(front, j)) by {
        assert(forall|k: int| 0 <= k < front.len() ==> front[k] == list[k]);
        if last_key_id(front, j) {
            assert forall|k: int| j < k < list.len() implies !is_key_id_kde(#[trigger] list[k]) by {
                if k < front.len() {
                    assert(!is_key_id_kde(front[k]));
                }
            }
        }
        if last_key_id(list, j) {
            assert(j < front.len());
        }
    }
    if exists|j: int| last_key_id(front, j) {
        let j = choose|j: int| last_key_id(front, j);
        if !is_key_id_kde(list.last()) {
            assert(last_key_id(list, j));
        }
    }
}

/// The last Transition Disable KDE of a list is its last element or that of the
/// rest.
proof fn lemma_last_transition(list: Seq<tlv::Element>)
    requires
        list.len() > 0,
    ensures
        is_transition_kde(list.last()) ==> last_transition(list, list.len() - 1),
        forall|j: int|
            is_transition_kde(list.last()) && #[trigger] last_transition(list, j) ==> j == list.len() - 1,
        forall|j: int|
            !is_transition_kde(list.last()) ==> (#[trigger] last_transition(list, j) <==> last_transition(
                list.drop_last(),
                j,
            )),
        !is_transition_kde(list.last()) ==> ((exists|j: int| last_transition(list, j)) <==> (exists|j: int|
            last_transition(list.drop_last(), j))),
{
    let front = list.drop_last();
    assert forall|j: int| !is_transition_kde(list.last()) implies (#[trigger] last_transition(list, j)
        <==> last_transition(front, j)) by {
        assert(forall|k: int| 0 <= k < front.len() ==> front[k] == list[k]);
        if last_transition(front, j) {
            assert forall|k: int| j < k < list.len() implies !is_transition_kde(#[trigger] list[k]) by {
                if k < front.len() {
                    assert(!is_transition_kde(front[k]));
                }
            }
        }
        if last_transition(list, j) {
            assert(j < front.len());
        }
    }
    if exists|j: int| last_transition(front, j) {
        let j = choose|j: int| last_transition(front, j);
        if !is_transition_kde(list.last()) {
            assert(last_transition(list, j));
        }
    }
}

/// Where each step of a plan stands.
proof fn lemma_plan(
    msg4: Seq<u8>,
    tk: Seq<u8>,
    key_id: Option<u8>,
    kdes: Kdes,
    cipher: CipherSuite,
)
    ensures
        ({
            let plan = key_plan(msg4, tk, key_id, kdes, cipher);
            let p: int = if key_id is Some {
                1
            } else {
                0
            };
            let g: int = if kdes.gtk is Some {
                1
            } else {
                0
            };
            let m: int = if kdes.igtk is Some {
                1
            } else {
                0
            };
            let b: int = if kdes.bigtk is Some {
                1
            } else {
                0
            };
            &&& plan.len() == p + 2 + g + m + b
            &&& key_id matches Some(id) ==> plan[0] == KeyAction::InstallPairwiseRx(id, tk)
            &&& plan[p] == KeyAction::SendFrame(msg4)
            &&& plan[p + 1] == KeyAction::InstallPairwise(key_id, tk)
            &&& kdes.gtk matches Some((i, k)) ==> plan[p + 2] == KeyAction::InstallGroup(i, k)
            &&& kdes.igtk matches Some(k) ==> plan[p + 2 + g] == KeyAction::InstallMgmtGroup(
                k,
                cipher,
            )
            &&& kdes.bigtk matches Some(k) ==> plan[p + 2 + g + m]
                == KeyAction::InstallBeaconGroup(k, cipher)
        }),
{
}

/// The elements in the key data of a frame, in the clear.
pub open spec fn key_elements(fw: FourWayState, frame: EapolKeyFrame) -> Seq<tlv::Element> {
    tlv::elements_from(fw.clear_data(frame)->Ok_0, 0)
}

/// Whether a step installs the management group key (IGTK) of a KDE: its index,
/// its packet number and its key.
pub open spec fn installs_igtk(step: KeyStep, kde: tlv::Element) -> bool {
    &&& step matches KeyStep::InstallMgmtGroup { key, .. }
    &&& key.key_index == kde.body[4]
    &&& key.ipn@ == kde.body.subrange(6, 12)
    &&& key.key@ == kde.body.subrange(12, kde.body.len() as int)
}

/// Whether a step installs the beacon group key (BIGTK) of a KDE: its index,
/// its packet number and its key.
pub open spec fn installs_bigtk(step: KeyStep, kde: tlv::Element) -> bool {
    &&& step matches KeyStep::InstallBeaconGroup { key, .. }
    &&& key.key_index == kde.body[4]
    &&& key.ipn@ == kde.body.subrange(6, 12)
    &&& key.key@ == kde.body.subrange(12, kde.body.len() as int)
}

/// Whether a step installs the group key of a KDE: its index and its key.
pub open spec fn installs_gtk(step: KeyStep, kde: tlv::Element) -> bool {
    &&& step matches KeyStep::InstallGroup { index, key }
    &&& index == kde.body[4] & 3
    &&& key@ == kde.body.subrange(6, kde.body.len() as int)
}

/// The steps that an accepted Message 3 gives hold a management group key
/// installation exactly where the key data carries an IGTK KDE, a beacon group
/// key installation exactly where it carries a BIGTK KDE and a group key
/// installation exactly where it carries a GTK KDE, and each installs the key
/// of the last KDE of its kind.
pub proof fn law_steps_install_the_keys_sent(
    before: WifiIface,
    after: WifiIface,
    parsed: EapolKeyFrame,
    steps: Vec<KeyStep>,
    bitmap: Option<u8>,
)
    requires
        before.link.fourway is Some,
        message_3_outcome(
            before,
            after,
            parsed,
            PortStep::InstallKeys { steps, transition_disable: bitmap },
        ),
    ensures
        ({
            let list = key_elements(before.link.fourway->0, parsed);
            &&& (exists|i: int| 0 <= i < steps@.len() && (#[trigger] steps@[i]) is InstallMgmtGroup)
                <==> exists|j: int| 0 <= j < list.len() && is_igtk_kde(#[trigger] list[j])
            &&& forall|i: int, j: int|
                0 <= i < steps@.len() && (#[trigger] steps@[i]) is InstallMgmtGroup
                    && #[trigger] last_igtk(list, j) ==> installs_igtk(steps@[i], list[j])
            &&& (exists|i: int|
                0 <= i < steps@.len() && (#[trigger] steps@[i]) is InstallBeaconGroup)
                <==> exists|j: int| 0 <= j < list.len() && is_bigtk_kde(#[trigger] list[j])
            &&& forall|i: int, j: int|
                0 <= i < steps@.len() && (#[trigger] steps@[i]) is InstallBeaconGroup
                    && #[trigger] last_bigtk(list, j) ==> installs_bigtk(steps@[i], list[j])
            &&& (exists|i: int| 0 <= i < steps@.len() && (#[trigger] steps@[i]) is InstallGroup)
                <==> exists|j: int| 0 <= j < list.len() && is_gtk_kde(#[trigger] list[j])
            &&& forall|i: int, j: int|
                0 <= i < steps@.len() && (#[trigger] steps@[i]) is InstallGroup
                    && #[trigger] last_gtk(list, j) ==> installs_gtk(steps@[i], list[j])
            &&& bitmap is Some <==> exists|j: int| last_transition(list, j)
            &&& forall|j: int| #[trigger]
                last_transition(list, j) ==> bitmap == Some(list[j].body[4])
        }),
{
    let fw0 = before.link.fourway->0;
    let list = key_elements(fw0, parsed);
    let r = PortStep::InstallKeys { steps, transition_disable: bitmap };
    let (fw1, processed) = choose|
        fw1: FourWayState,
        processed: Result<(Vec<u8>, KeyDataKdes), WifiError>,
    |
        fw1.message_3_processed(fw0, parsed, processed) && #[trigger] message_3_acted(
            before,
            after,
            fw1,
            processed,
            r,
        );
    let (msg4, kdes) = processed->Ok_0;
    let cipher = before.link.bss_info.group_mgmt_cipher;
    let plan = key_plan(msg4@, fw1.spec_tk(), fw1.key_id, kdes@, cipher);
    law_kdes_from_octets(list);
    lemma_plan(msg4@, fw1.spec_tk(), fw1.key_id, kdes@, cipher);
    assert(kdes@ == handshake4::kdes_of(list));
    assert(steps@.len() == plan.len());
    assert forall|i: int| 0 <= i < steps@.len() implies (#[trigger] steps@[i])@ == plan[i] by {
        assert(actions(steps@)[i] == steps@[i]@);
    }
    let p: int = if fw1.key_id is Some {
        1
    } else {
        0
    };
    let g: int = if kdes@.gtk is Some {
        1
    } else {
        0
    };
    let m: int = if kdes@.igtk is Some {
        1
    } else {
        0
    };
    if kdes@.gtk is Some {
        assert(steps@[p + 2] is InstallGroup);
    }
    if kdes@.igtk is Some {
        assert(steps@[p + 2 + g] is InstallMgmtGroup);
    }
    if kdes@.bigtk is Some {
        assert(steps@[p + 2 + g + m] is InstallBeaconGroup);
    }
}

/// The pairwise key that an accepted Message 3 installs is octets 32 to 47 of
/// the pairwise transient key. It is installed once for sending; with Extended
/// Key ID under the key id that the last Key ID KDE names, and before that for
/// reception alone.
pub proof fn law_steps_install_the_pairwise_key(
    before: WifiIface,
    after: WifiIface,
    parsed: EapolKeyFrame,
    steps: Vec<KeyStep>,
    bitmap: Option<u8>,
)
    requires
        before.link.fourway is Some,
        message_3_outcome(
            before,
            after,
            parsed,
            PortStep::InstallKeys { steps, transition_disable: bitmap },
        ),
    ensures
        ({
            let fw = before.link.fourway->0;
            let list = key_elements(fw, parsed);
            &&& forall|i: int|
                0 <= i < steps@.len() ==> ((#[trigger] steps@[i]) matches
                    KeyStep::InstallPairwise { key_id, tk } ==> {
                    &&& tk@ == fw.ptk->0@.subrange(32, 48)
                    &&& key_id is Some <==> fw.ext_key_id
                    &&& forall|j: int| #[trigger]
                        last_key_id(list, j) && fw.ext_key_id ==> key_id == Some(
                            list[j].body[4] & 3,
                        )
                })
            &&& forall|i: int|
                0 <= i < steps@.len() ==> ((#[trigger] steps@[i]) matches
                    KeyStep::InstallPairwiseRx { key_id, tk } ==> {
                    &&& tk@ == fw.ptk->0@.subrange(32, 48)
                    &&& fw.ext_key_id
                    &&& forall|j: int| #[trigger]
                        last_key_id(list, j) ==> key_id == list[j].body[4] & 3
                })
            &&& exists|i: int|
                0 <= i < steps@.len() && (#[trigger] steps@[i]) is InstallPairwise
            &&& (exists|i: int|
                0 <= i < steps@.len() && (#[trigger] steps@[i]) is InstallPairwiseRx)
                <==> fw.ext_key_id
            &&& fw.ext_key_id ==> exists|j: int| last_key_id(list, j)
        }),
{
    let fw0 = before.link.fourway->0;
    let list = key_elements(fw0, parsed);
    let r = PortStep::InstallKeys { steps, transition_disable: bitmap };
    let (fw1, processed) = choose|
        fw1: FourWayState,
        processed: Result<(Vec<u8>, KeyDataKdes), WifiError>,
    |
        fw1.message_3_processed(fw0, parsed, processed) && #[trigger] message_3_acted(
            before,
            after,
            fw1,
            processed,
            r,
        );
    let (msg4, kdes) = processed->Ok_0;
    let cipher = before.link.bss_info.group_mgmt_cipher;
    let plan = key_plan(msg4@, fw1.spec_tk(), fw1.key_id, kdes@, cipher);
    law_kdes_from_octets(list);
    lemma_plan(msg4@, fw1.spec_tk(), fw1.key_id, kdes@, cipher);
    assert(kdes@ == handshake4::kdes_of(list));
    assert(steps@.len() == plan.len());
    assert forall|i: int| 0 <= i < steps@.len() implies (#[trigger] steps@[i])@ == plan[i] by {
        assert(actions(steps@)[i] == steps@[i]@);
    }
    let p: int = if fw1.key_id is Some {
        1
    } else {
        0
    };
    assert(steps@[p + 1] is InstallPairwise);
    if fw1.key_id is Some {
        assert(steps@[0] is InstallPairwiseRx);
    }
}

/// An accepted group key message installs the group key of its last GTK KDE.
pub proof fn law_rekey_installs_the_key_sent(
    before: WifiIface,
    after: WifiIface,
    parsed: EapolKeyFrame,
    reply: Vec<u8>,
    index: u8,
    key: Vec<u8>,
)
    requires
        before.link.fourway is Some,
        group_outcome(before, after, parsed, PortStep::Rekey { reply, index, key }),
    ensures
        ({
            let list = key_elements(before.link.fourway->0, parsed);
            &&& exists|j: int| 0 <= j < list.len() && is_gtk_kde(#[trigger] list[j])
            &&& forall|j: int| #[trigger]
                last_gtk(list, j) ==> {
                    &&& index == list[j].body[4] & 3
                    &&& key@ == list[j].body.subrange(6, list[j].body.len() as int)
                }
        }),
{
    let fw0 = before.link.fourway->0;
    let r = PortStep::Rekey { reply, index, key };
    let (fw1, processed) = choose|fw1: FourWayState, processed: Result<Vec<u8>, WifiError>|
        fw1.group_rekey_processed(fw0, parsed, processed) && #[trigger] group_acted(
            before,
            after,
            fw1,
            processed,
            r,
        );
    law_kdes_from_octets(key_elements(fw0, parsed));
}

/// The RSNE (element 48) and the RSNXE (element 244) of key data are the last of
/// their kind, whole.
pub proof fn law_elements_in_key_data(list: Seq<tlv::Element>, e: tlv::Element)
    requires
        e.body.len() < 256,
    ensures
        ({
            let before = handshake4::kdes_of(list);
            let after = handshake4::kdes_of(list.push(e));
            let whole = seq![e.id, e.body.len() as u8] + e.body;
            &&& after.rsne == if e.id == 48 {
                Some(whole)
            } else {
                before.rsne
            }
            &&& after.rsnxe == if e.id == 244 {
                Some(whole)
            } else {
                before.rsnxe
            }
        }),
{
    assert(list.push(e).drop_last() =~= list);
}

/// After an accepted Message 3 the handshake holds the group key of its last
/// GTK KDE, and the one it had where there is none; the pairwise key stays.
pub proof fn law_handshake_holds_the_group_key(
    before: FourWayState,
    after: FourWayState,
    frame: EapolKeyFrame,
    r: Result<(Vec<u8>, KeyDataKdes), WifiError>,
    j: int,
)
    requires
        after.message_3_processed(before, frame, r),
        r is Ok,
    ensures
        ({
            let list = key_elements(before, frame);
            &&& last_gtk(list, j) ==> {
                &&& after.gtk_index == list[j].body[4] & 3
                &&& after.gtk matches Some(key)
                &&& key@ == list[j].body.subrange(6, list[j].body.len() as int)
            }
            &&& (forall|k: int| 0 <= k < list.len() ==> !is_gtk_kde(#[trigger] list[k]))
                ==> after.gtk == before.gtk && after.gtk_index == before.gtk_index
            &&& after.ptk == before.ptk
            &&& after.pmk == before.pmk
            &&& after.replay_counter == frame.replay_counter
        }),
{
    law_kdes_from_octets(key_elements(before, frame));
}

/// A refused Message 3 over a cached PMK leads back to full authentication, and
/// never to a verdict on the password.
pub proof fn law_stale_key_falls_back(
    before: WifiIface,
    after: WifiIface,
    parsed: EapolKeyFrame,
    r: PortStep,
)
    requires
        before.link.fourway is Some,
        before.link.pmksa_in_use is Some,
        before.link.fourway->0.message_3_error(parsed) is Some,
        message_3_outcome(before, after, parsed, r),
    ensures
        r is Fallback,
        after.state == before.state,
        after.last_error == before.last_error,
{
}

/// The answer to the first Message 1 of a connection on the wire: it repeats the
/// counter of that message (octets 9 to 16), carries the elements of the
/// association and, with Operating Channel Validation, our channel, and its MIC
/// is made under the key that the access point derives from the same PMK, both
/// addresses, its nonce (octets 17 to 48 of Message 1) and ours.
#[verifier::spinoff_prover]
#[verifier::rlimit(40)]
pub proof fn law_message_1_to_message_2(
    before: WifiIface,
    after: WifiIface,
    parsed: EapolKeyFrame,
    frame: Seq<u8>,
    snonce: [u8; 32],
    input: HandshakeInput,
    reply: Vec<u8>,
)
    requires
        eapol::is_key_pdu(frame),
        parsed.decodes(frame),
        before.link.fourway is None,
        before.handshake_input() == Some(input),
        input.rsne.len() < 0x1_0000 - 104,
        message_1_outcome(before, after, parsed, frame, snonce, PortStep::SendFrame(reply)),
    ensures
        after.link.fourway matches Some(fw) && ({
            let anonce = frame.subrange(17, 49);
            let context = peer::lesser_first(
                before.link.bss_info.bssid@,
                before.core.mac@,
                anonce,
                snonce@,
            );
            let data = match fw.ocv {
                Some(o) => input.rsne + seq![
                    0xddu8,
                    7,
                    0,
                    0x0f,
                    0xac,
                    0x0d,
                    o.oci@[0],
                    o.oci@[1],
                    o.oci@[2],
                ],
                None => input.rsne,
            };
            &&& key_frames::reads_as(
                reply@,
                parsed.replay_counter,
                snonce@,
                Seq::new(8, |i: int| 0u8),
                data,
            )
            &&& reply@.subrange(9, 17) == frame.subrange(9, 17)
            &&& key_frames::is_authentic(reply@, input.mic_alg, fw.ptk->0@.subrange(0, 16))
            &&& input.ft_pmk_r1 is None ==> fw.ptk->0@ == if input.mic_alg is HmacSha1 {
                peer::prf_384(input.pmk, peer::octets_pairwise(), context)
            } else {
                peer::kdf_384(input.pmk, peer::octets_pairwise(), context)
            }
            &&& input.ft_pmk_r1 matches Some(r1) ==> fw.ptk->0@ == peer::kdf_384(
                r1.key@,
                peer::octets_ft_ptk(),
                snonce@ + anonce + before.link.bss_info.bssid@ + before.core.mac@,
            )
        }),
{
    let r = PortStep::SendFrame(reply);
    let (fw0, fw1, answer) = choose|
        fw0: FourWayState,
        fw1: FourWayState,
        answer: Result<Vec<u8>, WifiError>,
    | #[trigger]
        answered(before, after, parsed, fw0, fw1, snonce, answer, r);
    key_frames::law_message_2_on_the_wire(
        fw0,
        fw1,
        parsed.key_nonce,
        parsed.replay_counter,
        parsed.key_info,
        snonce,
        reply,
    );
    key_frames::law_pairwise_key_of_handshake(
        fw0,
        fw1,
        parsed.key_nonce,
        parsed.replay_counter,
        parsed.key_info,
    );
    bytes::lemma_be_nat_injective(reply@.subrange(9, 17), frame.subrange(9, 17));
}

/// The one frame that is sent on an accepted Message 3 is a Message 4: its
/// Pairwise, MIC and Secure bits are set and Install, Ack, Error and Request
/// are not, it has the descriptor version of the handshake and repeats the
/// counter of Message 3, and its MIC is made under the pairwise key.
pub proof fn law_message_3_to_message_4(
    before: WifiIface,
    after: WifiIface,
    parsed: EapolKeyFrame,
    steps: Vec<KeyStep>,
    bitmap: Option<u8>,
    i: int,
)
    requires
        before.link.fourway matches Some(fw) && fw.desc_version <= 7,
        message_3_outcome(
            before,
            after,
            parsed,
            PortStep::InstallKeys { steps, transition_disable: bitmap },
        ),
        0 <= i < steps@.len(),
        steps@[i] is SendFrame,
    ensures
        ({
            let fw = before.link.fourway->0;
            let f = steps@[i]->SendFrame_0@;
            let info = key_frames::key_information(f);
            &&& key_frames::reads_as(
                f,
                parsed.replay_counter,
                fw.snonce@,
                Seq::new(8, |k: int| 0u8),
                Seq::empty(),
            )
            &&& key_frames::is_authentic(f, fw.mic_alg, fw.ptk->0@.subrange(0, 16))
            &&& info & 0x0008 != 0 && info & 0x0100 != 0 && info & 0x0200 != 0
            &&& info & 0x0040 == 0 && info & 0x0080 == 0
            &&& info & 0x0400 == 0 && info & 0x0800 == 0 && info & 0x1000 == 0
            &&& info & 7 == fw.desc_version
        }),
{
    let fw0 = before.link.fourway->0;
    let r = PortStep::InstallKeys { steps, transition_disable: bitmap };
    let (fw1, processed) = choose|
        fw1: FourWayState,
        processed: Result<(Vec<u8>, KeyDataKdes), WifiError>,
    |
        fw1.message_3_processed(fw0, parsed, processed) && #[trigger] message_3_acted(
            before,
            after,
            fw1,
            processed,
            r,
        );
    let (msg4, kdes) = processed->Ok_0;
    let cipher = before.link.bss_info.group_mgmt_cipher;
    let plan = key_plan(msg4@, fw1.spec_tk(), fw1.key_id, kdes@, cipher);
    lemma_plan(msg4@, fw1.spec_tk(), fw1.key_id, kdes@, cipher);
    assert(actions(steps@)[i] == steps@[i]@);
    assert(plan[i] == steps@[i]@);
    assert(steps@[i]->SendFrame_0@ == msg4@);
    key_frames::law_message_4_on_the_wire(fw0, fw1, parsed, msg4, kdes);
}

/// Under fast transition a Message 1 that comes before the key hierarchy is
/// there is kept as it is, and nothing is sent.
pub proof fn law_early_message_1_is_kept(
    before: WifiIface,
    after: WifiIface,
    parsed: EapolKeyFrame,
    frame: Seq<u8>,
    snonce: [u8; 32],
    r: PortStep,
)
    requires
        before.link.bss_info.security == SecurityType::FtPsk || before.link.bss_info.security
            == SecurityType::FtSae || before.link.bss_info.security == SecurityType::FtSaeExtKey,
        before.link.ft is None,
        message_1_outcome(before, after, parsed, frame, snonce, r),
    ensures
        r is Nothing,
        after.link.pending_ft_msg1 matches Some(f) && f@ == frame,
        after.state == before.state,
        after.link.fourway == before.link.fourway,
{
}

/// The key holders of a mobility domain are taken from the first Fast BSS
/// Transition element (55) of an association response, and the key that the
/// hierarchy starts from is that of the passphrase with FT-PSK and that of the
/// exchange otherwise.
pub proof fn law_key_holders(iface: WifiIface, ies: Seq<u8>, holders: KeyHolders)
    requires
        iface.ft_holders(ies) == Ok::<KeyHolders, Seq<char>>(holders),
    ensures
        tlv::first_with(tlv::elements_from(ies, 0), 54) matches Some(e) && e.body == holders.mdie
            && e.body.len() >= 3,
        tlv::first_with(tlv::elements_from(ies, 0), 55) matches Some(e) && e.body == holders.ftie
            && e.body.len() >= 82,
        ({
            let fields = elements::ft_fields(tlv::elements_from(holders.ftie, 82));
            fields.r0kh_id == Some(holders.r0kh_id) && fields.r1kh_id == Some(holders.r1kh_id)
        }),
        iface.link.bss_info.security == SecurityType::FtPsk ==> (iface.auth.psk_pmk matches Some(
            pmk,
        ) && pmk@ == holders.xxkey),
        iface.link.bss_info.security != SecurityType::FtPsk ==> (iface.auth.method matches Some(m)
            && (m.exchange().pmk matches Some(pmk) && pmk@ == holders.xxkey)),
{
}

/// The order of a step among those after a Message 3: the pairwise key for
/// reception, Message 4, the pairwise key for sending, the group key, the
/// management group key, the beacon group key.
pub open spec fn rank(step: KeyStep) -> int {
    match step {
        KeyStep::InstallPairwiseRx { .. } => 0,
        KeyStep::SendFrame(_) => 1,
        KeyStep::InstallPairwise { .. } => 2,
        KeyStep::InstallGroup { .. } => 3,
        KeyStep::InstallMgmtGroup { .. } => 4,
        KeyStep::InstallBeaconGroup { .. } => 5,
    }
}

/// The steps after an accepted Message 3 come in this order and each at most
/// once, and the management keys are for the cipher that was negotiated.
pub proof fn law_steps_in_order(
    before: WifiIface,
    after: WifiIface,
    parsed: EapolKeyFrame,
    steps: Vec<KeyStep>,
    bitmap: Option<u8>,
    i: int,
    k: int,
)
    requires
        before.link.fourway is Some,
        message_3_outcome(
            before,
            after,
            parsed,
            PortStep::InstallKeys { steps, transition_disable: bitmap },
        ),
        0 <= i < k < steps@.len(),
    ensures
        rank(steps@[i]) < rank(steps@[k]),
        steps@[k] matches KeyStep::InstallMgmtGroup { cipher, .. } ==> cipher
            == before.link.bss_info.group_mgmt_cipher,
        steps@[k] matches KeyStep::InstallBeaconGroup { cipher, .. } ==> cipher
            == before.link.bss_info.group_mgmt_cipher,
        steps@[0] is InstallPairwiseRx || steps@[0] is SendFrame,
{
    let fw0 = before.link.fourway->0;
    let r = PortStep::InstallKeys { steps, transition_disable: bitmap };
    let (fw1, processed) = choose|
        fw1: FourWayState,
        processed: Result<(Vec<u8>, KeyDataKdes), WifiError>,
    |
        fw1.message_3_processed(fw0, parsed, processed) && #[trigger] message_3_acted(
            before,
            after,
            fw1,
            processed,
            r,
        );
    let (msg4, kdes) = processed->Ok_0;
    let cipher = before.link.bss_info.group_mgmt_cipher;
    let plan = key_plan(msg4@, fw1.spec_tk(), fw1.key_id, kdes@, cipher);
    lemma_plan(msg4@, fw1.spec_tk(), fw1.key_id, kdes@, cipher);
    assert(actions(steps@)[i] == steps@[i]@ && actions(steps@)[k] == steps@[k]@);
    assert(actions(steps@)[0] == steps@[0]@);
    assert(plan[i] == steps@[i]@ && plan[k] == steps@[k]@ && plan[0] == steps@[0]@);
}

/// Only the management keys may fail to install without failing the connection.
pub proof fn law_fatal_steps(step: KeyStep)
    ensures
        step@.is_fatal() <==> rank(step) <= 3,
{
}

/// The reply to an accepted group key message has the MIC and Secure bits and
/// none of Pairwise, Install, Ack, Error and Request, the descriptor version and
/// the counter of that message, and its MIC is made under the pairwise key.
pub proof fn law_group_message_to_reply(
    before: WifiIface,
    after: WifiIface,
    parsed: EapolKeyFrame,
    reply: Vec<u8>,
    index: u8,
    key: Vec<u8>,
)
    requires
        before.link.fourway is Some,
        group_outcome(before, after, parsed, PortStep::Rekey { reply, index, key }),
    ensures
        ({
            let fw = before.link.fourway->0;
            let info = key_frames::key_information(reply@);
            &&& key_frames::reads_as(
                reply@,
                parsed.replay_counter,
                Seq::new(32, |i: int| 0u8),
                parsed.key_rsc@,
                Seq::empty(),
            )
            &&& key_frames::is_authentic(reply@, fw.mic_alg, fw.ptk->0@.subrange(0, 16))
            &&& info & 0x0100 != 0 && info & 0x0200 != 0
            &&& info & 0x0008 == 0 && info & 0x0040 == 0 && info & 0x0080 == 0
            &&& info & 0x0400 == 0 && info & 0x0800 == 0
            &&& info & 7 == parsed.key_info & 7
            &&& parsed.replay_counter > fw.replay_counter
            &&& after.state == before.state
        }),
{
    let fw0 = before.link.fourway->0;
    let r = PortStep::Rekey { reply, index, key };
    let (fw1, processed) = choose|fw1: FourWayState, processed: Result<Vec<u8>, WifiError>|
        fw1.group_rekey_processed(fw0, parsed, processed) && #[trigger] group_acted(
            before,
            after,
            fw1,
            processed,
            r,
        );
    key_frames::law_group_reply_on_the_wire(fw0, fw1, parsed, reply);
}

/// A Message 1 within a handshake is answered from the same PMK, elements and
/// algorithm, under a new pairwise key from its nonce and ours.
pub proof fn law_repeated_message_1(
    before: WifiIface,
    after: WifiIface,
    parsed: EapolKeyFrame,
    frame: Seq<u8>,
    snonce: [u8; 32],
    reply: Vec<u8>,
)
    requires
        eapol::is_key_pdu(frame),
        parsed.decodes(frame),
        before.link.fourway matches Some(fw) && fw.rsne@.len() < 0x1_0000 - 104
            && fw.ft_pmk_r1 is None && fw.ocv is None,
        message_1_outcome(before, after, parsed, frame, snonce, PortStep::SendFrame(reply)),
    ensures
        after.link.fourway matches Some(fw1) && ({
            let fw0 = before.link.fourway->0;
            let context = peer::lesser_first(
                fw0.mac_ap@,
                fw0.mac_sta@,
                frame.subrange(17, 49),
                snonce@,
            );
            &&& key_frames::reads_as(
                reply@,
                parsed.replay_counter,
                snonce@,
                Seq::new(8, |i: int| 0u8),
                fw0.rsne@,
            )
            &&& key_frames::is_authentic(reply@, fw0.mic_alg, fw1.ptk->0@.subrange(0, 16))
            &&& fw1.ptk->0@ == if fw0.mic_alg is HmacSha1 {
                peer::prf_384(fw0.pmk@, peer::octets_pairwise(), context)
            } else {
                peer::kdf_384(fw0.pmk@, peer::octets_pairwise(), context)
            }
            &&& fw1.pmk == fw0.pmk && fw1.mic_alg == fw0.mic_alg && fw1.ap_rsne == fw0.ap_rsne
        }),
{
    let r = PortStep::SendFrame(reply);
    let (fw0, fw1, answer) = choose|
        fw0: FourWayState,
        fw1: FourWayState,
        answer: Result<Vec<u8>, WifiError>,
    | #[trigger]
        answered(before, after, parsed, fw0, fw1, snonce, answer, r);
    key_frames::law_message_2_on_the_wire(
        fw0,
        fw1,
        parsed.key_nonce,
        parsed.replay_counter,
        parsed.key_info,
        snonce,
        reply,
    );
    key_frames::law_pairwise_key_of_handshake(
        fw0,
        fw1,
        parsed.key_nonce,
        parsed.replay_counter,
        parsed.key_info,
    );
}

} // verus!
