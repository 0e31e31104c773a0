//! Finding the stanza that a packet belongs to.
//!
//! A packet does not say which stanza it belongs to. The key of each stanza is tried
//! in turn, and the first under which the tag of the packet verifies decides.

use crate::config::daemon::AccessStanza;
use crate::proto::error::{ProtoError, ProtoErrorView};
use crate::proto::packet;
use crate::proto::packet::{parse_packet, MAX_PACKET_LEN, MIN_PACKET_LEN};
use crate::proto::payload;
use crate::proto::payload::{SpaPayload, SpaPayloadView};
use vstd::prelude::*;

verus! {

/// What matching a packet against the stanzas gives.
#[derive(Debug)]
pub enum MatchResult {
    /// The tag verifies under the key of a stanza, and the packet decodes.
    Matched {
        /// The name of the stanza.
        stanza_name: String,
        /// The payload.
        payload: SpaPayload,
    },
    /// The tag verifies under no key.
    NoMatch,
    /// The tag verifies under the key of a stanza, but a later step failed.
    Rejected {
        /// The name of the stanza.
        stanza_name: String,
        /// What failed.
        reason: ProtoError,
    },
}

/// The model of a [`MatchResult`].
#[verifier::ext_equal]
pub enum MatchView {
    /// See [`MatchResult::Matched`].
    Matched {
        /// The name of the stanza.
        stanza_name: Seq<char>,
        /// The payload.
        payload: SpaPayloadView,
    },
    /// See [`MatchResult::NoMatch`].
    NoMatch,
    /// See [`MatchResult::Rejected`].
    Rejected {
        /// The name of the stanza.
        stanza_name: Seq<char>,
        /// What failed.
        reason: ProtoErrorView,
    },
}

impl View for MatchResult {
    type V = MatchView;

    open spec fn view(&self) -> MatchView {
        match *self {
            MatchResult::Matched { stanza_name, payload } => MatchView::Matched {
                stanza_name: stanza_name@,
                payload: payload@,
            },
            MatchResult::NoMatch => MatchView::NoMatch,
            MatchResult::Rejected { stanza_name, reason } => MatchView::Rejected {
                stanza_name: stanza_name@,
                reason: reason@,
            },
        }
    }
}

/// The master key of a stanza.
pub open spec fn stanza_key(stanza: AccessStanza) -> Seq<u8> {
    stanza.master_key_base64.0@
}

/// The first stanza from `i` on under whose key a packet is authentic.
pub open spec fn first_authentic(wire: Seq<u8>, stanzas: Seq<AccessStanza>, i: int) -> Option<int>
    decreases stanzas.len() - i,
{
    if i < 0 || i >= stanzas.len() {
        None
    } else if packet::authentic(wire, stanza_key(stanzas[i])) {
        Some(i)
    } else {
        first_authentic(wire, stanzas, i + 1)
    }
}

/// What matching a packet gives: the first stanza under whose key it is authentic
/// decides, and there is no match where there is none.
pub open spec fn matched(wire: Seq<u8>, stanzas: Seq<AccessStanza>) -> MatchView {
    match first_authentic(wire, stanzas, 0) {
        None => MatchView::NoMatch,
        Some(i) => match packet::parsed(wire, stanza_key(stanzas[i])) {
            Ok(payload) => MatchView::Matched { stanza_name: stanzas[i].name@, payload },
            Err(reason) => MatchView::Rejected { stanza_name: stanzas[i].name@, reason },
        },
    }
}

/// Tries the key of each stanza on a packet. The first stanza under whose key the
/// tag verifies decides; those behind it are not tried.
#[must_use]
pub fn match_packet(wire: &[u8], stanzas: &[AccessStanza]) -> (r: MatchResult)
    ensures
        r@ == matched(wire@, stanzas@),
{
    if wire.len() < MIN_PACKET_LEN || wire.len() > MAX_PACKET_LEN {
        proof {
            lemma_no_length_no_match(wire@, stanzas@, 0);
        }
        return MatchResult::NoMatch;
    }
    for i in 0..stanzas.len()
        invariant
            packet::length_fits(wire@),
            first_authentic(wire@, stanzas@, 0) == first_authentic(wire@, stanzas@, i as int),
    {
        let stanza = &stanzas[i];
        proof {
            packet::law_only_the_tag_fails_as_hmac(wire@, stanza_key(*stanza));
        }
        match parse_packet(wire, stanza.master_key_base64.as_bytes().as_slice()) {
            Ok(payload) => {
                return MatchResult::Matched { stanza_name: stanza.name.clone(), payload };
            },
            Err(ProtoError::HmacFailed) => {},
            Err(reason) => {
                return MatchResult::Rejected { stanza_name: stanza.name.clone(), reason };
            },
        }
    }
    MatchResult::NoMatch
}

/// A packet whose length is not valid matches no stanza.
proof fn lemma_no_length_no_match(wire: Seq<u8>, stanzas: Seq<AccessStanza>, i: int)
    requires
        !packet::length_fits(wire),
    ensures
        first_authentic(wire, stanzas, i) is None,
    decreases stanzas.len() - i,
{
    if 0 <= i < stanzas.len() {
        lemma_no_length_no_match(wire, stanzas, i + 1);
    }
}

/// What `first_authentic` finds: a stanza under whose key the packet is authentic, and
/// none before it, or no such stanza at all.
pub proof fn lemma_first_authentic(wire: Seq<u8>, stanzas: Seq<AccessStanza>, from: int)
    requires
        0 <= from,
    ensures
        match first_authentic(wire, stanzas, from) {
            Some(i) => from <= i < stanzas.len() && packet::authentic(wire, stanza_key(stanzas[i]))
                && forall|j: int|
                from <= j < i ==> !packet::authentic(wire, stanza_key(#[trigger] stanzas[j])),
            None => forall|j: int|
                from <= j < stanzas.len() ==> !packet::authentic(
                    wire,
                    stanza_key(#[trigger] stanzas[j]),
                ),
        },
    decreases stanzas.len() - from,
{
    if from < stanzas.len() && !packet::authentic(wire, stanza_key(stanzas[from])) {
        lemma_first_authentic(wire, stanzas, from + 1);
    }
}

/// There is no match exactly where the packet is authentic under no stanza's key.
pub proof fn law_no_match_means_no_key(wire: Seq<u8>, stanzas: Seq<AccessStanza>)
    ensures
        matched(wire, stanzas) is NoMatch <==> forall|i: int|
            0 <= i < stanzas.len() ==> !packet::authentic(wire, stanza_key(#[trigger] stanzas[i])),
{
    lemma_first_authentic(wire, stanzas, 0);
}

/// The first stanza under whose key a packet is authentic decides, whatever stanzas
/// stand behind it.
pub proof fn law_first_stanza_decides(
    wire: Seq<u8>,
    before: Seq<AccessStanza>,
    stanza: AccessStanza,
    behind: Seq<AccessStanza>,
)
    requires
        packet::authentic(wire, stanza_key(stanza)),
        forall|i: int|
            0 <= i < before.len() ==> !packet::authentic(wire, stanza_key(#[trigger] before[i])),
    ensures
        matched(wire, before.push(stanza) + behind) == (match packet::parsed(
            wire,
            stanza_key(stanza),
        ) {
            Ok(payload) => MatchView::Matched { stanza_name: stanza.name@, payload },
            Err(reason) => MatchView::Rejected { stanza_name: stanza.name@, reason },
        }),
{
    let all = before.push(stanza) + behind;
    let n = before.len() as int;
    lemma_first_authentic(wire, all, 0);
    assert(all[n] == stanza);
    assert forall|j: int| 0 <= j < n implies !packet::authentic(
        wire,
        stanza_key(#[trigger] all[j]),
    ) by {
        assert(all[j] == before[j]);
    }
    assert(first_authentic(wire, all, 0) == Some(n)) by {
        let i = first_authentic(wire, all, 0);
        assert(i is Some);
        if i->0 > n {
            assert(!packet::authentic(wire, stanza_key(all[n])));
        }
    }
}

/// A packet that was built under the key of a stanza, and is not authentic under the
/// key of a stanza before it, matches that stanza with the payload that it carries.
pub proof fn law_built_packet_matches(
    p: SpaPayloadView,
    wire: Seq<u8>,
    before: Seq<AccessStanza>,
    stanza: AccessStanza,
    behind: Seq<AccessStanza>,
)
    requires
        packet::authentic(wire, stanza_key(stanza)),
        packet::parsed(wire, stanza_key(stanza)) == packet::read_back(p),
        payload::structure_error(p) is None,
        forall|i: int|
            0 <= i < before.len() ==> !packet::authentic(wire, stanza_key(#[trigger] before[i])),
    ensures
        matched(wire, before.push(stanza) + behind) == (MatchView::Matched {
            stanza_name: stanza.name@,
            payload: p,
        }),
{
    law_first_stanza_decides(wire, before, stanza, behind);
}

/// What [`match_packet`] gives: the name of the first stanza under whose key the packet is
/// authentic, with the payload that is read under that key or with what failed; or no match,
/// where there is no such stanza.
pub proof fn law_match_is_the_first_authentic(
    wire: &[u8],
    stanzas: &[AccessStanza],
    r: MatchResult,
)
    requires
        call_ensures(match_packet, (wire, stanzas), r),
    ensures
        match r {
            MatchResult::NoMatch => forall|i: int|
                0 <= i < stanzas@.len() ==> !packet::authentic(
                    wire@,
                    (#[trigger] stanzas@[i]).master_key_base64.0@,
                ),
            MatchResult::Matched { stanza_name, payload } => exists|i: int|
                {
                    let key = (#[trigger] stanzas@[i]).master_key_base64.0@;
                    &&& 0 <= i < stanzas@.len()
                    &&& packet::authentic(wire@, key)
                    &&& stanza_name@ == stanzas@[i].name@
                    &&& packet::parsed(wire@, key) is Ok
                    &&& packet::parsed(wire@, key)->Ok_0 == payload@
                    &&& forall|j: int|
                        0 <= j < i ==> !packet::authentic(
                            wire@,
                            (#[trigger] stanzas@[j]).master_key_base64.0@,
                        )
                },
            MatchResult::Rejected { stanza_name, reason } => exists|i: int|
                {
                    let key = (#[trigger] stanzas@[i]).master_key_base64.0@;
                    &&& 0 <= i < stanzas@.len()
                    &&& packet::authentic(wire@, key)
                    &&& stanza_name@ == stanzas@[i].name@
                    &&& packet::parsed(wire@, key) is Err
                    &&& packet::parsed(wire@, key)->Err_0 == reason@
                    &&& forall|j: int|
                        0 <= j < i ==> !packet::authentic(
                            wire@,
                            (#[trigger] stanzas@[j]).master_key_base64.0@,
                        )
                },
        },
{
    lemma_first_authentic(wire@, stanzas@, 0);
    assert(r@ == matched(wire@, stanzas@));
    assert forall|i: int| 0 <= i < stanzas@.len() implies stanza_key(#[trigger] stanzas@[i])
        == stanzas@[i].master_key_base64.0@ by {}
    if let Some(i) = first_authentic(wire@, stanzas@, 0) {
        assert(packet::authentic(wire@, stanzas@[i].master_key_base64.0@));
        assert forall|j: int| 0 <= j < i implies !packet::authentic(
            wire@,
            (#[trigger] stanzas@[j]).master_key_base64.0@,
        ) by {
            assert(!packet::authentic(wire@, stanza_key(stanzas@[j])));
        }
    } else {
        assert forall|i: int| 0 <= i < stanzas@.len() implies !packet::authentic(
            wire@,
            (#[trigger] stanzas@[i]).master_key_base64.0@,
        ) by {
            assert(!packet::authentic(wire@, stanza_key(stanzas@[i])));
        }
    }
}

} // verus!
