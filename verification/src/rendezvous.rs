//! The network rendezvous decision: accept a pasted peer address and assign
//! the deterministic peer id by lexicographic comparison of the two address
//! strings.
//!
//! The application binds the transport endpoint and resolves the local
//! address (directly or through an external address-discovery service); this
//! module decides, from the two address strings and the frame's confirm
//! trigger, whether a session is formed and which duplex role each side
//! takes.

use crate::input::InputScheme;
use crate::menu::GameType;
use vstd::prelude::*;
use vstd::string::StringSliceAdditionalSpecFns;

verus! {

/// The bytes a string is made of: the encoding of its characters. Rust
/// orders strings by exactly these bytes.
pub open spec fn string_bytes(s: Seq<char>) -> Seq<u8> {
    vstd::utf8::encode_utf8(s)
}

/// Byte-wise lexicographic strict order: the order Rust's string comparison
/// uses.
pub open spec fn bytes_lt(a: Seq<u8>, b: Seq<u8>) -> bool
    decreases a.len(),
{
    if b.len() == 0 {
        false
    } else if a.len() == 0 {
        true
    } else if a[0] != b[0] {
        a[0] < b[0]
    } else {
        bytes_lt(a.drop_first(), b.drop_first())
    }
}

/// On distinct byte sequences the lexicographic order points exactly one
/// way.
pub proof fn lemma_bytes_lt_asymmetric(a: Seq<u8>, b: Seq<u8>)
    requires
        a != b,
    ensures
        bytes_lt(a, b) <==> !bytes_lt(b, a),
    decreases a.len(),
{
    if a.len() == 0 && b.len() == 0 {
        assert(a =~= b);
    } else if a.len() != 0 && b.len() != 0 && a[0] == b[0] {
        if a.drop_first() == b.drop_first() {
            assert(a =~= b) by {
                assert(a.drop_first().len() == a.len() - 1);
                assert(b.drop_first().len() == b.len() - 1);
                assert(a.len() == b.len());
                assert forall|i: int| 0 <= i < a.len() implies a[i] == b[i] by {
                    if i > 0 {
                        assert(a[i] == a.drop_first()[i - 1]);
                        assert(b[i] == b.drop_first()[i - 1]);
                    }
                }
            }
        }
        lemma_bytes_lt_asymmetric(a.drop_first(), b.drop_first());
    }
}

/// Byte-wise lexicographic comparison of two strings, the order Rust gives
/// string values.
pub fn str_lt(a: &str, b: &str) -> (r: bool)
    ensures
        r == bytes_lt(string_bytes(a@), string_bytes(b@)),
{
    let ab = a.as_bytes();
    let bb = b.as_bytes();
    proof {
        assert(ab@.skip(0) =~= ab@);
        assert(bb@.skip(0) =~= bb@);
    }
    let mut i: usize = 0;
    while i < ab.len() && i < bb.len()
        invariant
            ab@ == string_bytes(a@),
            bb@ == string_bytes(b@),
            i <= ab@.len(),
            i <= bb@.len(),
            bytes_lt(ab@, bb@) == bytes_lt(ab@.skip(i as int), bb@.skip(i as int)),
        decreases ab@.len() - i,
    {
        let ca = ab[i];
        let cb = bb[i];
        proof {
            assert(ab@.skip(i as int)[0] == ab@[i as int]);
            assert(bb@.skip(i as int)[0] == bb@[i as int]);
        }
        if ca != cb {
            return ca < cb;
        }
        proof {
            assert(ab@.skip(i as int).drop_first() =~= ab@.skip(i + 1));
            assert(bb@.skip(i as int).drop_first() =~= bb@.skip(i + 1));
        }
        i += 1;
    }
    proof {
        assert(ab@.skip(i as int).len() == ab@.len() - i);
        assert(bb@.skip(i as int).len() == bb@.len() - i);
    }
    ab.len() < bb.len()
}

/// Byte-wise equality of two strings.
pub fn str_eq_bytes(a: &str, b: &str) -> (r: bool)
    ensures
        r == (string_bytes(a@) == string_bytes(b@)),
{
    let ab = a.as_bytes();
    let bb = b.as_bytes();
    if ab.len() != bb.len() {
        proof {
            assert(string_bytes(a@) != string_bytes(b@)) by {
                if string_bytes(a@) == string_bytes(b@) {
                    assert(ab@.len() == bb@.len());
                }
            }
        }
        return false;
    }
    let mut i: usize = 0;
    while i < ab.len()
        invariant
            ab@ == string_bytes(a@),
            bb@ == string_bytes(b@),
            ab@.len() == bb@.len(),
            i <= ab@.len(),
            forall|j: int| 0 <= j < i ==> ab@[j] == bb@[j],
        decreases ab@.len() - i,
    {
        if ab[i] != bb[i] {
            proof {
                assert(string_bytes(a@) != string_bytes(b@)) by {
                    if string_bytes(a@) == string_bytes(b@) {
                        assert(ab@[i as int] == bb@[i as int]);
                    }
                }
            }
            return false;
        }
        i += 1;
    }
    proof {
        assert(ab@ =~= bb@);
    }
    true
}

/// The peer id computed on the side holding `local`: 0 when the local
/// address string is lexicographically greater than the peer's, else 1.
pub open spec fn spec_peer_id(local: Seq<u8>, peer: Seq<u8>) -> int {
    if bytes_lt(peer, local) {
        0
    } else {
        1
    }
}

/// Assign this side's peer id from the two address strings.
pub fn peer_id(local_addr: &str, peer_addr: &str) -> (id: u8)
    ensures
        id == spec_peer_id(string_bytes(local_addr@), string_bytes(peer_addr@)),
{
    if str_lt(peer_addr, local_addr) {
        0
    } else {
        1
    }
}

/// Peer-id assignment is a strict tie-break: of two sides holding distinct
/// address strings, the one with the lexicographically greater string
/// computes id 0 and the other computes id 1, so the two sides never agree
/// on a role.
pub proof fn lemma_peer_id_tie_break(a: Seq<u8>, b: Seq<u8>)
    requires
        a != b,
    ensures
        spec_peer_id(a, b) != spec_peer_id(b, a),
        bytes_lt(a, b) ==> spec_peer_id(a, b) == 1 && spec_peer_id(b, a) == 0,
        bytes_lt(b, a) ==> spec_peer_id(a, b) == 0 && spec_peer_id(b, a) == 1,
{
    lemma_bytes_lt_asymmetric(a, b);
}

/// A formed session: the two address strings, this side's duplex role, and
/// the local player's binding. The application pairs it with the bound
/// transport endpoint.
pub struct NetworkSession {
    pub local_addr: String,
    pub peer_addr: String,
    pub id: u8,
    pub input_scheme: InputScheme,
}

impl NetworkSession {
    /// The session's invariant: the id is the deterministic tie-break of the
    /// two addresses, which are distinct and the peer's non-empty.
    pub open spec fn wf(self) -> bool {
        &&& self.id == spec_peer_id(string_bytes(self.local_addr@), string_bytes(self.peer_addr@))
        &&& string_bytes(self.peer_addr@).len() > 0
        &&& string_bytes(self.peer_addr@) != string_bytes(self.local_addr@)
    }

    /// The game-start configuration this session yields: the peer's address,
    /// this side's role, and the local player's binding. The application
    /// pairs it with the bound transport endpoint.
    pub fn into_game_type(self) -> (g: GameType)
        ensures
            match g {
                GameType::Network { other_addr, id, input_scheme } => {
                    &&& other_addr == self.peer_addr
                    &&& id == self.id
                    &&& input_scheme == self.input_scheme
                },
                _ => false,
            },
    {
        GameType::Network {
            other_addr: self.peer_addr,
            id: self.id,
            input_scheme: self.input_scheme,
        }
    }
}

/// One frame of the rendezvous screen: when the confirm trigger fires and
/// the pasted peer address is usable — non-empty and distinct from the local
/// address, so the two sides' roles cannot collide — form the session;
/// otherwise keep waiting.
pub fn rendezvous_frame(
    local_addr: &String,
    peer_addr: &String,
    input_scheme: InputScheme,
    confirm: bool,
) -> (r: Option<NetworkSession>)
    ensures
        match r {
            Some(session) => {
                &&& confirm
                &&& string_bytes(peer_addr@).len() > 0
                &&& string_bytes(peer_addr@) != string_bytes(local_addr@)
                &&& session.local_addr@ == local_addr@
                &&& session.peer_addr@ == peer_addr@
                &&& session.input_scheme == input_scheme
                &&& session.id == spec_peer_id(
                    string_bytes(local_addr@),
                    string_bytes(peer_addr@),
                )
                &&& session.wf()
            },
            None => !(confirm && string_bytes(peer_addr@).len() > 0 && string_bytes(peer_addr@)
                != string_bytes(local_addr@)),
        },
{
    if !confirm {
        return None;
    }
    if peer_addr.as_str().as_bytes().len() == 0 {
        return None;
    }
    if str_eq_bytes(peer_addr.as_str(), local_addr.as_str()) {
        return None;
    }
    let id = peer_id(local_addr.as_str(), peer_addr.as_str());
    Some(
        NetworkSession {
            local_addr: local_addr.clone(),
            peer_addr: peer_addr.clone(),
            id,
            input_scheme,
        },
    )
}

} // verus!
