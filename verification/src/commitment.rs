use vstd::prelude::*;

use vstd::bytes::spec_u64_to_le_bytes;
use vstd::bytes::u64_to_le_bytes;

verus! {

/// One grid cell occupied by a unit: a row and a column, each one byte.
#[derive(Clone, Copy, Debug)]
pub struct GridPosition {
    pub row: u8,
    pub col: u8,
}

/// One hidden unit of a player's move set: a small identifier and the
/// ordered cells it occupies. The order of cells and of units is part of the
/// committed data; the verifier never sorts.
#[derive(Clone, Debug)]
pub struct ShipPosition {
    pub ship_id: u8,
    pub positions: Vec<GridPosition>,
}

/// The canonical byte encoding of one unit's cell list: two bytes per cell,
/// row first, in input order.
pub open spec fn encode_positions(ps: Seq<GridPosition>) -> Seq<u8>
    decreases ps.len(),
{
    if ps.len() == 0 {
        Seq::empty()
    } else {
        encode_positions(ps.drop_last()) + seq![ps.last().row, ps.last().col]
    }
}

/// The canonical byte encoding of one unit: its identifier, its cell count
/// as one byte, then its cells.
pub open spec fn encode_ship(s: ShipPosition) -> Seq<u8> {
    seq![s.ship_id, s.positions@.len() as u8] + encode_positions(s.positions@)
}

/// The canonical byte encoding of a whole move set: each unit in input
/// order, with no padding between units.
pub open spec fn encode_ships(ships: Seq<ShipPosition>) -> Seq<u8>
    decreases ships.len(),
{
    if ships.len() == 0 {
        Seq::empty()
    } else {
        encode_ships(ships.drop_last()) + encode_ship(ships.last())
    }
}

/// A unit whose cell count fits the one count byte of the encoding.
pub open spec fn ship_wf(s: ShipPosition) -> bool {
    s.positions@.len() <= 255
}

/// A move set every unit of which can be encoded.
pub open spec fn ships_wf(ships: Seq<ShipPosition>) -> bool {
    forall|i: int| 0 <= i < ships.len() ==> ship_wf(#[trigger] ships[i])
}

/// What the SHA-256 primitive returns for the given bytes; fixed by the
/// input alone.
pub uninterp spec fn sha256_of(data: Seq<u8>) -> Seq<u8>;

/// Relies on solana_program::hash::hash: the SHA-256 digest of the input
/// bytes, 32 bytes long, a function of the input bytes alone.
#[verifier::external_body]
pub(crate) fn sha256(data: &Vec<u8>) -> (r: Vec<u8>)
    ensures
        r@ == sha256_of(data@),
        r@.len() == 32,
{
    solana_program::hash::hash(data.as_slice()).to_bytes().to_vec()
}

/// The digest a party is bound to: the hash of its encoded move set
/// followed by the eight little-endian bytes of its secret nonce.
pub open spec fn commitment_of(ships: Seq<ShipPosition>, nonce: u64) -> Seq<u8> {
    sha256_of(encode_ships(ships) + spec_u64_to_le_bytes(nonce))
}

/// A revealed pair matches a stored digest exactly when the digest is the
/// pair's commitment; comparison is exact, with no tolerance.
pub open spec fn reveal_matches(ships: Seq<ShipPosition>, nonce: u64, digest: Seq<u8>) -> bool {
    digest == commitment_of(ships, nonce)
}

/// A commitment verifies against the reveal it was built from, and against
/// no other digest: any change to the digest makes verification fail.
pub proof fn lemma_commit_verify_roundtrip(ships: Seq<ShipPosition>, nonce: u64)
    ensures
        reveal_matches(ships, nonce, commitment_of(ships, nonce)),
        forall|d: Seq<u8>| d != commitment_of(ships, nonce) ==> !reveal_matches(ships, nonce, d),
{
}

/// Encodes a move set into its canonical bytes: per unit one identifier
/// byte, one count byte, then two bytes per cell, in input order.
pub fn serialize_ships(ships: &Vec<ShipPosition>) -> (r: Vec<u8>)
    requires
        ships_wf(ships@),
    ensures
        r@ == encode_ships(ships@),
{
    let mut out: Vec<u8> = Vec::new();
    let mut i: usize = 0;
    while i < ships.len()
        invariant
            i <= ships@.len(),
            ships_wf(ships@),
            out@ == encode_ships(ships@.take(i as int)),
        decreases ships@.len() - i,
    {
        out.push(ships[i].ship_id);
        out.push(ships[i].positions.len() as u8);
        let ghost unit_prefix = out@;
        let mut j: usize = 0;
        while j < ships[i].positions.len()
            invariant
                i < ships@.len(),
                j <= ships@[i as int].positions@.len(),
                ships_wf(ships@),
                out@ == unit_prefix + encode_positions(ships@[i as int].positions@.take(j as int)),
            decreases ships@[i as int].positions@.len() - j,
        {
            out.push(ships[i].positions[j].row);
            out.push(ships[i].positions[j].col);
            proof {
                let ps = ships@[i as int].positions@;
                assert(ps.take(j + 1).drop_last() =~= ps.take(j as int));
                assert(ps.take(j + 1).last() == ps[j as int]);
            }
            j += 1;
        }
        proof {
            let ps = ships@[i as int].positions@;
            assert(ps.take(ps.len() as int) =~= ps);
            assert(out@ == unit_prefix + encode_positions(ps));
            assert(unit_prefix == encode_ships(ships@.take(i as int)) + seq![
                ships@[i as int].ship_id,
                ps.len() as u8,
            ]);
            assert(ships@.take(i + 1).drop_last() =~= ships@.take(i as int));
            assert(ships@.take(i + 1).last() == ships@[i as int]);
            assert(out@ =~= encode_ships(ships@.take(i + 1)));
        }
        i += 1;
    }
    proof {
        assert(ships@.take(ships@.len() as int) =~= ships@);
    }
    out
}

/// Builds the digest that binds a party to a move set and nonce: the hash
/// of the canonical encoding followed by the nonce's little-endian bytes.
pub fn commit(ships: &Vec<ShipPosition>, nonce: u64) -> (r: Vec<u8>)
    requires
        ships_wf(ships@),
    ensures
        r@ == commitment_of(ships@, nonce),
        r@.len() == 32,
{
    let mut data = serialize_ships(ships);
    let mut nonce_bytes = u64_to_le_bytes(nonce);
    data.append(&mut nonce_bytes);
    sha256(&data)
}

/// Compares two byte strings for exact equality.
pub fn bytes_eq(a: &Vec<u8>, b: &Vec<u8>) -> (r: bool)
    ensures
        r == (a@ == b@),
{
    if a.len() != b.len() {
        return false;
    }
    let mut i: usize = 0;
    while i < a.len()
        invariant
            i <= a@.len(),
            a@.len() == b@.len(),
            forall|k: int| 0 <= k < i ==> a@[k] == b@[k],
        decreases a@.len() - i,
    {
        if a[i] != b[i] {
            return false;
        }
        i += 1;
    }
    proof {
        assert(a@ =~= b@);
    }
    true
}

/// Recomputes the commitment of a revealed move set and nonce and compares
/// it to a stored digest; true exactly when they match bit for bit.
pub fn verify(ships: &Vec<ShipPosition>, nonce: u64, digest: &Vec<u8>) -> (r: bool)
    requires
        ships_wf(ships@),
    ensures
        r == reveal_matches(ships@, nonce, digest@),
{
    let recomputed = commit(ships, nonce);
    bytes_eq(digest, &recomputed)
}

} // verus!
