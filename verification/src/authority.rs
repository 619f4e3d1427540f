use vstd::prelude::*;
use crate::identity::Identity;
use anchor_lang::solana_program::pubkey::Pubkey;

verus! {

/// The derived identity and disambiguation bump that the derivation
/// primitive yields for a program identity and a seed label, or `None` in
/// the practically-never case that no bump in the search space yields a
/// valid keyless identity. The result depends on the two inputs alone, so
/// every re-derivation with the same inputs reproduces it exactly.
pub uninterp spec fn derived_authority(program: Identity, label: Seq<u8>) -> Option<(Identity, u8)>;

/// The fixed seed label under which the sale record and its vault-owning
/// authority are derived: the bytes of "sale".
pub open spec fn sale_label() -> Seq<u8> {
    seq![115u8, 97u8, 108u8, 101u8]
}

/// Appends the eight bytes of one word, lowest byte first.
fn push_word(out: &mut Vec<u8>, w: u64)
    ensures
        final(out)@.len() == old(out)@.len() + 8,
{
    let mut x = w;
    let mut i: usize = 0;
    while i < 8
        invariant
            i <= 8,
            out@.len() == old(out)@.len() + i,
        decreases 8 - i,
    {
        proof {
            assert((x & 0xff) < 256) by (bit_vector);
        }
        out.push((x & 0xff) as u8);
        x = x >> 8;
        i = i + 1;
    }
}

/// The identity in the 32-byte address form the derivation primitive takes:
/// the four words in order, each lowest byte first. The exact layout is
/// internal to the derivation boundary; the verified logic never reads it.
pub(crate) fn identity_bytes(id: &Identity) -> (r: Vec<u8>)
    ensures
        r@.len() == 32,
{
    let mut r: Vec<u8> = Vec::new();
    push_word(&mut r, id.w0);
    push_word(&mut r, id.w1);
    push_word(&mut r, id.w2);
    push_word(&mut r, id.w3);
    r
}

/// One word read back out of the address form, lowest byte first.
fn word_at(b: &Vec<u8>, start: usize) -> (r: u64)
    requires
        start + 8 <= b@.len(),
{
    let n = b.len();
    let mut w: u64 = 0;
    let mut i: usize = 8;
    while i > 0
        invariant
            i <= 8,
            start + 8 <= n,
            n == b@.len(),
        decreases i,
    {
        i = i - 1;
        w = (w << 8) | (b[start + i] as u64);
    }
    w
}

/// An identity read back from the 32-byte address form.
pub(crate) fn identity_from_bytes(b: &Vec<u8>) -> (r: Identity)
    requires
        b@.len() == 32,
{
    Identity {
        w0: word_at(b, 0),
        w1: word_at(b, 8),
        w2: word_at(b, 16),
        w3: word_at(b, 24),
    }
}

/// Relies on `Pubkey::try_find_program_address` (solana-address, re-exported
/// through anchor-lang): a deterministic, pure search for the program-derived
/// address and bump seed for the given seed label and program identity; it
/// returns `None` only when no bump yields an off-curve address. The body
/// only converts the library's identities to and from the 32-byte address
/// form on either side of the call.
#[verifier::external_body]
fn find_program_authority(program: &Identity, label: &Vec<u8>) -> (r: Option<(Identity, u8)>)
    ensures
        r == derived_authority(*program, label@),
{
    let pk = Pubkey::try_from(identity_bytes(program).as_slice()).unwrap();
    let (a, bump) = Pubkey::try_find_program_address(&[label.as_slice()], &pk)?;
    Some((identity_from_bytes(&a.to_bytes().to_vec()), bump))
}

/// The bytes of the fixed seed label, as the derivation call takes them.
fn sale_label_bytes() -> (r: Vec<u8>)
    ensures
        r@ == sale_label(),
{
    let mut r: Vec<u8> = Vec::new();
    r.push(115);
    r.push(97);
    r.push(108);
    r.push(101);
    proof {
        assert(r@ =~= sale_label());
    }
    r
}

/// Derives the keyless identity that owns the sale's vault, with its bump,
/// from the program's own identity and the fixed sale label. Deterministic:
/// any later re-derivation returns the identical pair, which is what lets
/// the settlement logic re-assert control of the vault on every purchase.
pub fn derive_sale_authority(program_id: &Identity) -> (r: Option<(Identity, u8)>)
    ensures
        r == derived_authority(*program_id, sale_label()),
{
    let label = sale_label_bytes();
    find_program_authority(program_id, &label)
}

} // verus!
