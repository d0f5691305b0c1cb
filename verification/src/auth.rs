use vstd::prelude::*;

verus! {

/// The byte sequence whose base64 encoding authenticates every request: the
/// client id, one colon (byte 58), the client secret.
pub open spec fn credential_bytes(id: Seq<u8>, secret: Seq<u8>) -> Seq<u8> {
    id + seq![58u8] + secret
}

/// What base64::encode returns for a given byte sequence.
pub uninterp spec fn base64_of(bytes: Seq<u8>) -> Seq<char>;

/// Relies on base64::encode: the standard alphabet with padding, a function
/// of the input bytes alone; encoding n bytes yields 4*ceil(n/3)
/// characters, and the call panics only when that size overflows.
#[verifier::external_body]
fn b64_encode(bytes: &Vec<u8>) -> (r: String)
    requires
        4 * ((bytes@.len() + 2) / 3) <= usize::MAX,
    ensures
        r@ == base64_of(bytes@),
        r@.len() == 4 * ((bytes@.len() + 2) / 3),
{
    base64::encode(bytes.as_slice())
}

/// Builds the Basic-authorization credential: the base64 encoding of the
/// client id and secret joined by a colon.
pub fn encode_credentials(client_id: &Vec<u8>, client_secret: &Vec<u8>) -> (r: String)
    requires
        4 * ((client_id@.len() + client_secret@.len() + 3) / 3) <= usize::MAX,
    ensures
        r@ == base64_of(credential_bytes(client_id@, client_secret@)),
        r@.len() == 4 * ((client_id@.len() + client_secret@.len() + 3) / 3),
{
    let mut bytes: Vec<u8> = Vec::new();
    let n = client_id.len();
    for i in 0..n
        invariant
            n == client_id@.len(),
            bytes@ == client_id@.take(i as int),
    {
        bytes.push(client_id[i]);
        proof {
            assert(bytes@ =~= client_id@.take(i as int + 1));
        }
    }
    proof {
        assert(bytes@ =~= client_id@);
    }
    bytes.push(58);
    let m = client_secret.len();
    for i in 0..m
        invariant
            m == client_secret@.len(),
            bytes@ == client_id@ + seq![58u8] + client_secret@.take(i as int),
    {
        bytes.push(client_secret[i]);
        proof {
            assert(bytes@ =~= client_id@ + seq![58u8] + client_secret@.take(i as int + 1));
        }
    }
    proof {
        assert(bytes@ =~= credential_bytes(client_id@, client_secret@));
    }
    b64_encode(&bytes)
}

} // verus!
