use vstd::prelude::*;
use vstd::utf8::{encode_scalar, encode_utf8};

verus! {

/// Padded base64 text of `b` in the standard alphabet.
pub uninterp spec fn base64_standard(b: Seq<u8>) -> Seq<char>;

/// Relies on base64's `Engine::encode` with the `STANDARD` engine: the
/// padded standard-alphabet encoding of `b`. It panics only where the
/// encoded length overflows `usize`.
#[verifier::external_body]
fn encode_base64(b: &[u8]) -> (r: String)
    requires
        b@.len() <= usize::MAX / 2,
    ensures
        r@ == base64_standard(b@),
{
    base64::Engine::encode(&base64::engine::general_purpose::STANDARD, b)
}

proof fn lemma_encode_utf8_concat(a: Seq<char>, b: Seq<char>)
    ensures
        encode_utf8(a + b) == encode_utf8(a) + encode_utf8(b),
    decreases a.len(),
{
    if a.len() == 0 {
        assert(a + b =~= b);
        assert(encode_utf8(a) + encode_utf8(b) =~= encode_utf8(b));
    } else {
        assert((a + b).drop_first() =~= a.drop_first() + b);
        assert((a + b)[0] == a[0]);
        lemma_encode_utf8_concat(a.drop_first(), b);
        let e0 = encode_scalar(a[0] as u32);
        assert(e0 + (encode_utf8(a.drop_first()) + encode_utf8(b)) =~= (e0 + encode_utf8(
            a.drop_first(),
        )) + encode_utf8(b));
    }
}

/// `user:password`, the text that Basic authorization encodes.
pub fn credentials(user: &str, password: &str) -> (r: String)
    ensures
        r@ == user@ + ":"@ + password@,
{
    let mut r = user.to_owned();
    r.append(":");
    r.append(password);
    r
}

/// The `Authorization` header value for an already encoded credential.
pub fn basic_auth_header(encoded: &str) -> (r: String)
    ensures
        r@ == "Basic "@ + encoded@,
{
    let mut r = "Basic ".to_owned();
    r.append(encoded);
    r
}

/// The `Authorization` header value for HTTP Basic authorization.
pub fn basic_auth(user: &str, password: &str) -> (r: String)
    requires
        encode_utf8(user@).len() + encode_utf8(password@).len() < usize::MAX / 2,
    ensures
        r@ == "Basic "@ + base64_standard(encode_utf8(user@ + ":"@ + password@)),
{
    let creds = credentials(user, password);
    proof {
        reveal_strlit(":");
        lemma_encode_utf8_concat(user@, ":"@);
        lemma_encode_utf8_concat(user@ + ":"@, password@);
        assert(encode_utf8(":"@).len() == 1) by {
            reveal_with_fuel(encode_utf8, 2);
            assert(":"@.len() == 1 && ":"@[0] == ':');
            assert(":"@.drop_first() =~= Seq::<char>::empty());
            assert(encode_scalar(':' as u32).len() == 1);
        }
    }
    let encoded = encode_base64(creds.as_str().as_bytes());
    basic_auth_header(encoded.as_str())
}

} // verus!
