//! Content-derived names: the image name of a Dockerfile and the identity of
//! a resolved environment.

use vstd::prelude::*;
use crate::text::{hex, hex_text, is_hex_digit, lemma_hex_text};

verus! {

/// The SHA-256 digest of a byte sequence.
pub uninterp spec fn sha256_of(b: Seq<u8>) -> Seq<u8>;

/// The lowercase form of a string, character by character as Unicode
/// defines it.
pub uninterp spec fn lower_of(s: Seq<char>) -> Seq<char>;

/// Relies on `sha2::Sha256::digest`: the 32-byte SHA-256 digest of the input.
#[verifier::external_body]
pub(crate) fn sha256(b: &[u8]) -> (r: Vec<u8>)
    ensures
        r@ == sha256_of(b@),
        r@.len() == 32,
{
    <sha2::Sha256 as sha2::Digest>::digest(b).to_vec()
}

/// Relies on `str::to_lowercase`: the result depends on the characters alone.
#[verifier::external_body]
fn lowercase(s: &str) -> (r: String)
    ensures
        r@ == lower_of(s@),
{
    s.to_lowercase()
}

/// `"berth-"`: the prefix of every name this library makes.
pub open spec fn name_prefix() -> Seq<char> {
    "berth-"@
}

/// The image name for an environment whose lowercased name is `lowered` and
/// whose Dockerfile has the digest `digest`.
pub open spec fn image_name_text(lowered: Seq<char>, digest: Seq<u8>) -> Seq<char> {
    name_prefix() + lowered + "-"@ + hex_text(digest)
}

/// `berth-<lowered>-<digest in hex>`.
pub fn image_name_from(lowered: &str, digest: &[u8]) -> (r: String)
    ensures
        r@ == image_name_text(lowered@, digest@),
{
    let h = hex(digest);
    String::from_str("berth-").concat(lowered).concat("-").concat(h.as_str())
}

/// The name of the image built from a Dockerfile: the environment's name in
/// lowercase and the SHA-256 digest of the Dockerfile's bytes, so that the
/// same bytes under the same name always give the same image.
pub fn generate_image_name(name: &str, dockerfile: &[u8]) -> (r: String)
    ensures
        r@ == image_name_text(lower_of(name@), sha256_of(dockerfile@)),
{
    let lowered = lowercase(name);
    let digest = sha256(dockerfile);
    image_name_from(lowered.as_str(), digest.as_slice())
}

/// The identity of an environment called `name` whose fields digest to
/// `digest`: `berth-<name>-<first eight bytes of the digest in hex>`.
pub open spec fn identity_text(name: Seq<char>, digest: Seq<u8>) -> Seq<char> {
    name_prefix() + name + "-"@ + hex_text(digest.subrange(0, 8))
}

/// `berth-<name>-<sixteen hexadecimal digits>` from the first eight bytes of
/// `digest`.
pub fn identity_from(name: &str, digest: &[u8]) -> (r: String)
    requires
        digest@.len() >= 8,
    ensures
        r@ == identity_text(name@, digest@),
{
    let h = hex(&digest[0..8]);
    String::from_str("berth-").concat(name).concat("-").concat(h.as_str())
}

/// `t` is `berth-`, then `name`, then `-`, then sixteen lowercase
/// hexadecimal digits.
pub open spec fn identity_shaped(t: Seq<char>, name: Seq<char>) -> bool {
    &&& t.len() == name.len() + 23
    &&& t.subrange(0, 6) == name_prefix()
    &&& t.subrange(6, 6 + name.len() as int) == name
    &&& t[6 + name.len() as int] == '-'
    &&& forall|k: int| 7 + name.len() <= k < name.len() + 23 ==> is_hex_digit(#[trigger] t[k])
}

/// An identity is `berth-`, the name, `-`, and sixteen lowercase
/// hexadecimal digits.
pub proof fn lemma_identity_shape(name: Seq<char>, digest: Seq<u8>)
    requires
        digest.len() >= 8,
    ensures
        identity_shaped(identity_text(name, digest), name),
{
    let t = identity_text(name, digest);
    let h = hex_text(digest.subrange(0, 8));
    lemma_hex_text(digest.subrange(0, 8));
    reveal_strlit("berth-");
    reveal_strlit("-");
    assert(t == name_prefix() + name + "-"@ + h);
    assert(t.subrange(0, 6) =~= name_prefix());
    assert(t.subrange(6, 6 + name.len() as int) =~= name);
    assert forall|k: int| 7 + name.len() <= k < name.len() + 23 implies is_hex_digit(#[trigger] t[k]) by {
        assert(t[k] == h[k - 7 - name.len()]);
    }
}

/// The `k` low bytes of `n`, least significant first.
pub open spec fn le_bytes(n: nat, k: nat) -> Seq<u8>
    decreases k,
{
    if k == 0 {
        Seq::empty()
    } else {
        seq![(n % 256) as u8] + le_bytes(n / 256, (k - 1) as nat)
    }
}

/// Each character as its four-byte scalar value.
pub open spec fn chars_bytes(s: Seq<char>) -> Seq<u8>
    decreases s.len(),
{
    if s.len() == 0 {
        Seq::empty()
    } else {
        chars_bytes(s.drop_last()) + le_bytes(s.last() as u32 as nat, 4)
    }
}

/// A string as its length in eight bytes, then its characters.
pub open spec fn text_bytes(s: Seq<char>) -> Seq<u8> {
    le_bytes(s.len(), 8) + chars_bytes(s)
}

/// The strings of a list one after another.
pub open spec fn items_bytes(l: Seq<Seq<char>>) -> Seq<u8>
    decreases l.len(),
{
    if l.len() == 0 {
        Seq::empty()
    } else {
        items_bytes(l.drop_last()) + text_bytes(l.last())
    }
}

/// A list as its length in eight bytes, then its strings.
pub open spec fn list_bytes(l: Seq<Seq<char>>) -> Seq<u8> {
    le_bytes(l.len(), 8) + items_bytes(l)
}

/// An absent string as a zero byte; a present one as a one byte and the string.
pub open spec fn option_bytes(o: Option<Seq<char>>) -> Seq<u8> {
    match o {
        Some(s) => seq![1u8] + text_bytes(s),
        None => seq![0u8],
    }
}

/// Appends the `k` low bytes of `n`, least significant first.
pub fn push_le(out: &mut Vec<u8>, n: u64, k: usize)
    ensures
        final(out)@ == old(out)@ + le_bytes(n as nat, k as nat),
{
    let ghost start = out@;
    let mut x: u64 = n;
    let mut j: usize = 0;
    proof {
        assert(start + le_bytes(n as nat, k as nat) =~= out@ + le_bytes(x as nat, (k - j) as nat));
    }
    while j < k
        invariant
            0 <= j <= k,
            start + le_bytes(n as nat, k as nat) == out@ + le_bytes(x as nat, (k - j) as nat),
        decreases k - j,
    {
        let ghost before = out@;
        out.push((x % 256) as u8);
        proof {
            let rest = le_bytes((x / 256) as nat, (k - j - 1) as nat);
            assert(le_bytes(x as nat, (k - j) as nat) == seq![(x as nat % 256) as u8] + rest);
            assert(before + (seq![(x as nat % 256) as u8] + rest) =~= out@ + rest);
        }
        x = x / 256;
        j = j + 1;
    }
    proof {
        assert(out@ + le_bytes(x as nat, 0) =~= out@);
    }
}

/// Appends the encoding `text_bytes` of `s`.
pub fn push_text(out: &mut Vec<u8>, s: &str)
    ensures
        final(out)@ == old(out)@ + text_bytes(s@),
{
    let ghost start = out@;
    let n = s.unicode_len();
    push_le(out, n as u64, 8);
    let ghost head = out@;
    let mut i: usize = 0;
    proof {
        assert(s@.subrange(0, 0) =~= Seq::<char>::empty());
        assert(head =~= head + chars_bytes(s@.subrange(0, 0)));
    }
    while i < n
        invariant
            0 <= i <= n,
            n == s@.len(),
            head == start + le_bytes(s@.len(), 8),
            out@ == head + chars_bytes(s@.subrange(0, i as int)),
        decreases n - i,
    {
        let c = s.get_char(i);
        push_le(out, c as u32 as u64, 4);
        proof {
            assert(s@.subrange(0, i + 1).drop_last() =~= s@.subrange(0, i as int));
            assert(s@.subrange(0, i + 1).last() == c);
            assert(out@ =~= head + chars_bytes(s@.subrange(0, i + 1)));
        }
        i = i + 1;
    }
    proof {
        assert(s@.subrange(0, n as int) =~= s@);
        assert(out@ =~= start + text_bytes(s@));
    }
}

/// Appends the encoding `list_bytes` of `l`.
pub fn push_list(out: &mut Vec<u8>, l: &Vec<String>)
    ensures
        final(out)@ == old(out)@ + list_bytes(l.deep_view()),
{
    let ghost start = out@;
    let ghost d = l.deep_view();
    push_le(out, l.len() as u64, 8);
    let ghost head = out@;
    let mut i: usize = 0;
    proof {
        assert(d.subrange(0, 0) =~= Seq::<Seq<char>>::empty());
        assert(head =~= head + items_bytes(d.subrange(0, 0)));
    }
    while i < l.len()
        invariant
            0 <= i <= l@.len(),
            d == l.deep_view(),
            head == start + le_bytes(d.len(), 8),
            out@ == head + items_bytes(d.subrange(0, i as int)),
        decreases l@.len() - i,
    {
        push_text(out, l[i].as_str());
        proof {
            assert(d.subrange(0, i + 1).drop_last() =~= d.subrange(0, i as int));
            assert(d.subrange(0, i + 1).last() == l@[i as int]@);
            assert(out@ =~= head + items_bytes(d.subrange(0, i + 1)));
        }
        i = i + 1;
    }
    proof {
        assert(d.subrange(0, l@.len() as int) =~= d);
        assert(out@ =~= start + list_bytes(d));
    }
}

/// Appends the encoding `option_bytes` of `o`.
pub fn push_option(out: &mut Vec<u8>, o: &Option<String>)
    ensures
        final(out)@ == old(out)@ + option_bytes(match o { Some(s) => Some(s@), None => None }),
{
    let ghost start = out@;
    match o {
        Some(s) => {
            out.push(1u8);
            push_text(out, s.as_str());
            proof {
                assert(out@ =~= start + (seq![1u8] + text_bytes(s@)));
            }
        },
        None => {
            out.push(0u8);
            proof {
                assert(out@ =~= start + seq![0u8]);
            }
        },
    }
}

} // verus!
