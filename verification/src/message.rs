use vstd::prelude::*;

use crate::checksum::{
    digest_hex, digest_prefix, digest_prefixed, hex_bytes_of, hex_digit, sha256_of,
    spec_digest_hex, spec_digest_prefixed,
};
use crate::util::{append_bytes, copy_range};

verus! {

/// The field delimiter of both canonical schemes: a single colon, never
/// escaped inside fields.
pub open spec fn delim() -> Seq<u8> {
    seq![58u8]
}

/// The canonical plugin message:
/// `{bundle}/` `:` `{version}` `:` `{prefixed entry digest}` `:` `{prefixed manifest digest}`.
pub open spec fn plugin_message_spec(
    bundle: Seq<u8>,
    version: Seq<u8>,
    entry: Seq<u8>,
    manifest: Seq<u8>,
) -> Seq<u8> {
    bundle + seq![47u8] + delim() + version + delim() + spec_digest_prefixed(entry) + delim()
        + spec_digest_prefixed(manifest)
}

/// The canonical release message:
/// `{version}` `:` `{platform}` `:` `{bare binary digest}`.
pub open spec fn release_message_spec(version: Seq<u8>, platform: Seq<u8>, binary: Seq<u8>) -> Seq<
    u8,
> {
    version + delim() + platform + delim() + spec_digest_hex(binary)
}

/// Build the canonical plugin message from the bundle's directory name, the
/// declared version, and the current content bytes of the entry script and
/// the manifest. The digests are computed afresh from those bytes.
pub fn plugin_message(bundle_name: &[u8], version: &[u8], entry: &[u8], manifest: &[u8]) -> (r:
    Vec<u8>)
    ensures
        r@ == plugin_message_spec(bundle_name@, version@, entry@, manifest@),
{
    let mut out: Vec<u8> = Vec::new();
    append_bytes(&mut out, bundle_name);
    out.push(47);
    out.push(58);
    append_bytes(&mut out, version);
    out.push(58);
    let entry_digest = digest_prefixed(entry);
    append_bytes(&mut out, entry_digest.as_slice());
    out.push(58);
    let manifest_digest = digest_prefixed(manifest);
    append_bytes(&mut out, manifest_digest.as_slice());
    proof {
        assert(out@ =~= plugin_message_spec(bundle_name@, version@, entry@, manifest@));
    }
    out
}

/// Build the canonical release message from the caller-supplied version and
/// platform and the binary's current bytes. The digest is computed afresh
/// from those bytes.
pub fn release_message(version: &[u8], platform: &[u8], binary: &[u8]) -> (r: Vec<u8>)
    ensures
        r@ == release_message_spec(version@, platform@, binary@),
{
    let mut out: Vec<u8> = Vec::new();
    append_bytes(&mut out, version);
    out.push(58);
    append_bytes(&mut out, platform);
    out.push(58);
    let binary_digest = digest_hex(binary);
    append_bytes(&mut out, binary_digest.as_slice());
    proof {
        assert(out@ =~= release_message_spec(version@, platform@, binary@));
    }
    out
}

/// The sidecar signature file's name: the binary's file name with `.sig`
/// appended after its extension, or as its extension where it has none —
/// either way the name grows by the four bytes `.sig`.
pub fn sidecar_file_name(binary_name: &[u8]) -> (r: Vec<u8>)
    ensures
        r@ == binary_name@ + seq![46u8, 115u8, 105u8, 103u8],
{
    let mut out = copy_range(binary_name, 0, binary_name.len());
    out.push(46);
    out.push(115);
    out.push(105);
    out.push(103);
    proof {
        assert(out@ =~= binary_name@ + seq![46u8, 115u8, 105u8, 103u8]);
    }
    out
}

/// Whether a field is free of the delimiter byte. The schemes do not escape
/// the delimiter inside fields, so only for such fields can a message be read
/// back unambiguously.
pub open spec fn delim_free(s: Seq<u8>) -> bool {
    forall|i: int| 0 <= i < s.len() ==> s[i] != 58u8
}

proof fn lemma_hex_digit_no_delim(v: int)
    requires
        0 <= v < 16,
    ensures
        hex_digit(v) != 58u8,
{
}

/// No byte of a hex rendering is the delimiter.
proof fn lemma_hex_bytes_delim_free(b: Seq<u8>)
    ensures
        delim_free(hex_bytes_of(b)),
    decreases b.len(),
{
    if b.len() > 0 {
        lemma_hex_bytes_delim_free(b.drop_first());
        let h = hex_bytes_of(b);
        assert forall|i: int| 0 <= i < h.len() implies h[i] != 58u8 by {
            if i == 0 {
                lemma_hex_digit_no_delim(b.first() as int / 16);
            } else if i == 1 {
                lemma_hex_digit_no_delim(b.first() as int % 16);
            } else {
                assert(h[i] == hex_bytes_of(b.drop_first())[i - 2]);
            }
        }
    }
}

/// A message of the shape `x:y` with a delimiter-free `x` splits only one way.
proof fn lemma_split_at_first_delim(x1: Seq<u8>, y1: Seq<u8>, x2: Seq<u8>, y2: Seq<u8>)
    requires
        delim_free(x1),
        delim_free(x2),
        x1 + delim() + y1 == x2 + delim() + y2,
    ensures
        x1 == x2,
        y1 == y2,
{
    let m = x1 + delim() + y1;
    assert(m.len() == x1.len() + 1 + y1.len());
    assert((x2 + delim() + y2).len() == x2.len() + 1 + y2.len());
    if x1.len() < x2.len() {
        assert(m[x1.len() as int] == 58u8);
        assert((x2 + delim() + y2)[x1.len() as int] == x2[x1.len() as int]);
        assert(false);
    }
    if x2.len() < x1.len() {
        assert(m[x2.len() as int] == x1[x2.len() as int]);
        assert((x2 + delim() + y2)[x2.len() as int] == 58u8);
        assert(false);
    }
    assert forall|i: int| 0 <= i < x1.len() implies x1[i] == x2[i] by {
        assert(m[i] == x1[i]);
        assert((x2 + delim() + y2)[i] == x2[i]);
    }
    assert(x1 =~= x2);
    assert(y1.len() == y2.len());
    assert forall|i: int| 0 <= i < y1.len() implies y1[i] == y2[i] by {
        assert(m[x1.len() + 1 + i] == y1[i]);
        assert((x2 + delim() + y2)[x2.len() + 1 + i] == y2[i]);
    }
    assert(y1 =~= y2);
}

/// Equal sequences with one common prefix have equal remainders.
proof fn lemma_drop_common_prefix(a: Seq<u8>, s1: Seq<u8>, s2: Seq<u8>)
    requires
        a + s1 == a + s2,
    ensures
        s1 == s2,
{
    assert((a + s1).len() == a.len() + s1.len());
    assert((a + s2).len() == a.len() + s2.len());
    assert forall|i: int| 0 <= i < s1.len() implies s1[i] == s2[i] by {
        assert((a + s1)[a.len() + i] == s1[i]);
        assert((a + s2)[a.len() + i] == s2[i]);
    }
    assert(s1 =~= s2);
}

/// Law: the release scheme is unambiguous for delimiter-free identity fields.
/// Two release artifacts whose versions and platforms hold no delimiter byte
/// canonicalize to the same message only if they agree on version, platform
/// and binary digest. (The schemes leave the delimiter unescaped, so a field
/// that holds one could collide; such fields are outside this guarantee.)
pub proof fn lemma_release_message_unambiguous(
    v1: Seq<u8>,
    p1: Seq<u8>,
    b1: Seq<u8>,
    v2: Seq<u8>,
    p2: Seq<u8>,
    b2: Seq<u8>,
)
    requires
        delim_free(v1),
        delim_free(p1),
        delim_free(v2),
        delim_free(p2),
        release_message_spec(v1, p1, b1) == release_message_spec(v2, p2, b2),
    ensures
        v1 == v2,
        p1 == p2,
        spec_digest_hex(b1) == spec_digest_hex(b2),
{
    let d1 = spec_digest_hex(b1);
    let d2 = spec_digest_hex(b2);
    assert(release_message_spec(v1, p1, b1) =~= v1 + delim() + (p1 + delim() + d1));
    assert(release_message_spec(v2, p2, b2) =~= v2 + delim() + (p2 + delim() + d2));
    lemma_split_at_first_delim(v1, p1 + delim() + d1, v2, p2 + delim() + d2);
    lemma_split_at_first_delim(p1, d1, p2, d2);
}

/// Law: the plugin scheme is unambiguous for delimiter-free identity fields.
/// Two plugin artifacts whose bundle names and versions hold no delimiter
/// byte canonicalize to the same message only if they agree on bundle name,
/// version and both content digests. (As with the release scheme, fields
/// holding the unescaped delimiter are outside this guarantee.)
pub proof fn lemma_plugin_message_unambiguous(
    n1: Seq<u8>,
    v1: Seq<u8>,
    e1: Seq<u8>,
    m1: Seq<u8>,
    n2: Seq<u8>,
    v2: Seq<u8>,
    e2: Seq<u8>,
    m2: Seq<u8>,
)
    requires
        delim_free(n1),
        delim_free(v1),
        delim_free(n2),
        delim_free(v2),
        plugin_message_spec(n1, v1, e1, m1) == plugin_message_spec(n2, v2, e2, m2),
    ensures
        n1 == n2,
        v1 == v2,
        spec_digest_hex(e1) == spec_digest_hex(e2),
        spec_digest_hex(m1) == spec_digest_hex(m2),
{
    let he1 = spec_digest_hex(e1);
    let hm1 = spec_digest_hex(m1);
    let he2 = spec_digest_hex(e2);
    let hm2 = spec_digest_hex(m2);
    let tail1 = digest_prefix() + (he1 + delim() + (digest_prefix() + hm1));
    let tail2 = digest_prefix() + (he2 + delim() + (digest_prefix() + hm2));
    assert(plugin_message_spec(n1, v1, e1, m1) =~= (n1 + seq![47u8]) + delim() + (v1 + delim()
        + tail1));
    assert(plugin_message_spec(n2, v2, e2, m2) =~= (n2 + seq![47u8]) + delim() + (v2 + delim()
        + tail2));
    assert(delim_free(n1 + seq![47u8]));
    assert(delim_free(n2 + seq![47u8]));
    lemma_split_at_first_delim(n1 + seq![47u8], v1 + delim() + tail1, n2 + seq![47u8], v2 + delim()
        + tail2);
    lemma_drop_last_byte(n1, n2, 47u8);
    lemma_split_at_first_delim(v1, tail1, v2, tail2);
    lemma_drop_common_prefix(
        digest_prefix(),
        he1 + delim() + (digest_prefix() + hm1),
        he2 + delim() + (digest_prefix() + hm2),
    );
    lemma_hex_bytes_delim_free(sha256_of(e1));
    lemma_hex_bytes_delim_free(sha256_of(e2));
    lemma_split_at_first_delim(he1, digest_prefix() + hm1, he2, digest_prefix() + hm2);
    lemma_drop_common_prefix(digest_prefix(), hm1, hm2);
}

/// Equal sequences that end in the same one byte agree on the rest.
proof fn lemma_drop_last_byte(a: Seq<u8>, b: Seq<u8>, c: u8)
    requires
        a + seq![c] == b + seq![c],
    ensures
        a == b,
{
    assert((a + seq![c]).len() == a.len() + 1);
    assert((b + seq![c]).len() == b.len() + 1);
    assert(a.len() == b.len());
    assert forall|i: int| 0 <= i < a.len() implies a[i] == b[i] by {
        assert((a + seq![c])[i] == a[i]);
        assert((b + seq![c])[i] == b[i]);
    }
    assert(a =~= b);
}

} // verus!
