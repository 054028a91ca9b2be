//! Names of the DPF custom resources that the SDK creates.
//!
//! A DPUNode is named `node-{node_id}`, a DPUDevice `device-{device_id}`, and
//! the operator names the DPU it creates for a device on a node
//! `{dpuNodeName}-{dpuDeviceName}`. BFB resources are named after a digest
//! of their URL, so that one URL always gives the same BFB.

use vstd::prelude::*;
use sha2::Digest;
use vstd::string::StringSliceAdditionalSpecFns;
use crate::text::{
    extend_str, hex_digit_char, hex_lower, is_prefix, push_hex_lower, starts_with, string_of,
};

verus! {

/// The DPUNode resource name for node `node_id`.
pub open spec fn node_cr_name(node_id: Seq<char>) -> Seq<char> {
    "node-"@ + node_id
}

/// The DPUDevice resource name for device `device_id`.
pub open spec fn device_cr_name(device_id: Seq<char>) -> Seq<char> {
    "device-"@ + device_id
}

/// The DPU resource name for device `device_id` on node `node_id`.
pub open spec fn dpu_name(device_id: Seq<char>, node_id: Seq<char>) -> Seq<char> {
    node_cr_name(node_id) + "-"@ + device_cr_name(device_id)
}

/// The node id carried by a DPUNode resource name: the name without its
/// `node-` prefix, or the whole name when it has no such prefix.
pub open spec fn node_id_of(node_cr: Seq<char>) -> Seq<char> {
    if is_prefix("node-"@, node_cr) {
        node_cr.skip("node-"@.len() as int)
    } else {
        node_cr
    }
}

/// DPUNode CR name: `node-{node_id}`.
pub fn dpu_node_cr_name(node_id: &str) -> (r: String)
    ensures
        r@ == node_cr_name(node_id@),
{
    let mut s = String::from_str("node-");
    s.append(node_id);
    s
}

/// DPUDevice CR name: `device-{device_id}`.
pub fn dpu_device_cr_name(device_id: &str) -> (r: String)
    ensures
        r@ == device_cr_name(device_id@),
{
    let mut s = String::from_str("device-");
    s.append(device_id);
    s
}

/// DPU CR name: `node-{node_id}-device-{device_id}`.
pub fn dpu_cr_name(device_id: &str, node_id: &str) -> (r: String)
    ensures
        r@ == dpu_name(device_id@, node_id@),
{
    let mut s = dpu_node_cr_name(node_id);
    s.append("-");
    let d = dpu_device_cr_name(device_id);
    s.append(d.as_str());
    s
}

/// Extracts the node ID from a DPUNode CR name by stripping the `node-` prefix.
pub fn node_id_from_dpu_node_cr_name(node_cr_name: &str) -> (r: &str)
    ensures
        r@ == node_id_of(node_cr_name@),
{
    proof {
        reveal_strlit("node-");
    }
    if starts_with(node_cr_name, "node-") {
        node_cr_name.substring_char(5, node_cr_name.unicode_len())
    } else {
        node_cr_name
    }
}

/// Law: the node id is recovered from the DPUNode name built for it.
pub proof fn lemma_node_id_round_trip(node_id: Seq<char>)
    ensures
        node_id_of(node_cr_name(node_id)) == node_id,
{
    reveal_strlit("node-");
    assert(node_cr_name(node_id).subrange(0, 5) =~= "node-"@);
    assert(node_cr_name(node_id).skip(5) =~= node_id);
}

/// Law: distinct node ids give distinct DPUNode names, and distinct device
/// ids distinct DPUDevice names.
pub proof fn lemma_cr_names_injective(a: Seq<char>, b: Seq<char>)
    ensures
        node_cr_name(a) == node_cr_name(b) ==> a == b,
        device_cr_name(a) == device_cr_name(b) ==> a == b,
{
    reveal_strlit("node-");
    reveal_strlit("device-");
    if node_cr_name(a) == node_cr_name(b) {
        assert(a =~= node_cr_name(a).skip(5));
        assert(b =~= node_cr_name(b).skip(5));
    }
    if device_cr_name(a) == device_cr_name(b) {
        assert(a =~= device_cr_name(a).skip(7));
        assert(b =~= device_cr_name(b).skip(7));
    }
}

/// Law: the DPU name is the DPUNode name and the DPUDevice name joined by `-`,
/// as the DPF operator builds it.
pub proof fn lemma_dpu_name_joins(device_id: Seq<char>, node_id: Seq<char>)
    ensures
        dpu_name(device_id, node_id) == node_cr_name(node_id) + "-"@ + device_cr_name(device_id),
        node_id_of(node_cr_name(node_id)) == node_id,
{
    lemma_node_id_round_trip(node_id);
}

/// The SHA-256 digest of `data`, as the `sha2` crate computes it.
pub uninterp spec fn sha256(data: Seq<u8>) -> Seq<u8>;

/// Computes the SHA-256 digest of `data` with `sha2::Sha256::digest`; the
/// contract claims the result is the digest of exactly these bytes and is
/// 32 bytes long (the output size of SHA-256).
#[verifier::external_body]
fn sha256_digest(data: &[u8]) -> (r: Vec<u8>)
    ensures
        r@ == sha256(data@),
        r@.len() == 32,
{
    sha2::Sha256::digest(data).to_vec()
}

/// The BFB resource name for a URL whose SHA-256 digest is `digest`.
pub open spec fn bfb_name_of(digest: Seq<u8>) -> Seq<char> {
    "bf-bundle-"@ + hex_lower(digest)
}

/// The BFB resource name for a URL with the given digest: `bf-bundle-`
/// followed by the digest in lower-case hexadecimal.
pub fn bfb_name_from_digest(digest: &Vec<u8>) -> (r: String)
    ensures
        r@ == bfb_name_of(digest@),
{
    let mut v: Vec<char> = Vec::new();
    extend_str(&mut v, "bf-bundle-");
    push_hex_lower(&mut v, digest);
    string_of(&v)
}

/// The BFB resource name for `bfb_url`: `bf-bundle-{sha256(url):x}`. The same
/// URL always gives the same name, a valid Kubernetes resource name of 74
/// characters.
pub fn bfb_name(bfb_url: &str) -> (r: String)
    ensures
        r@ == bfb_name_of(sha256(bfb_url.spec_bytes())),
        r@.len() == 74,
        valid_k8s_name(r@),
{
    let digest = sha256_digest(bfb_url.as_bytes());
    proof {
        lemma_bfb_name_valid(digest@);
    }
    bfb_name_from_digest(&digest)
}

/// A character allowed in a Kubernetes resource name (RFC 1123 subdomain).
pub open spec fn k8s_name_char(c: char) -> bool {
    ('a' <= c <= 'z') || ('0' <= c <= '9') || c == '-' || c == '.'
}

/// A character that may start or end a Kubernetes resource name.
pub open spec fn k8s_alnum(c: char) -> bool {
    ('a' <= c <= 'z') || ('0' <= c <= '9')
}

/// A valid Kubernetes resource name: at most 253 allowed characters,
/// starting and ending with a lower-case letter or digit.
pub open spec fn valid_k8s_name(s: Seq<char>) -> bool {
    &&& 0 < s.len() <= 253
    &&& forall|i: int| 0 <= i < s.len() ==> k8s_name_char(#[trigger] s[i])
    &&& k8s_alnum(s[0])
    &&& k8s_alnum(s.last())
}

proof fn lemma_hex_lower_chars(bytes: Seq<u8>)
    ensures
        hex_lower(bytes).len() == 2 * bytes.len(),
        forall|i: int| 0 <= i < hex_lower(bytes).len() ==> k8s_alnum(#[trigger] hex_lower(bytes)[i]),
    decreases bytes.len(),
{
    if bytes.len() > 0 {
        lemma_hex_lower_chars(bytes.drop_last());
        let b = bytes.last();
        assert(k8s_alnum(hex_digit_char((b / 16) as int)));
        assert(k8s_alnum(hex_digit_char((b % 16) as int)));
    }
}

/// Law: every BFB name built from a SHA-256 digest is a valid Kubernetes
/// resource name, 74 characters long.
pub proof fn lemma_bfb_name_valid(digest: Seq<u8>)
    requires
        digest.len() == 32,
    ensures
        valid_k8s_name(bfb_name_of(digest)),
        bfb_name_of(digest).len() == 74,
{
    reveal_strlit("bf-bundle-");
    lemma_hex_lower_chars(digest);
    let s = bfb_name_of(digest);
    assert forall|i: int| 0 <= i < s.len() implies k8s_name_char(#[trigger] s[i]) by {
        if i >= 10 {
            assert(s[i] == hex_lower(digest)[i - 10]);
        }
    }
    assert(s.last() == hex_lower(digest)[63]);
}

} // verus!
