//! Identifiers and addresses built from random UUIDs and names.
use vstd::prelude::*;
use crate::bindings::{is_lower_hex, is_uuid_text, new_uuid_text};
use crate::text::{
    chars_of, concat2, concat3, remove_char, remove_char_spec, replace_char,
    replace_char_spec, slice_chars, string_of, to_lowercase, unicode_lowercase,
};

verus! {

/// The first `n` characters of `u` once its hyphens are removed.
pub open spec fn id_slug(u: Seq<char>, n: int) -> Seq<char> {
    remove_char_spec(u, '-').take(n)
}

/// How many of the hyphen positions of a UUID text lie before `k`.
spec fn hyphens_before(k: int) -> int {
    (if k > 8 { 1int } else { 0 }) + (if k > 13 { 1int } else { 0 }) + (if k > 18 { 1int } else { 0 })
        + (if k > 23 { 1int } else { 0 })
}

proof fn lemma_uuid_prefix_compact(u: Seq<char>, k: int)
    requires
        is_uuid_text(u),
        0 <= k <= 36,
    ensures
        remove_char_spec(u.take(k), '-').len() == k - hyphens_before(k),
        forall|i: int|
            0 <= i < remove_char_spec(u.take(k), '-').len() ==> is_lower_hex(
                #[trigger] remove_char_spec(u.take(k), '-')[i],
            ),
    decreases k,
{
    reveal(Seq::filter);
    if k > 0 {
        lemma_uuid_prefix_compact(u, k - 1);
        assert(u.take(k).drop_last() =~= u.take(k - 1));
        assert(u.take(k).last() == u[k - 1]);
        let prev = remove_char_spec(u.take(k - 1), '-');
        if k - 1 == 8 || k - 1 == 13 || k - 1 == 18 || k - 1 == 23 {
            assert(u[k - 1] == '-');
        } else {
            assert(is_lower_hex(u[k - 1]));
            assert(u[k - 1] != '-');
            let now = remove_char_spec(u.take(k), '-');
            assert(now == prev.push(u[k - 1]));
            assert forall|i: int| 0 <= i < now.len() implies is_lower_hex(#[trigger] now[i]) by {
                if i < prev.len() {
                    assert(now[i] == prev[i]);
                }
            }
        }
    } else {
        assert(u.take(0) =~= Seq::<char>::empty());
    }
}

/// A UUID text without hyphens is 32 lowercase hex digits.
pub proof fn lemma_uuid_compact(u: Seq<char>)
    requires
        is_uuid_text(u),
    ensures
        remove_char_spec(u, '-').len() == 32,
        forall|i: int|
            0 <= i < 32 ==> is_lower_hex(#[trigger] remove_char_spec(u, '-')[i]),
{
    lemma_uuid_prefix_compact(u, 36);
    assert(u.take(36) =~= u);
}

/// The first `n` characters of `uuid` without its hyphens.
pub fn compact_slug(uuid: &str, n: usize) -> (r: String)
    requires
        n <= remove_char_spec(uuid@, '-').len(),
    ensures
        r@ == id_slug(uuid@, n as int),
{
    let v = chars_of(uuid);
    let c = remove_char(&v, '-');
    let s = slice_chars(&c, 0, n);
    assert(s@ =~= c@.take(n as int));
    string_of(&s)
}

/// `prefix` followed by the first `n` characters of `uuid` without its
/// hyphens, as the record identifiers (`msg_`, `acc_`, `task_`, ...) are
/// formed.
pub fn prefixed_id(prefix: &str, uuid: &str, n: usize) -> (r: String)
    requires
        n <= remove_char_spec(uuid@, '-').len(),
    ensures
        r@ == prefix@ + id_slug(uuid@, n as int),
{
    let slug = compact_slug(uuid, n);
    concat2(prefix, slug.as_str())
}

/// A fresh identifier: `prefix` followed by `n` random lowercase hex digits
/// taken from a new UUID.
pub fn fresh_id(prefix: &str, n: usize) -> (r: String)
    requires
        n <= 32,
    ensures
        r@.len() == prefix@.len() + n,
        prefix@.is_prefix_of(r@),
        forall|i: int| prefix@.len() <= i < r@.len() ==> is_lower_hex(#[trigger] r@[i]),
{
    let u = new_uuid_text();
    proof {
        lemma_uuid_compact(u@);
    }
    let r = prefixed_id(prefix, u.as_str(), n);
    assert(r@.subrange(0, prefix@.len() as int) =~= prefix@);
    assert forall|i: int| prefix@.len() <= i < r@.len() implies is_lower_hex(#[trigger] r@[i]) by {
        assert(r@[i] == remove_char_spec(u@, '-')[i - prefix@.len()]);
    }
    r
}

/// A fresh random slug of `n` lowercase hex digits.
pub fn fresh_slug(n: usize) -> (r: String)
    requires
        n <= 32,
    ensures
        r@.len() == n,
        forall|i: int| 0 <= i < n ==> is_lower_hex(#[trigger] r@[i]),
{
    let u = new_uuid_text();
    proof {
        lemma_uuid_compact(u@);
    }
    compact_slug(u.as_str(), n)
}

/// A name made fit for an address or identifier: lowercased, spaces turned
/// into dashes.
pub open spec fn name_slug(name: Seq<char>) -> Seq<char> {
    replace_char_spec(unicode_lowercase(name), ' ', '-')
}

/// `name` lowercased with its spaces turned into dashes.
pub fn slugify_name(name: &str) -> (r: String)
    ensures
        r@ == name_slug(name@),
{
    let lower = to_lowercase(name);
    let v = chars_of(lower.as_str());
    let d = replace_char(&v, ' ', '-');
    string_of(&d)
}

/// The address given to a new inbox: `<name slug>-<slug>@<domain>`.
pub open spec fn inbox_address(name: Seq<char>, slug: Seq<char>, domain: Seq<char>) -> Seq<char> {
    name_slug(name) + "-"@ + slug + "@"@ + domain
}

/// The address `<name slug>-<slug>@<domain>` of a new inbox.
pub fn default_inbox_address(name: &str, slug: &str, domain: &str) -> (r: String)
    ensures
        r@ == inbox_address(name@, slug@, domain@),
{
    let n = slugify_name(name);
    let a = concat3(n.as_str(), "-", slug);
    concat3(a.as_str(), "@", domain)
}

} // verus!
