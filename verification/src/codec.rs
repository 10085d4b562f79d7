//! Wire text for the `Permissions` sub-record.
//!
//! The collaborator record's `permissions` object is the one piece of wire
//! data, besides `login`, that the audit consumes, and its JSON shape is
//! fixed: three boolean fields in a set order. This module serializes and
//! parses that object and proves the round trip: serializing a record and
//! parsing the text back yields the record again, fields and values intact.

use vstd::prelude::*;
use vstd::string::StringExecFns;
use crate::records::Permissions;

verus! {

/// The text of one boolean on the wire.
pub open spec fn bool_text(b: bool) -> Seq<char> {
    if b {
        "true"@
    } else {
        "false"@
    }
}

/// The JSON object a `Permissions` record serializes to, fields in wire
/// order.
pub open spec fn permissions_json(p: Permissions) -> Seq<char> {
    "{\"admin\":"@ + bool_text(p.admin) + ",\"push\":"@ + bool_text(p.push) + ",\"pull\":"@
        + bool_text(p.pull) + "}"@
}

/// Appends one boolean's wire text.
fn push_bool(s: &mut String, b: bool)
    ensures
        final(s)@ == old(s)@ + bool_text(b),
{
    if b {
        s.append("true");
    } else {
        s.append("false");
    }
}

/// Serializes a `Permissions` record to its JSON object.
pub fn render_permissions(p: &Permissions) -> (r: String)
    ensures
        r@ == permissions_json(*p),
{
    let mut s = String::from_str("{\"admin\":");
    push_bool(&mut s, p.admin);
    s.append(",\"push\":");
    push_bool(&mut s, p.push);
    s.append(",\"pull\":");
    push_bool(&mut s, p.pull);
    s.append("}");
    s
}

/// Whether `s` is exactly the serialization of the given field values.
fn matches_combo(s: &String, admin: bool, push: bool, pull: bool) -> (r: bool)
    ensures
        r == (s@ == permissions_json(Permissions { admin, push, pull })),
{
    let candidate = render_permissions(&Permissions { admin, push, pull });
    *s == candidate
}

/// Parses the JSON object of a `Permissions` record: accepts exactly the
/// texts `render_permissions` produces, and rejects everything else.
pub fn parse_permissions(s: &String) -> (r: Option<Permissions>)
    ensures
        r matches Some(p) ==> s@ == permissions_json(p),
        r is None ==> forall|p: Permissions| s@ != permissions_json(p),
{
    if matches_combo(s, false, false, false) {
        return Some(Permissions { admin: false, push: false, pull: false });
    }
    if matches_combo(s, false, false, true) {
        return Some(Permissions { admin: false, push: false, pull: true });
    }
    if matches_combo(s, false, true, false) {
        return Some(Permissions { admin: false, push: true, pull: false });
    }
    if matches_combo(s, false, true, true) {
        return Some(Permissions { admin: false, push: true, pull: true });
    }
    if matches_combo(s, true, false, false) {
        return Some(Permissions { admin: true, push: false, pull: false });
    }
    if matches_combo(s, true, false, true) {
        return Some(Permissions { admin: true, push: false, pull: true });
    }
    if matches_combo(s, true, true, false) {
        return Some(Permissions { admin: true, push: true, pull: false });
    }
    if matches_combo(s, true, true, true) {
        return Some(Permissions { admin: true, push: true, pull: true });
    }
    proof {
        assert forall|p: Permissions| s@ != permissions_json(p) by {
            assert(p == (Permissions { admin: p.admin, push: p.push, pull: p.pull }));
        }
    }
    None
}

/// The wire text determines the record: two `Permissions` records with the
/// same serialization are the same record. Together with the parser's
/// contract this is the round trip — parsing a record's serialization can
/// answer that record alone.
pub proof fn lemma_permissions_json_injective(p1: Permissions, p2: Permissions)
    requires
        permissions_json(p1) == permissions_json(p2),
    ensures
        p1 == p2,
{
    lemma_permissions_json_chars(p1);
    lemma_permissions_json_chars(p2);
    proof_bool_text_heads();
    assert(p1.admin == p2.admin);
    assert(p1.push == p2.push);
    assert(p1.pull == p2.pull);
}

/// The first character of each boolean's wire text tells the value.
proof fn proof_bool_text_heads()
    ensures
        bool_text(true)[0] == 't',
        bool_text(false)[0] == 'f',
        bool_text(true).len() == 4,
        bool_text(false).len() == 5,
{
    reveal_strlit("true");
    reveal_strlit("false");
}

/// Where each boolean's wire text starts inside the serialized object.
proof fn lemma_permissions_json_chars(p: Permissions)
    ensures
        permissions_json(p)[9] == bool_text(p.admin)[0],
        permissions_json(p)[9 + bool_text(p.admin).len() as int + 8] == bool_text(p.push)[0],
        permissions_json(p)[9 + bool_text(p.admin).len() as int + 8 + bool_text(p.push).len() as int + 8]
            == bool_text(p.pull)[0],
{
    reveal_strlit("{\"admin\":");
    reveal_strlit(",\"push\":");
    reveal_strlit(",\"pull\":");
    reveal_strlit("}");
    proof_bool_text_heads();
    let h1 = "{\"admin\":"@;
    let h2 = ",\"push\":"@;
    let h3 = ",\"pull\":"@;
    let b1 = bool_text(p.admin);
    let b2 = bool_text(p.push);
    let b3 = bool_text(p.pull);
    assert(h1.len() == 9);
    assert(h2.len() == 8);
    assert(h3.len() == 8);
    assert((h1 + b1)[9] == b1[0]);
    assert(permissions_json(p)[9] == b1[0]);
    let o2: int = 9 + b1.len() as int + 8;
    assert((h1 + b1 + h2 + b2)[o2] == b2[0]);
    assert(permissions_json(p)[o2] == b2[0]);
    let o3: int = o2 + b2.len() as int + 8;
    assert((h1 + b1 + h2 + b2 + h3 + b3)[o3] == b3[0]);
    assert(permissions_json(p)[o3] == b3[0]);
}

} // verus!
