//! Choosing the base interface and naming the VLAN interface on top of it.
//! The base interface is the one whose name matches the configured pattern;
//! when several match, the least name in lexicographic order wins, so that
//! every run of the process picks the same interface whatever order the
//! system enumerates them in. Matching itself is the regex crate's work,
//! behind trusted declarations; everything around it is verified.

use vstd::prelude::*;
use vstd::string::StrSliceExecFns;
use vstd::string::StringExecFns;
use vstd::pervasive::unreached;
use crate::error::SimpleError;
use crate::numfmt::dec_digits;
use crate::numfmt::u32_to_dec;

verus! {

/// Whether `pattern` is a valid regular expression.
pub uninterp spec fn regex_valid(pattern: Seq<char>) -> bool;

/// Whether the regular expression `pattern` matches somewhere in `text`.
pub uninterp spec fn regex_matches(pattern: Seq<char>, text: Seq<char>) -> bool;

/// Relies on regex::Regex::new: whether a pattern compiles is a function of
/// the pattern alone.
#[verifier::external_body]
fn regex_compiles(pattern: &str) -> (r: bool)
    ensures
        r == regex_valid(pattern@),
{
    regex::Regex::new(pattern).is_ok()
}

/// Relies on regex::Regex::new and regex::Regex::is_match: whether a valid
/// pattern matches somewhere in a text is a function of the two strings
/// alone.
#[verifier::external_body]
fn regex_match(pattern: &str, text: &str) -> (r: Option<bool>)
    ensures
        r is Some <==> regex_valid(pattern@),
        r matches Some(m) ==> m == regex_matches(pattern@, text@),
{
    regex::Regex::new(pattern).ok().map(|re| re.is_match(text))
}

/// Lexicographic comparison of the suffixes of `a` and `b` that start at
/// `i`, by code point, shorter-is-less on a tie.
pub open spec fn lex_le_from(a: Seq<char>, b: Seq<char>, i: int) -> bool
    recommends
        0 <= i,
    decreases a.len() - i,
{
    if i >= a.len() {
        true
    } else if i >= b.len() {
        false
    } else if (a[i] as u32) != (b[i] as u32) {
        (a[i] as u32) < (b[i] as u32)
    } else {
        lex_le_from(a, b, i + 1)
    }
}

/// Lexicographic order on strings of characters, by code point.
pub open spec fn lex_le(a: Seq<char>, b: Seq<char>) -> bool {
    lex_le_from(a, b, 0)
}

/// The order is total: of two strings, one is less than or equal to the
/// other.
pub proof fn lemma_lex_total(a: Seq<char>, b: Seq<char>)
    ensures
        lex_le(a, b) || lex_le(b, a),
{
    lemma_lex_total_from(a, b, 0);
}

proof fn lemma_lex_total_from(a: Seq<char>, b: Seq<char>, i: int)
    requires
        0 <= i,
    ensures
        lex_le_from(a, b, i) || lex_le_from(b, a, i),
    decreases a.len() - i,
{
    if i < a.len() && i < b.len() && (a[i] as u32) == (b[i] as u32) {
        lemma_lex_total_from(a, b, i + 1);
    }
}

/// The order is reflexive.
pub proof fn lemma_lex_refl(a: Seq<char>)
    ensures
        lex_le(a, a),
{
    lemma_lex_refl_from(a, 0);
}

proof fn lemma_lex_refl_from(a: Seq<char>, i: int)
    requires
        0 <= i,
    ensures
        lex_le_from(a, a, i),
    decreases a.len() - i,
{
    if i < a.len() {
        lemma_lex_refl_from(a, i + 1);
    }
}

/// The order is transitive.
pub proof fn lemma_lex_trans(a: Seq<char>, b: Seq<char>, c: Seq<char>)
    requires
        lex_le(a, b),
        lex_le(b, c),
    ensures
        lex_le(a, c),
{
    lemma_lex_trans_from(a, b, c, 0);
}

proof fn lemma_lex_trans_from(a: Seq<char>, b: Seq<char>, c: Seq<char>, i: int)
    requires
        0 <= i,
        lex_le_from(a, b, i),
        lex_le_from(b, c, i),
    ensures
        lex_le_from(a, c, i),
    decreases a.len() - i,
{
    if i < a.len() && i < b.len() && i < c.len() && (a[i] as u32) == (b[i] as u32) && (b[i] as u32)
        == (c[i] as u32) {
        lemma_lex_trans_from(a, b, c, i + 1);
    }
}

/// Compares two strings in the lexicographic order.
pub fn str_lex_le(a: &str, b: &str) -> (r: bool)
    ensures
        r == lex_le(a@, b@),
{
    let alen = a.unicode_len();
    let blen = b.unicode_len();
    let mut i: usize = 0;
    loop
        invariant
            i <= alen,
            alen == a@.len(),
            blen == b@.len(),
            lex_le(a@, b@) == lex_le_from(a@, b@, i as int),
        decreases alen - i,
    {
        if i >= alen {
            return true;
        }
        if i >= blen {
            return false;
        }
        let ca = a.get_char(i) as u32;
        let cb = b.get_char(i) as u32;
        if ca != cb {
            return ca < cb;
        }
        i = i + 1;
    }
}

/// Picks the base interface among `names`: the index of the least name, in
/// lexicographic order, that the pattern matches. `None` when no name
/// matches; an error exactly when the pattern is not a valid regular
/// expression.
pub fn select_base_interface(pattern: &str, names: &Vec<String>) -> (r: Result<
    Option<usize>,
    SimpleError,
>)
    ensures
        r is Err <==> !regex_valid(pattern@),
        r matches Ok(o) ==> o matches Some(k) ==> {
            &&& k < names@.len()
            &&& regex_matches(pattern@, names@[k as int]@)
            &&& forall|j: int|
                0 <= j < names@.len() && regex_matches(pattern@, names@[j]@) ==> lex_le(
                    names@[k as int]@,
                    names@[j]@,
                )
        },
        r matches Ok(o) ==> o is None ==> forall|j: int|
            0 <= j < names@.len() ==> !regex_matches(pattern@, names@[j]@),
{
    if !regex_compiles(pattern) {
        return Err(SimpleError("invalid base interface pattern".to_owned()));
    }
    let mut best: Option<usize> = None;
    let mut i: usize = 0;
    while i < names.len()
        invariant
            regex_valid(pattern@),
            i <= names@.len(),
            match best {
                None => forall|j: int| 0 <= j < i ==> !regex_matches(pattern@, names@[j]@),
                Some(k) => {
                    &&& k < i
                    &&& regex_matches(pattern@, names@[k as int]@)
                    &&& forall|j: int|
                        0 <= j < i && regex_matches(pattern@, names@[j]@) ==> lex_le(
                            names@[k as int]@,
                            names@[j]@,
                        )
                },
            },
        decreases names@.len() - i,
    {
        let is_match = match regex_match(pattern, names[i].as_str()) {
            Some(m) => m,
            None => unreached(),
        };
        proof {
            assert(is_match == regex_matches(pattern@, names@[i as int]@));
        }
        if is_match {
            match best {
                None => {
                    proof {
                        lemma_lex_refl(names@[i as int]@);
                    }
                    best = Some(i);
                },
                Some(k) => {
                    if !str_lex_le(names[k].as_str(), names[i].as_str()) {
                        proof {
                            lemma_lex_refl(names@[i as int]@);
                            lemma_lex_total(names@[k as int]@, names@[i as int]@);
                            assert forall|j: int|
                                0 <= j < i && regex_matches(pattern@, names@[j]@) implies lex_le(
                                names@[i as int]@,
                                names@[j]@,
                            ) by {
                                lemma_lex_trans(names@[i as int]@, names@[k as int]@, names@[j]@);
                            }
                        }
                        best = Some(i);
                    }
                },
            }
        }
        i = i + 1;
    }
    Ok(best)
}

/// The name of the VLAN interface stacked on `base`: the base name, a dot,
/// and the VLAN number.
pub open spec fn vlan_name_chars(base: Seq<char>, vlan: u32) -> Seq<char> {
    base + seq!['.'] + dec_digits(vlan as nat)
}

/// Builds the VLAN interface name for `base` and `vlan`.
pub fn vlan_interface_name(base: &str, vlan: u32) -> (r: String)
    ensures
        r@ == vlan_name_chars(base@, vlan),
{
    proof {
        reveal_strlit(".");
    }
    let mut s = base.to_owned();
    s.append(".");
    let v = u32_to_dec(vlan);
    s.append(v.as_str());
    proof {
        assert(s@ =~= vlan_name_chars(base@, vlan));
    }
    s
}

/// `ip link del <vlan>`
pub open spec fn link_del_cmd(base: Seq<char>, vlan: u32) -> Seq<Seq<char>> {
    seq!["ip"@, "link"@, "del"@, vlan_name_chars(base, vlan)]
}

/// `ip link add link <base> name <vlan> type vlan id <id>`
pub open spec fn link_add_cmd(base: Seq<char>, vlan: u32) -> Seq<Seq<char>> {
    seq![
        "ip"@,
        "link"@,
        "add"@,
        "link"@,
        base,
        "name"@,
        vlan_name_chars(base, vlan),
        "type"@,
        "vlan"@,
        "id"@,
        dec_digits(vlan as nat),
    ]
}

/// `ip link set <vlan> mtu <mtu>`
pub open spec fn link_set_mtu_cmd(base: Seq<char>, vlan: u32, mtu: u32) -> Seq<Seq<char>> {
    seq!["ip"@, "link"@, "set"@, vlan_name_chars(base, vlan), "mtu"@, dec_digits(mtu as nat)]
}

/// `ip link set dev <vlan> up`
pub open spec fn link_set_up_cmd(base: Seq<char>, vlan: u32) -> Seq<Seq<char>> {
    seq!["ip"@, "link"@, "set"@, "dev"@, vlan_name_chars(base, vlan), "up"@]
}

/// The commands that tear down and recreate the VLAN interface on top of the
/// base interface. They run in field order; only the initial deletion is
/// best-effort (the interface may not exist yet), a failure of any later
/// command is fatal at startup.
pub struct VlanPlan {
    pub delete_existing: Vec<String>,
    pub create: Vec<String>,
    pub set_mtu: Vec<String>,
    pub bring_up: Vec<String>,
}

/// Lays out the commands that recreate the VLAN interface for `base`,
/// `vlan` and `mtu`.
pub fn vlan_plan(base: &str, vlan: u32, mtu: u32) -> (r: VlanPlan)
    ensures
        r.delete_existing.deep_view() == link_del_cmd(base@, vlan),
        r.create.deep_view() == link_add_cmd(base@, vlan),
        r.set_mtu.deep_view() == link_set_mtu_cmd(base@, vlan, mtu),
        r.bring_up.deep_view() == link_set_up_cmd(base@, vlan),
{
    let delete_existing: Vec<String> = vec![
        "ip".to_owned(),
        "link".to_owned(),
        "del".to_owned(),
        vlan_interface_name(base, vlan),
    ];
    let create: Vec<String> = vec![
        "ip".to_owned(),
        "link".to_owned(),
        "add".to_owned(),
        "link".to_owned(),
        base.to_owned(),
        "name".to_owned(),
        vlan_interface_name(base, vlan),
        "type".to_owned(),
        "vlan".to_owned(),
        "id".to_owned(),
        u32_to_dec(vlan),
    ];
    let set_mtu: Vec<String> = vec![
        "ip".to_owned(),
        "link".to_owned(),
        "set".to_owned(),
        vlan_interface_name(base, vlan),
        "mtu".to_owned(),
        u32_to_dec(mtu),
    ];
    let bring_up: Vec<String> = vec![
        "ip".to_owned(),
        "link".to_owned(),
        "set".to_owned(),
        "dev".to_owned(),
        vlan_interface_name(base, vlan),
        "up".to_owned(),
    ];
    proof {
        assert(delete_existing.deep_view() =~~= link_del_cmd(base@, vlan));
        assert(create.deep_view() =~~= link_add_cmd(base@, vlan));
        assert(set_mtu.deep_view() =~~= link_set_mtu_cmd(base@, vlan, mtu));
        assert(bring_up.deep_view() =~~= link_set_up_cmd(base@, vlan));
    }
    VlanPlan { delete_existing, create, set_mtu, bring_up }
}

} // verus!
