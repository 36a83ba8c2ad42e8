//! Port presentation: given one enumeration of the connected serial
//! devices, keep only the USB-class ones and present their names in
//! lexicographic order; an enumeration failure becomes a human-readable
//! error. The operating-system query itself is an input-output edge and
//! stays with the caller, which hands the outcome in as plain values;
//! everything decided about it is verified here.

use vstd::prelude::*;
use vstd::seq_lib::lemma_multiset_commutative;
use vstd::seq_lib::group_to_multiset_ensures;
use vstd::seq_lib::to_multiset_build;
use vstd::string::StrSliceExecFns;
use vstd::string::StringExecFns;

verus! {

/// The transport class of an enumerated serial device.
#[derive(Clone, Copy, PartialEq, Eq, Structural, Debug)]
pub enum PortClass {
    Usb,
    Pci,
    Bluetooth,
    Unknown,
}

/// One enumerated serial device: its short name and how it is attached.
pub struct PortEntry {
    pub name: String,
    pub class: PortClass,
}

/// Lexicographic order on character sequences, by code point: the empty
/// sequence first, then by the first differing character.
pub open spec fn str_le(a: Seq<char>, b: Seq<char>) -> bool
    decreases a.len(),
{
    if a.len() == 0 {
        true
    } else if b.len() == 0 {
        false
    } else if (a[0] as u32) == (b[0] as u32) {
        str_le(a.skip(1), b.skip(1))
    } else {
        (a[0] as u32) < (b[0] as u32)
    }
}

/// `str_le` is total: any two sequences are comparable.
pub proof fn lemma_str_le_total(a: Seq<char>, b: Seq<char>)
    ensures
        str_le(a, b) || str_le(b, a),
    decreases a.len(),
{
    if a.len() > 0 && b.len() > 0 && (a[0] as u32) == (b[0] as u32) {
        lemma_str_le_total(a.skip(1), b.skip(1));
    }
}

/// `str_le` is transitive.
pub proof fn lemma_str_le_trans(a: Seq<char>, b: Seq<char>, c: Seq<char>)
    requires
        str_le(a, b),
        str_le(b, c),
    ensures
        str_le(a, c),
    decreases a.len(),
{
    if a.len() > 0 {
        assert(b.len() > 0);
        assert(c.len() > 0);
        if (a[0] as u32) == (b[0] as u32) && (b[0] as u32) == (c[0] as u32) {
            lemma_str_le_trans(a.skip(1), b.skip(1), c.skip(1));
        }
    }
}

/// The names in `v`, as character sequences.
pub open spec fn views_of(v: Seq<String>) -> Seq<Seq<char>> {
    v.map_values(|s: String| s@)
}

/// Whether a list of names is in lexicographic order.
pub open spec fn names_sorted(s: Seq<Seq<char>>) -> bool {
    forall|i: int, j: int| 0 <= i < j < s.len() ==> str_le(#[trigger] s[i], #[trigger] s[j])
}

/// The names of the USB-class entries, in the order they were listed.
pub open spec fn usb_names(es: Seq<PortEntry>) -> Seq<Seq<char>>
    decreases es.len(),
{
    if es.len() == 0 {
        Seq::empty()
    } else if es.last().class is Usb {
        usb_names(es.drop_last()).push(es.last().name@)
    } else {
        usb_names(es.drop_last())
    }
}

/// Compare two names lexicographically.
pub fn str_le_exec(a: &str, b: &str) -> (r: bool)
    ensures
        r == str_le(a@, b@),
{
    let n = a.unicode_len();
    let m = b.unicode_len();
    let mut i: usize = 0;
    proof {
        assert(a@.skip(0) =~= a@);
        assert(b@.skip(0) =~= b@);
    }
    while i < n
        invariant
            i <= n,
            i <= m,
            n == a@.len(),
            m == b@.len(),
            str_le(a@, b@) == str_le(a@.skip(i as int), b@.skip(i as int)),
        decreases n - i,
    {
        if i >= m {
            return false;
        }
        let ca = a.get_char(i);
        let cb = b.get_char(i);
        if (ca as u32) != (cb as u32) {
            return (ca as u32) < (cb as u32);
        }
        proof {
            assert(a@.skip(i as int).skip(1) =~= a@.skip(i as int + 1));
            assert(b@.skip(i as int).skip(1) =~= b@.skip(i as int + 1));
        }
        i += 1;
    }
    true
}

/// A sequence with an element inserted carries the old views plus that
/// element's view at the same place.
proof fn lemma_views_of_insert(s: Seq<String>, k: int, x: String)
    requires
        0 <= k <= s.len(),
    ensures
        views_of(s.insert(k, x)) =~= views_of(s).insert(k, x@),
{
    s.insert_ensures(k, x);
    views_of(s).insert_ensures(k, x@);
    assert forall|i: int| 0 <= i < s.len() + 1 implies views_of(s.insert(k, x))[i] == views_of(
        s,
    ).insert(k, x@)[i] by {
        if i > k {
            assert(s.insert(k, x)[i] == s[i - 1]);
            assert(views_of(s).insert(k, x@)[i] == views_of(s)[i - 1]);
        }
    }
}

/// Inserting anywhere in a sequence inserts into its multiset.
proof fn lemma_insert_to_multiset(s: Seq<Seq<char>>, k: int, x: Seq<char>)
    requires
        0 <= k <= s.len(),
    ensures
        s.insert(k, x).to_multiset() == s.to_multiset().insert(x),
{
    broadcast use group_to_multiset_ensures;

    let pre = s.subrange(0, k);
    let post = s.subrange(k, s.len() as int);
    lemma_multiset_commutative(pre.push(x), post);
    lemma_multiset_commutative(pre, post);
    assert(s =~= pre + post);
    assert(pre.push(x).to_multiset() =~= pre.to_multiset().insert(x));
    assert(pre.to_multiset().insert(x).add(post.to_multiset()) =~= pre.to_multiset().add(
        post.to_multiset(),
    ).insert(x));
}

/// Insert `name` into a sorted list of names, keeping it sorted; the
/// contents change by exactly that one name.
fn insert_sorted(out: &mut Vec<String>, name: String)
    requires
        names_sorted(views_of(old(out)@)),
    ensures
        names_sorted(views_of(final(out)@)),
        views_of(final(out)@).to_multiset() == views_of(old(out)@).to_multiset().insert(name@),
{
    let ghost olds = out@;
    let mut k: usize = 0;
    while k < out.len() && !str_le_exec(name.as_str(), out[k].as_str())
        invariant
            k <= out@.len(),
            out@ == olds,
            names_sorted(views_of(olds)),
            forall|m: int| 0 <= m < k ==> !str_le(name@, #[trigger] views_of(olds)[m]),
        decreases out@.len() - k,
    {
        k += 1;
    }
    out.insert(k, name);
    proof {
        lemma_views_of_insert(olds, k as int, name);
        lemma_insert_to_multiset(views_of(olds), k as int, name@);
        let newv = views_of(out@);
        views_of(olds).insert_ensures(k as int, name@);
        assert(newv =~= views_of(olds).insert(k as int, name@));
        assert forall|i: int, j: int| 0 <= i < j < newv.len() implies str_le(
            #[trigger] newv[i],
            #[trigger] newv[j],
        ) by {
            if j < k {
                assert(newv[i] == views_of(olds)[i]);
                assert(newv[j] == views_of(olds)[j]);
            } else if j == k {
                assert(newv[i] == views_of(olds)[i]);
                lemma_str_le_total(name@, views_of(olds)[i]);
            } else {
                assert(newv[j] == views_of(olds)[j - 1]);
                if i < k {
                    assert(newv[i] == views_of(olds)[i]);
                } else if i == k {
                    if k < olds.len() {
                        if k as int <= j - 2 {
                            assert(str_le(views_of(olds)[k as int], views_of(olds)[j - 1]));
                            lemma_str_le_trans(
                                name@,
                                views_of(olds)[k as int],
                                views_of(olds)[j - 1],
                            );
                        }
                    }
                } else {
                    assert(newv[i] == views_of(olds)[i - 1]);
                }
            }
        }
    }
}

/// Keep the names of the USB-class entries and present them in
/// lexicographic order: the result is sorted and holds exactly the
/// USB-class names of the input, duplicates included.
pub fn usb_port_names(entries: Vec<PortEntry>) -> (r: Vec<String>)
    ensures
        names_sorted(views_of(r@)),
        views_of(r@).to_multiset() == usb_names(entries@).to_multiset(),
{
    let mut out: Vec<String> = Vec::new();
    let mut i: usize = 0;
    proof {
        assert(views_of(out@) =~= Seq::<Seq<char>>::empty());
        assert(entries@.take(0) =~= Seq::<PortEntry>::empty());
    }
    while i < entries.len()
        invariant
            i <= entries@.len(),
            names_sorted(views_of(out@)),
            views_of(out@).to_multiset() == usb_names(entries@.take(i as int)).to_multiset(),
        decreases entries@.len() - i,
    {
        proof {
            assert(entries@.take(i as int + 1).drop_last() =~= entries@.take(i as int));
            assert(entries@.take(i as int + 1).last() == entries@[i as int]);
        }
        let is_usb = match entries[i].class {
            PortClass::Usb => true,
            _ => false,
        };
        if is_usb {
            insert_sorted(&mut out, entries[i].name.clone());
            proof {
                assert(usb_names(entries@.take(i as int + 1)) == usb_names(
                    entries@.take(i as int),
                ).push(entries@[i as int].name@));
                to_multiset_build(usb_names(entries@.take(i as int)), entries@[i as int].name@);
            }
        } else {
            proof {
                assert(usb_names(entries@.take(i as int + 1)) == usb_names(
                    entries@.take(i as int),
                ));
            }
        }
        i += 1;
    }
    proof {
        assert(entries@.take(entries@.len() as int) =~= entries@);
    }
    out
}

/// Turn one enumeration of the machine's serial devices into the
/// presented port list: on success, the USB-class names sorted
/// lexicographically — exactly those names, duplicates included; on
/// failure, a human-readable error naming what went wrong, wrapped
/// around the enumeration's own description. Never a panic; the failure
/// is reported, not fatal.
pub fn get_available_ports(enumeration: Result<Vec<PortEntry>, String>) -> (r: Result<
    Vec<String>,
    String,
>)
    ensures
        enumeration matches Ok(entries) ==> (r matches Ok(names) && names_sorted(views_of(names@))
            && views_of(names@).to_multiset() == usb_names(entries@).to_multiset()),
        enumeration matches Err(e) ==> (r matches Err(m) && m@
            == "could not enumerate serial ports: "@ + e@),
{
    match enumeration {
        Ok(entries) => Ok(usb_port_names(entries)),
        Err(e) => Err("could not enumerate serial ports: ".to_owned().concat(e.as_str())),
    }
}

} // verus!
