//! Resolution of the serial device file assigned to a USB device.
//!
//! The kernel places the file under one of the device's interface
//! subdirectories, in one of two layouts below the USB device base:
//!
//! - nested, `<address>/<iface>/tty/ttyACM<n>` (CDC-ACM class devices);
//! - flat, `<address>/<iface>/ttyUSB<n>` (CP210x, HL-340 bridges).
//!
//! Resolution searches the snapshot's entries for the nested layout first
//! and falls back to the flat one; within a layout the first entry in
//! snapshot order wins.  The matched entry's final segment, prefixed with
//! `/dev/`, is the node to open; the sysfs entry is taken as sufficient
//! evidence that the node exists.

use vstd::prelude::*;
use vstd::string::StrSliceExecFns;

use crate::text::str_eq;

verus! {

/// No character of `s` in `[from, to)` is a path separator.
pub open spec fn no_slash_in(s: Seq<char>, from: int, to: int) -> bool {
    forall|m: int| from <= m < to ==> s[m] != '/'
}

/// The position of the first `/` at or after `i`, or the length of `s` when
/// there is none.
pub open spec fn first_slash_from(s: Seq<char>, i: int) -> int
    decreases s.len() - i,
{
    if i < 0 || i >= s.len() {
        s.len() as int
    } else if s[i] == '/' {
        i
    } else {
        first_slash_from(s, i + 1)
    }
}

/// The entry lies under the address, in the nested layout: one interface
/// segment, a `tty` directory, and a name beginning with `ttyACM`.
pub open spec fn is_acm_entry(address: Seq<char>, e: Seq<char>) -> bool {
    let a = address.len() as int;
    let j = first_slash_from(e, a + 1);
    &&& e.subrange(0, a) == address
    &&& e[a] == '/'
    &&& j + 11 <= e.len()
    &&& e.subrange(j, j + 5) == "/tty/"@
    &&& e.subrange(j + 5, j + 11) == "ttyACM"@
    &&& no_slash_in(e, j + 5, e.len() as int)
}

/// The entry lies under the address, in the flat layout: one interface
/// segment and a name beginning with `ttyUSB`.
pub open spec fn is_usb_entry(address: Seq<char>, e: Seq<char>) -> bool {
    let a = address.len() as int;
    let j = first_slash_from(e, a + 1);
    &&& e.subrange(0, a) == address
    &&& e[a] == '/'
    &&& j + 7 <= e.len()
    &&& e.subrange(j + 1, j + 7) == "ttyUSB"@
    &&& no_slash_in(e, j + 1, e.len() as int)
}

/// The final path segment of an entry: what follows its last `/`.
pub open spec fn basename_of(e: Seq<char>) -> Seq<char>
    decreases e.len(),
{
    if e.len() == 0 {
        e
    } else if e.last() == '/' {
        Seq::empty()
    } else {
        basename_of(e.drop_last()) + seq![e.last()]
    }
}

/// The `/dev/` node named after an entry's final segment.
pub open spec fn dev_node_of(e: Seq<char>) -> Seq<char> {
    "/dev/"@ + basename_of(e)
}

/// The node path derived from a sysfs entry: nothing when the entry has no
/// final segment.
pub open spec fn spec_tty_node(path: Seq<char>) -> Option<Seq<char>> {
    if basename_of(path).len() == 0 {
        None
    } else {
        Some(dev_node_of(path))
    }
}

/// The first entry in the nested (ACM) layout.
pub open spec fn find_acm(address: Seq<char>, entries: Seq<Seq<char>>) -> Option<Seq<char>>
    decreases entries.len(),
{
    if entries.len() == 0 {
        None
    } else if is_acm_entry(address, entries[0]) {
        Some(entries[0])
    } else {
        find_acm(address, entries.drop_first())
    }
}

/// The first entry in the flat (USB) layout.
pub open spec fn find_usb(address: Seq<char>, entries: Seq<Seq<char>>) -> Option<Seq<char>>
    decreases entries.len(),
{
    if entries.len() == 0 {
        None
    } else if is_usb_entry(address, entries[0]) {
        Some(entries[0])
    } else {
        find_usb(address, entries.drop_first())
    }
}

/// The resolved node: the nested layout is searched fully before the flat
/// one, and within a layout the first entry wins.
pub open spec fn resolve_tty(address: Seq<char>, entries: Seq<Seq<char>>) -> Option<Seq<char>> {
    match find_acm(address, entries) {
        Some(e) => Some(dev_node_of(e)),
        None => match find_usb(address, entries) {
            Some(e) => Some(dev_node_of(e)),
            None => None,
        },
    }
}

/// The first slash lies at or after the start of the scan, not beyond the
/// end, on a `/` where there is one, and nothing before it is a `/`.
pub proof fn lemma_first_slash_props(s: Seq<char>, i: int)
    requires
        0 <= i,
    ensures
        ({
            let r = first_slash_from(s, i);
            &&& i <= s.len() ==> i <= r <= s.len()
            &&& i > s.len() ==> r == s.len()
            &&& r < s.len() ==> s[r] == '/'
            &&& no_slash_in(s, i, r)
        }),
    decreases s.len() - i,
{
    if i < s.len() && s[i] != '/' {
        lemma_first_slash_props(s, i + 1);
    }
}

/// A scan that saw no `/` up to `j`, and a `/` (or the end) at `j`, found
/// the first slash.
pub proof fn lemma_first_slash_from(s: Seq<char>, i: int, j: int)
    requires
        0 <= i <= j <= s.len(),
        no_slash_in(s, i, j),
        j == s.len() || s[j] == '/',
    ensures
        first_slash_from(s, i) == j,
    decreases j - i,
{
    if i < j {
        lemma_first_slash_from(s, i + 1, j);
    }
}

/// Searching for a layout match skips every leading entry that is no match.
pub proof fn lemma_find_acm_skip(address: Seq<char>, entries: Seq<Seq<char>>, i: int)
    requires
        0 <= i <= entries.len(),
        forall|m: int| 0 <= m < i ==> !is_acm_entry(address, entries[m]),
    ensures
        find_acm(address, entries) == find_acm(address, entries.skip(i)),
    decreases i,
{
    if i == 0 {
        assert(entries.skip(0) =~= entries);
    } else {
        lemma_find_acm_skip(address, entries.drop_first(), i - 1);
        assert(entries.drop_first().skip(i - 1) =~= entries.skip(i));
    }
}

/// Searching for a layout match skips every leading entry that is no match.
pub proof fn lemma_find_usb_skip(address: Seq<char>, entries: Seq<Seq<char>>, i: int)
    requires
        0 <= i <= entries.len(),
        forall|m: int| 0 <= m < i ==> !is_usb_entry(address, entries[m]),
    ensures
        find_usb(address, entries) == find_usb(address, entries.skip(i)),
    decreases i,
{
    if i == 0 {
        assert(entries.skip(0) =~= entries);
    } else {
        lemma_find_usb_skip(address, entries.drop_first(), i - 1);
        assert(entries.drop_first().skip(i - 1) =~= entries.skip(i));
    }
}

/// A matched entry has a final segment, so its node path is well defined.
pub proof fn lemma_matched_entry_basename(address: Seq<char>, e: Seq<char>)
    requires
        is_acm_entry(address, e) || is_usb_entry(address, e),
    ensures
        basename_of(e).len() > 0,
{
    lemma_first_slash_props(e, address.len() as int + 1);
    assert(e.last() != '/');
}

/// Law: whenever some entry matches the nested (ACM) layout, resolution
/// returns the node of an entry in that layout — a flat-layout entry never
/// wins over it, wherever it stands in the snapshot.
pub proof fn lemma_acm_precedence(address: Seq<char>, entries: Seq<Seq<char>>, i: int)
    requires
        0 <= i < entries.len(),
        is_acm_entry(address, entries[i]),
    ensures
        exists|j: int|
            0 <= j < entries.len() && is_acm_entry(address, entries[j]) && resolve_tty(
                address,
                entries,
            ) == Some(dev_node_of(entries[j])),
{
    lemma_find_acm_found(address, entries, i);
    let j = choose|j: int|
        0 <= j < entries.len() && entries[j] == find_acm(address, entries)->Some_0
            && is_acm_entry(address, entries[j]);
    assert(resolve_tty(address, entries) == Some(dev_node_of(entries[j])));
}

/// When an entry at `i` matches the nested layout, the search returns some
/// matching entry of the list.
pub proof fn lemma_find_acm_found(address: Seq<char>, entries: Seq<Seq<char>>, i: int)
    requires
        0 <= i < entries.len(),
        is_acm_entry(address, entries[i]),
    ensures
        find_acm(address, entries) matches Some(e) && exists|j: int|
            0 <= j < entries.len() && entries[j] == e && is_acm_entry(address, entries[j]),
    decreases entries.len(),
{
    if is_acm_entry(address, entries[0]) {
        assert(entries[0] == find_acm(address, entries)->Some_0);
    } else {
        assert(entries.drop_first()[i - 1] == entries[i]);
        lemma_find_acm_found(address, entries.drop_first(), i - 1);
        let e = find_acm(address, entries.drop_first())->Some_0;
        let j = choose|j: int|
            0 <= j < entries.drop_first().len() && entries.drop_first()[j] == e && is_acm_entry(
                address,
                entries.drop_first()[j],
            );
        assert(entries[j + 1] == e);
    }
}

/// Law: when no entry matches either layout, resolution yields nothing — it
/// never falls back to a default or empty path.
pub proof fn lemma_resolve_none(address: Seq<char>, entries: Seq<Seq<char>>)
    requires
        forall|i: int| 0 <= i < entries.len() ==> !is_acm_entry(address, entries[i]),
        forall|i: int| 0 <= i < entries.len() ==> !is_usb_entry(address, entries[i]),
    ensures
        resolve_tty(address, entries) is None,
{
    lemma_find_acm_skip(address, entries, entries.len() as int);
    lemma_find_usb_skip(address, entries, entries.len() as int);
    assert(entries.skip(entries.len() as int) =~= Seq::<Seq<char>>::empty());
}

/// Law: any node that resolution yields is non-empty.
pub proof fn lemma_resolved_node_nonempty(address: Seq<char>, entries: Seq<Seq<char>>)
    ensures
        resolve_tty(address, entries) matches Some(node) ==> node.len() > 0,
{
    reveal_strlit("/dev/");
}

/// Decides whether an entry matches the nested (ACM) layout under the
/// address.
pub fn entry_matches_acm(address: &str, e: &str) -> (r: bool)
    ensures
        r == is_acm_entry(address@, e@),
{
    let a = address.unicode_len();
    let n = e.unicode_len();
    if n < 12 || a > n - 12 {
        proof {
            lemma_first_slash_props(e@, a as int + 1);
        }
        return false;
    }
    if !str_eq(e.substring_char(0, a), address) {
        return false;
    }
    if e.get_char(a) != '/' {
        return false;
    }
    let mut j: usize = a + 1;
    while j < n && e.get_char(j) != '/'
        invariant
            a + 1 <= j <= n,
            n == e@.len(),
            no_slash_in(e@, a as int + 1, j as int),
        decreases n - j,
    {
        j += 1;
    }
    proof {
        lemma_first_slash_from(e@, a as int + 1, j as int);
    }
    if n - j < 11 {
        return false;
    }
    if !str_eq(e.substring_char(j, j + 5), "/tty/") {
        return false;
    }
    if !str_eq(e.substring_char(j + 5, j + 11), "ttyACM") {
        return false;
    }
    let mut m: usize = j + 5;
    while m < n && e.get_char(m) != '/'
        invariant
            j + 5 <= m <= n,
            n == e@.len(),
            no_slash_in(e@, j as int + 5, m as int),
        decreases n - m,
    {
        m += 1;
    }
    m == n
}

/// Decides whether an entry matches the flat (USB) layout under the
/// address.
pub fn entry_matches_usb(address: &str, e: &str) -> (r: bool)
    ensures
        r == is_usb_entry(address@, e@),
{
    let a = address.unicode_len();
    let n = e.unicode_len();
    if n < 8 || a > n - 8 {
        proof {
            lemma_first_slash_props(e@, a as int + 1);
        }
        return false;
    }
    if !str_eq(e.substring_char(0, a), address) {
        return false;
    }
    if e.get_char(a) != '/' {
        return false;
    }
    let mut j: usize = a + 1;
    while j < n && e.get_char(j) != '/'
        invariant
            a + 1 <= j <= n,
            n == e@.len(),
            no_slash_in(e@, a as int + 1, j as int),
        decreases n - j,
    {
        j += 1;
    }
    proof {
        lemma_first_slash_from(e@, a as int + 1, j as int);
    }
    if n - j < 7 {
        return false;
    }
    if !str_eq(e.substring_char(j + 1, j + 7), "ttyUSB") {
        return false;
    }
    let mut m: usize = j + 1;
    while m < n && e.get_char(m) != '/'
        invariant
            j + 1 <= m <= n,
            n == e@.len(),
            no_slash_in(e@, j as int + 1, m as int),
        decreases n - m,
    {
        m += 1;
    }
    m == n
}

/// A scan that saw no `/` from `k` to the end, with a `/` (or the start)
/// just before `k`, found the final segment.
pub proof fn lemma_basename_suffix(e: Seq<char>, k: int)
    requires
        0 <= k <= e.len(),
        no_slash_in(e, k, e.len() as int),
        k == 0 || e[k - 1] == '/',
    ensures
        basename_of(e) == e.subrange(k, e.len() as int),
    decreases e.len(),
{
    if e.len() == 0 {
        assert(basename_of(e) =~= e.subrange(0, 0));
    } else if k == e.len() {
        assert(basename_of(e) =~= e.subrange(k, e.len() as int));
    } else {
        assert(e.last() != '/');
        lemma_basename_suffix(e.drop_last(), k);
        assert(e.drop_last().subrange(k, e.drop_last().len() as int) =~= e.subrange(
            k,
            e.len() - 1,
        ));
        assert(e.subrange(k, e.len() - 1) + seq![e.last()] =~= e.subrange(k, e.len() as int));
    }
}

} // verus!
