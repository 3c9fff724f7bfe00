//! Process names: normalising what the process snapshot reports, building
//! the set of names around the focused window, and matching them against
//! the user's filter lists.
//!
//! A "set" of names is a `Vec<String>` in which no name occurs twice.
use vstd::prelude::*;

verus! {

/// The Unicode lower-case mapping of `s`, as `str::to_lowercase` computes it.
pub uninterp spec fn lowercase_of(s: Seq<char>) -> Seq<char>;

/// Calls `str::to_lowercase`. Claimed: the result is the Unicode lower-case
/// mapping of `s`, which depends on `s` alone (no locale is involved); what
/// that mapping is, is left to `lowercase_of`.
#[verifier::external_body]
fn to_lowercase(s: &str) -> (r: String)
    ensures
        r@ == lowercase_of(s@),
{
    s.to_lowercase()
}

/// Whether `a` comes before `b` or equals it in the order of `str`:
/// lexicographic, character by character, by Unicode scalar value.
pub open spec fn lex_le(a: Seq<char>, b: Seq<char>) -> bool
    decreases a.len(),
{
    if a.len() == 0 {
        true
    } else if b.len() == 0 {
        false
    } else if a[0] != b[0] {
        (a[0] as u32) < (b[0] as u32)
    } else {
        lex_le(a.drop_first(), b.drop_first())
    }
}

/// Every name comes no later than the ones after it.
pub open spec fn sorted(s: Seq<Seq<char>>) -> bool {
    forall|i: int, j: int| 0 <= i < j < s.len() ==> lex_le(#[trigger] s[i], #[trigger] s[j])
}

/// The names held by a vector of strings.
pub open spec fn names(v: Seq<String>) -> Seq<Seq<char>> {
    v.map_values(|s: String| s@)
}

/// Calls `slice::sort` on a vector of strings. Claimed: the result holds the
/// same strings, each as often as before, in the order of `str`, which
/// compares the UTF-8 bytes and so orders by Unicode scalar value.
#[verifier::external_body]
fn sort_strings(v: &mut Vec<String>)
    ensures
        names(final(v)@).to_multiset() == names(old(v)@).to_multiset(),
        sorted(names(final(v)@)),
{
    v.sort();
}

/// The lower-case form of a process or file name.
pub fn process_name(file_name: &str) -> (r: String)
    ensures
        r@ == lowercase_of(file_name@),
{
    to_lowercase(file_name)
}

/// Whether `list` holds a string equal to `s`.
fn holds(list: &Vec<String>, s: &String) -> (r: bool)
    ensures
        r == names(list@).contains(s@),
{
    let mut i: usize = 0;
    while i < list.len()
        invariant
            i <= list.len(),
            forall|j: int| 0 <= j < i ==> names(list@)[j] != s@,
        decreases list.len() - i,
    {
        if list[i] == *s {
            assert(names(list@)[i as int] == s@);
            return true;
        }
        i += 1;
    }
    false
}

/// Adds `s` to the set `out` unless it is there.
fn add_name(out: &mut Vec<String>, s: String)
    requires
        names(old(out)@).no_duplicates(),
    ensures
        names(final(out)@).no_duplicates(),
        forall|x: Seq<char>|
            names(final(out)@).contains(x) <==> (names(old(out)@).contains(x) || x == s@),
{
    if !holds(out, &s) {
        let ghost before = names(out@);
        out.push(s);
        proof {
            let after = names(out@);
            assert(after =~= before.push(s@));
            assert forall|i: int, j: int|
                0 <= i < after.len() && 0 <= j < after.len() && i != j implies after[i]
                != after[j] by {
                if i == before.len() as int {
                    assert(before.contains(before[j]));
                } else if j == before.len() as int {
                    assert(before.contains(before[i]));
                }
            }
            assert forall|x: Seq<char>| after.contains(x) implies (before.contains(x) || x == s@) by {
                let k = choose|k: int| 0 <= k < after.len() && after[k] == x;
                if k < before.len() {
                    assert(before[k] == x);
                }
            }
            assert forall|x: Seq<char>| before.contains(x) implies after.contains(x) by {
                let k = choose|k: int| 0 <= k < before.len() && before[k] == x;
                assert(after[k] == x);
            }
            assert(after[before.len() as int] == s@);
        }
    }
}

/// Each name of `s`, lower-cased.
pub open spec fn lowered(s: Seq<Seq<char>>) -> Seq<Seq<char>> {
    s.map_values(|x: Seq<char>| lowercase_of(x))
}

/// The set of the lower-cased names of `vec`: no name twice, and exactly
/// the lower-case forms of the given names.
pub fn vec_to_set(vec: Vec<String>) -> (r: Vec<String>)
    ensures
        names(r@).no_duplicates(),
        forall|x: Seq<char>| names(r@).contains(x) <==> lowered(names(vec@)).contains(x),
{
    let mut out: Vec<String> = Vec::new();
    let mut i: usize = 0;
    while i < vec.len()
        invariant
            i <= vec.len(),
            names(out@).no_duplicates(),
            forall|x: Seq<char>|
                names(out@).contains(x) <==> lowered(names(vec@)).take(i as int).contains(x),
        decreases vec.len() - i,
    {
        let l = to_lowercase(vec[i].as_str());
        let ghost before = names(out@);
        add_name(&mut out, l);
        proof {
            let low = lowered(names(vec@));
            assert(low.take(i + 1) =~= low.take(i as int).push(low[i as int]));
            assert(low[i as int] == l@);
            assert forall|x: Seq<char>| names(out@).contains(x) <==> low.take(i + 1).contains(x) by {
                let t = low.take(i as int);
                if t.contains(x) {
                    let k = choose|k: int| 0 <= k < t.len() && t[k] == x;
                    assert(t.push(low[i as int])[k] == x);
                }
                if t.push(low[i as int]).contains(x) {
                    let k = choose|k: int| 0 <= k < t.len() + 1 && t.push(low[i as int])[k] == x;
                    if k < t.len() {
                        assert(t[k] == x);
                    }
                }
                assert(t.push(low[i as int])[t.len() as int] == low[i as int]);
            }
        }
        i += 1;
    }
    proof {
        let low = lowered(names(vec@));
        assert(low.take(vec.len() as int) =~= low);
    }
    out
}

/// The names of `set` sorted in the order of `str`, for display.
pub fn set_to_vec(set: Vec<String>) -> (r: Vec<String>)
    ensures
        names(r@).to_multiset() == names(set@).to_multiset(),
        sorted(names(r@)),
{
    let mut v = set;
    sort_strings(&mut v);
    v
}

/// Whether some name of `focused` is in `black_or_white`.
pub fn included_in_running_process(black_or_white: &Vec<String>, focused: &Vec<String>) -> (r: bool)
    ensures
        r == exists|i: int|
            0 <= i < focused.len() && #[trigger] names(black_or_white@).contains(names(focused@)[i]),
{
    let mut i: usize = 0;
    while i < focused.len()
        invariant
            i <= focused.len(),
            forall|j: int|
                0 <= j < i ==> !#[trigger] names(black_or_white@).contains(names(focused@)[j]),
        decreases focused.len() - i,
    {
        if holds(black_or_white, &focused[i]) {
            assert(names(focused@)[i as int] == focused@[i as int]@);
            return true;
        }
        i += 1;
    }
    false
}

/// `s` without the U+0000 characters at its start and its end.
pub open spec fn trim_nul(s: Seq<char>) -> Seq<char>
    decreases s.len(),
{
    if s.len() > 0 && s[0] == '\0' {
        trim_nul(s.drop_first())
    } else if s.len() > 0 && s.last() == '\0' {
        trim_nul(s.drop_last())
    } else {
        s
    }
}

/// The name of a process snapshot entry from its raw executable field: the
/// padding U+0000 characters trimmed and the rest lower-cased; `None` when
/// nothing is left.
pub open spec fn spec_entry_name(raw: Seq<char>) -> Option<Seq<char>> {
    let n = lowercase_of(trim_nul(raw));
    if n.len() == 0 {
        None
    } else {
        Some(n)
    }
}

/// The name of a process snapshot entry, from its executable field decoded
/// as text.
pub fn entry_name(raw: &str) -> (r: Option<String>)
    ensures
        match r {
            Some(s) => spec_entry_name(raw@) == Some(s@),
            None => spec_entry_name(raw@) is None,
        },
{
    let mut cur: &str = raw;
    while cur.unicode_len() > 0 && cur.get_char(0) == '\0'
        invariant
            trim_nul(cur@) == trim_nul(raw@),
        decreases cur@.len(),
    {
        let n = cur.unicode_len();
        let ghost prev = cur@;
        cur = cur.substring_char(1, n);
        assert(cur@ =~= prev.drop_first());
    }
    while cur.unicode_len() > 0 && cur.get_char(cur.unicode_len() - 1) == '\0'
        invariant
            trim_nul(cur@) == trim_nul(raw@),
            cur@.len() > 0 ==> cur@[0] != '\0',
        decreases cur@.len(),
    {
        let n = cur.unicode_len();
        let ghost prev = cur@;
        cur = cur.substring_char(0, n - 1);
        assert(cur@ =~= prev.drop_last());
    }
    let name = to_lowercase(cur);
    if name.as_str().unicode_len() == 0 {
        None
    } else {
        Some(name)
    }
}

/// What the process snapshot reports of one process.
pub struct ProcessEntry {
    /// The process id of its parent.
    pub parent_pid: u32,
    /// Its executable file name, decoded from the snapshot's fixed-size field.
    pub exe_file: String,
}

/// The names of the focused process and of its children: `parent_name`
/// itself, and the name of each entry whose parent is `parent_pid`.
pub fn focused_process_names(parent_name: String, parent_pid: u32, entries: &Vec<ProcessEntry>) -> (r: Vec<String>)
    ensures
        names(r@).no_duplicates(),
        forall|x: Seq<char>|
            names(r@).contains(x) <==> (x == parent_name@ || exists|i: int|
                0 <= i < entries.len() && entries[i].parent_pid == parent_pid
                    && spec_entry_name(#[trigger] entries[i].exe_file@) == Some(x)),
{
    let mut out: Vec<String> = Vec::new();
    let ghost pn = parent_name@;
    add_name(&mut out, parent_name);
    let mut i: usize = 0;
    while i < entries.len()
        invariant
            i <= entries.len(),
            names(out@).no_duplicates(),
            forall|x: Seq<char>|
                names(out@).contains(x) <==> (x == pn || exists|k: int|
                    0 <= k < i && entries[k].parent_pid == parent_pid
                        && spec_entry_name(#[trigger] entries[k].exe_file@) == Some(x)),
        decreases entries.len() - i,
    {
        if entries[i].parent_pid == parent_pid {
            if let Some(name) = entry_name(entries[i].exe_file.as_str()) {
                add_name(&mut out, name);
            }
        }
        i += 1;
    }
    out
}

/// The names of all processes of a snapshot.
pub fn all_process_names(entries: &Vec<ProcessEntry>) -> (r: Vec<String>)
    ensures
        names(r@).no_duplicates(),
        forall|x: Seq<char>|
            names(r@).contains(x) <==> exists|i: int|
                0 <= i < entries.len() && spec_entry_name(#[trigger] entries[i].exe_file@) == Some(x),
{
    let mut out: Vec<String> = Vec::new();
    let mut i: usize = 0;
    while i < entries.len()
        invariant
            i <= entries.len(),
            names(out@).no_duplicates(),
            forall|x: Seq<char>|
                names(out@).contains(x) <==> exists|k: int|
                    0 <= k < i && spec_entry_name(#[trigger] entries[k].exe_file@) == Some(x),
        decreases entries.len() - i,
    {
        if let Some(name) = entry_name(entries[i].exe_file.as_str()) {
            add_name(&mut out, name);
        }
        i += 1;
    }
    out
}

/// The running processes' names, sorted and each once, as the settings
/// screen lists them.
pub fn get_running_process_names(entries: &Vec<ProcessEntry>) -> (r: Vec<String>)
    ensures
        sorted(names(r@)),
        names(r@).no_duplicates(),
        names(r@).to_multiset().dom() =~= Set::new(
            |x: Seq<char>| exists|i: int|
                0 <= i < entries.len() && spec_entry_name(#[trigger] entries[i].exe_file@) == Some(x),
        ),
{
    let set = all_process_names(entries);
    let r = set_to_vec(set);
    proof {
        broadcast use vstd::seq_lib::group_to_multiset_ensures;
        assert forall|x: Seq<char>| names(r@).to_multiset().dom().contains(x) <==> names(set@).contains(x) by {
            assert(names(r@).to_multiset().count(x) == names(set@).to_multiset().count(x));
        }
        names(set@).lemma_multiset_has_no_duplicates();
        names(r@).lemma_multiset_has_no_duplicates_conv();
    }
    r
}

} // verus!
