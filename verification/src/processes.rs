//! The process list: grouping helper processes under their application, ordering rows
//! and expanding groups.

use vstd::prelude::*;
use vstd::string::*;
use crate::text::{chars_of, push_char, u64_to_decimal, decimal};

verus! {

/// `s` ends with `p`.
pub open spec fn ends_with_chars(s: Seq<char>, p: Seq<char>) -> bool {
    p.len() <= s.len() && s.subrange(s.len() - p.len(), s.len() as int) == p
}

/// `s` with every trailing repetition of `p` removed (`str::trim_end_matches`).
pub open spec fn trim_end_all(s: Seq<char>, p: Seq<char>) -> Seq<char>
    decreases s.len(),
{
    if p.len() > 0 && ends_with_chars(s, p) {
        trim_end_all(s.subrange(0, s.len() - p.len()), p)
    } else {
        s
    }
}

/// The name with the helper suffixes removed, in the order they are tried.
pub open spec fn trim_helper_suffixes(s: Seq<char>) -> Seq<char> {
    let s1 = trim_end_all(s, " Helper"@);
    let s2 = trim_end_all(s1, " Helper (Renderer)"@);
    let s3 = trim_end_all(s2, " Helper (GPU)"@);
    let s4 = trim_end_all(s3, " Helper (Plugin)"@);
    let s5 = trim_end_all(s4, " Renderer"@);
    let s6 = trim_end_all(s5, " (GPU Process)"@);
    trim_end_all(s6, " Web Content"@)
}

/// `" ("` occurs at character position `i` of `s`.
pub open spec fn paren_at(s: Seq<char>, i: int) -> bool {
    0 <= i && i + 1 < s.len() && s[i] == ' ' && s[i + 1] == '('
}

/// `t` ends in `)` and holds a `" ("`.
pub open spec fn has_remark(t: Seq<char>) -> bool {
    t.len() > 0 && t.last() == ')' && exists|i: int| paren_at(t, i)
}

/// Position of the last `" ("` in `t`.
pub open spec fn last_paren(t: Seq<char>) -> int {
    choose|i: int| paren_at(t, i) && forall|j: int| i < j ==> !paren_at(t, j)
}

/// `t` without its final parenthesized remark, if it has one.
pub open spec fn strip_remark(t: Seq<char>) -> Seq<char> {
    if has_remark(t) {
        t.take(last_paren(t))
    } else {
        t
    }
}

/// The base name of a process: its name without helper suffixes and, when it ends in a
/// parenthesized remark, without the last `" (..."` part.
pub open spec fn base_process_name(name: Seq<char>) -> Seq<char> {
    strip_remark(trim_helper_suffixes(name))
}

fn ends_with_at(v: &Vec<char>, len: usize, p: &Vec<char>) -> (r: bool)
    requires
        len <= v.len(),
    ensures
        r == ends_with_chars(v@.take(len as int), p@),
{
    if p.len() > len {
        return false;
    }
    let start = len - p.len();
    let mut k: usize = 0;
    while k < p.len()
        invariant
            start + p@.len() == len,
            len <= v@.len(),
            k <= p@.len(),
            forall|m: int| 0 <= m < k ==> v@[start + m] == p@[m],
        decreases p@.len() - k,
    {
        if v[start + k] != p[k] {
            assert(v@.take(len as int).subrange(start as int, len as int)[k as int] != p@[k as int]);
            return false;
        }
        k = k + 1;
    }
    assert(v@.take(len as int).subrange(start as int, len as int) =~= p@);
    true
}

/// Length of the prefix of `v` left after removing trailing repetitions of `p` from its
/// first `len` characters.
fn trim_end_len(v: &Vec<char>, len: usize, p: &str) -> (r: usize)
    requires
        len <= v.len(),
    ensures
        r <= len,
        v@.take(r as int) == trim_end_all(v@.take(len as int), p@),
{
    let pv = chars_of(p);
    if pv.len() == 0 {
        return len;
    }
    let mut cur = len;
    while ends_with_at(v, cur, &pv)
        invariant
            cur <= len,
            len <= v@.len(),
            pv@ == p@,
            pv@.len() > 0,
            trim_end_all(v@.take(cur as int), p@) == trim_end_all(v@.take(len as int), p@),
        decreases cur,
    {
        let next = cur - pv.len();
        assert(v@.take(cur as int).subrange(0, cur - pv@.len()) =~= v@.take(next as int));
        cur = next;
    }
    cur
}

fn helper_trimmed_len(v: &Vec<char>) -> (len: usize)
    ensures
        len <= v.len(),
        v@.take(len as int) == trim_helper_suffixes(v@),
{
    let mut len = v.len();
    assert(v@.take(len as int) =~= v@);
    len = trim_end_len(v, len, " Helper");
    len = trim_end_len(v, len, " Helper (Renderer)");
    len = trim_end_len(v, len, " Helper (GPU)");
    len = trim_end_len(v, len, " Helper (Plugin)");
    len = trim_end_len(v, len, " Renderer");
    len = trim_end_len(v, len, " (GPU Process)");
    len = trim_end_len(v, len, " Web Content");
    len
}

/// Where the base name of the trimmed text `t` (the first `len` characters of `v`) ends.
fn remark_cut(v: &Vec<char>, len: usize) -> (cut: usize)
    requires
        len <= v.len(),
    ensures
        cut <= len,
        v@.take(cut as int) == strip_remark(v@.take(len as int)),
{
    let ghost t = v@.take(len as int);
    if len == 0 || v[len - 1] != ')' {
        assert(!has_remark(t));
        return len;
    }
    let mut i = len - 1;
    let mut found = false;
    while i > 0
        invariant_except_break
            !found,
            forall|j: int| i <= j ==> !paren_at(t, j),
        invariant
            t == v@.take(len as int),
            len <= v@.len(),
            i < len,
        ensures
            found ==> paren_at(t, i as int) && forall|j: int| i < j ==> !paren_at(t, j),
            !found ==> forall|j: int| 0 <= j ==> !paren_at(t, j),
        decreases i,
    {
        i = i - 1;
        if v[i] == ' ' && v[i + 1] == '(' {
            found = true;
            break;
        }
    }
    if found {
        proof {
            let c = last_paren(t);
            assert(paren_at(t, i as int));
            assert(has_remark(t));
            assert(c == i) by {
                if c < i {
                    assert(!paren_at(t, i as int));
                }
            }
            assert(v@.take(i as int) =~= t.take(i as int));
        }
        i
    } else {
        proof {
            assert(!has_remark(t));
            assert(v@.take(len as int) =~= t);
        }
        len
    }
}

fn string_of_prefix(v: &Vec<char>, n: usize) -> (s: String)
    requires
        n <= v.len(),
    ensures
        s@ == v@.take(n as int),
{
    let mut s = String::new();
    let mut k: usize = 0;
    while k < n
        invariant
            n <= v.len(),
            k <= n,
            s@ == v@.take(k as int),
        decreases n - k,
    {
        push_char(&mut s, v[k]);
        assert(v@.take(k + 1) =~= v@.take(k as int).push(v@[k as int]));
        k = k + 1;
    }
    s
}

/// The base name of a process, grouping helper processes under their application
/// (`"Google Chrome Helper (Renderer)"` becomes `"Google Chrome"`).
pub fn get_base_process_name(name: &str) -> (r: String)
    ensures
        r@ == base_process_name(name@),
{
    let v = chars_of(name);
    let len = helper_trimmed_len(&v);
    let cut = remark_cut(&v, len);
    string_of_prefix(&v, cut)
}

/// A group of processes that share a base name.
#[derive(Debug, Clone)]
pub struct MergeGroup {
    /// The shared base name.
    pub base_name: String,
    /// Positions of the member processes in the input list, in input order.
    pub members: Vec<usize>,
}

/// A group as a pair of its base name and member positions.
pub open spec fn group_view(g: MergeGroup) -> (Seq<char>, Seq<usize>) {
    (g.base_name@, g.members@)
}

/// The groups as pairs of base name and member positions.
pub open spec fn groups_view(gs: Seq<MergeGroup>) -> Seq<(Seq<char>, Seq<usize>)> {
    gs.map_values(|g: MergeGroup| group_view(g))
}

/// Position of the first group named `b`.
pub open spec fn find_group(gs: Seq<(Seq<char>, Seq<usize>)>, b: Seq<char>) -> Option<int>
    decreases gs.len(),
{
    if gs.len() == 0 {
        None
    } else {
        match find_group(gs.drop_last(), b) {
            Some(i) => Some(i),
            None => if gs.last().0 == b { Some(gs.len() - 1) } else { None },
        }
    }
}

/// The groups formed by the base names `bases`, taken in order: each process joins the
/// group of its base name, and a name not seen before opens a new group at the end.
pub open spec fn merge_spec(bases: Seq<Seq<char>>) -> Seq<(Seq<char>, Seq<usize>)>
    decreases bases.len(),
{
    if bases.len() == 0 {
        Seq::empty()
    } else {
        let prev = merge_spec(bases.drop_last());
        let k = (bases.len() - 1) as usize;
        let b = bases.last();
        match find_group(prev, b) {
            Some(g) => prev.update(g, (b, prev[g].1.push(k))),
            None => prev.push((b, seq![k])),
        }
    }
}

/// The base names of a list of process names.
pub open spec fn base_names(names: Seq<String>) -> Seq<Seq<char>> {
    names.map_values(|n: String| base_process_name(n@))
}

proof fn lemma_find_group_first(gs: Seq<(Seq<char>, Seq<usize>)>, b: Seq<char>)
    ensures
        match find_group(gs, b) {
            Some(i) => 0 <= i < gs.len() && gs[i].0 == b && forall|j: int| 0 <= j < i ==> gs[j].0 != b,
            None => forall|j: int| 0 <= j < gs.len() ==> gs[j].0 != b,
        },
    decreases gs.len(),
{
    if gs.len() > 0 {
        let d = gs.drop_last();
        lemma_find_group_first(d, b);
        assert forall|j: int| 0 <= j < d.len() implies d[j] == gs[j] by {}
        match find_group(d, b) {
            Some(i) => {
                assert(find_group(gs, b) == Some(i));
            },
            None => {
                assert forall|j: int| 0 <= j < gs.len() - 1 implies gs[j].0 != b by {
                    assert(d[j] == gs[j]);
                }
            },
        }
    }
}

/// Groups processes by base name, keeping input order within each group and ordering
/// groups by their first member.
pub fn merge_groups(names: &Vec<String>) -> (gs: Vec<MergeGroup>)
    ensures
        groups_view(gs@) == merge_spec(base_names(names@)),
{
    let mut gs: Vec<MergeGroup> = Vec::new();
    let mut i: usize = 0;
    while i < names.len()
        invariant
            i <= names@.len(),
            groups_view(gs@) == merge_spec(base_names(names@).take(i as int)),
        decreases names@.len() - i,
    {
        let b = get_base_process_name(names[i].as_str());
        let ghost prev = groups_view(gs@);
        let ghost bases = base_names(names@).take(i + 1);
        proof {
            assert(bases.drop_last() =~= base_names(names@).take(i as int));
            assert(bases.last() == b@);
            lemma_find_group_first(prev, b@);
        }
        let mut g: usize = 0;
        let mut found = false;
        while g < gs.len()
            invariant_except_break
                !found,
            invariant
                g <= gs@.len(),
                prev == groups_view(gs@),
                forall|j: int| 0 <= j < g ==> prev[j].0 != b@,
            ensures
                found ==> g < gs@.len() && prev[g as int].0 == b@,
                !found ==> g == gs@.len(),
            decreases gs@.len() - g,
        {
            if crate::text::str_eq(gs[g].base_name.as_str(), b.as_str()) {
                found = true;
                break;
            }
            g = g + 1;
        }
        if found {
            let mut grp = gs.remove(g);
            grp.members.push(i);
            gs.insert(g, grp);
            proof {
                assert(find_group(prev, b@) == Some(g as int));
                assert(groups_view(gs@) =~= prev.update(g as int, (b@, prev[g as int].1.push(i))));
            }
        } else {
            let mut members: Vec<usize> = Vec::new();
            members.push(i);
            gs.push(MergeGroup { base_name: b, members });
            proof {
                assert(find_group(prev, b@) is None);
                assert(groups_view(gs@) =~= prev.push((b@, seq![i])));
            }
        }
        assert(merge_spec(bases) == groups_view(gs@));
        i = i + 1;
    }
    assert(base_names(names@).take(names@.len() as int) =~= base_names(names@));
    gs
}

/// The name a group shows: its base name, followed by the member count when it has
/// more than one member.
pub open spec fn group_name_spec(base: Seq<char>, count: nat) -> Seq<char> {
    if count >= 2 {
        base + " ("@ + decimal(count) + ")"@
    } else {
        base
    }
}

/// The display name of a merged group of `count` processes.
pub fn group_display_name(base: &str, count: usize) -> (s: String)
    ensures
        s@ == group_name_spec(base@, count as nat),
{
    if count >= 2 {
        let mut s = base.to_string();
        s.append(" (");
        let n = u64_to_decimal(count as u64);
        s.append(n.as_str());
        s.append(")");
        s
    } else {
        base.to_string()
    }
}

/// Process `i` is a member of a group named by its base name.
pub open spec fn merge_covers_one(bases: Seq<Seq<char>>, m: Seq<(Seq<char>, Seq<usize>)>, i: int) -> bool {
    exists|g: int| 0 <= g < m.len() && m[g].0 == bases[i] && #[trigger] m[g].1.contains(i as usize)
}

/// Every process is a member of a group named by its base name.
pub open spec fn merge_covers(bases: Seq<Seq<char>>, m: Seq<(Seq<char>, Seq<usize>)>) -> bool {
    forall|i: int| 0 <= i < bases.len() ==> #[trigger] merge_covers_one(bases, m, i)
}

/// Every member of a group is a process whose base name is the group's name.
pub open spec fn merge_members_match(bases: Seq<Seq<char>>, m: Seq<(Seq<char>, Seq<usize>)>) -> bool {
    forall|g: int, k: int|
        0 <= g < m.len() && 0 <= k < m[g].1.len() ==> m[g].1[k] < bases.len() && bases[m[g].1[k] as int]
            == m[g].0
}

/// No two groups share a name.
pub open spec fn group_names_distinct(m: Seq<(Seq<char>, Seq<usize>)>) -> bool {
    forall|g1: int, g2: int| 0 <= g1 < m.len() && 0 <= g2 < m.len() && g1 != g2 ==> m[g1].0 != m[g2].0
}

/// Merging sorts every process into exactly the group of its base name: each process is a
/// member of a group named by its base name, every member of a group has that group's base
/// name, and no two groups share a name.
pub proof fn lemma_merge_partition(bases: Seq<Seq<char>>)
    requires
        bases.len() <= usize::MAX,
    ensures
        merge_covers(bases, merge_spec(bases)),
        merge_members_match(bases, merge_spec(bases)),
        group_names_distinct(merge_spec(bases)),
    decreases bases.len(),
{
    if bases.len() > 0 {
        let d = bases.drop_last();
        lemma_merge_partition(d);
        let prev = merge_spec(d);
        let k = (bases.len() - 1) as usize;
        let b = bases.last();
        lemma_find_group_first(prev, b);
        let m = merge_spec(bases);
        assert forall|i: int| 0 <= i < d.len() implies d[i] == bases[i] by {}
        assert forall|i: int| 0 <= i < bases.len() implies #[trigger] merge_covers_one(bases, m, i) by {
            if i == k {
                match find_group(prev, b) {
                    Some(g) => {
                        assert(m[g].1[m[g].1.len() - 1] == k);
                        assert(m[g].1.contains(k));
                    },
                    None => {
                        assert(m[prev.len() as int].1[0] == k);
                        assert(m[prev.len() as int].1.contains(k));
                    },
                }
            } else {
                assert(d[i] == bases[i]);
                assert(merge_covers_one(d, prev, i));
                let h = choose|h: int| 0 <= h < prev.len() && prev[h].0 == d[i]
                    && #[trigger] prev[h].1.contains(i as usize);
                let idx = choose|idx: int| 0 <= idx < prev[h].1.len() && prev[h].1[idx] == i as usize;
                match find_group(prev, b) {
                    Some(g) => {
                        if h == g {
                            assert(m[h].1[idx] == i as usize);
                        } else {
                            assert(m[h] == prev[h]);
                        }
                    },
                    None => {
                        assert(m[h] == prev[h]);
                    },
                }
                assert(m[h].1.contains(i as usize));
            }
        }
        assert(merge_covers(bases, m));
    }
}

/// Position `j` occurs in `r`.
pub open spec fn has_index(r: Seq<usize>, j: int) -> bool {
    exists|a: int| 0 <= a < r.len() && r[a] as int == j
}

/// `r` lists each of the positions `0..n` exactly once.
pub open spec fn is_index_permutation(r: Seq<usize>, n: nat) -> bool {
    &&& r.len() == n
    &&& forall|a: int| 0 <= a < r.len() ==> r[a] < n
    &&& forall|j: int| 0 <= j < n ==> #[trigger] has_index(r, j)
}

/// Row `x` comes before row `y` when sorting by a numeric key: by key (ascending or
/// descending), equal keys keeping their input order.
pub open spec fn key_before(keys: Seq<u64>, ascending: bool, x: int, y: int) -> bool {
    if ascending {
        keys[x] < keys[y] || (keys[x] == keys[y] && x < y)
    } else {
        keys[x] > keys[y] || (keys[x] == keys[y] && x < y)
    }
}

/// The order of rows `r` after a stable sort by a numeric key.
pub open spec fn sorted_by_key(r: Seq<usize>, keys: Seq<u64>, ascending: bool) -> bool {
    forall|a: int, b: int| 0 <= a < b < r.len() ==> key_before(keys, ascending, r[a] as int, r[b] as int)
}

/// Row `x` comes before row `y` when sorting by process id: by id (ascending or
/// descending), equal ids keeping their input order.
pub open spec fn pid_before(pids: Seq<u32>, ascending: bool, x: int, y: int) -> bool {
    if ascending {
        pids[x] < pids[y] || (pids[x] == pids[y] && x < y)
    } else {
        pids[x] > pids[y] || (pids[x] == pids[y] && x < y)
    }
}

/// The order of rows `r` after a stable sort by process id.
pub open spec fn sorted_by_pid(r: Seq<usize>, pids: Seq<u32>, ascending: bool) -> bool {
    forall|a: int, b: int| 0 <= a < b < r.len() ==> pid_before(pids, ascending, r[a] as int, r[b] as int)
}

fn key_strictly_before(keys: &Vec<u64>, ascending: bool, x: usize, y: usize) -> (b: bool)
    requires
        x < keys@.len(),
        y < keys@.len(),
    ensures
        b == (if ascending { keys@[x as int] < keys@[y as int] } else { keys@[x as int] > keys@[y as int] }),
{
    if ascending {
        keys[x] < keys[y]
    } else {
        keys[x] > keys[y]
    }
}

/// The rows in the order of a stable sort by a numeric key, as positions in the input.
pub fn sort_by_key(keys: &Vec<u64>, ascending: bool) -> (r: Vec<usize>)
    ensures
        is_index_permutation(r@, keys@.len()),
        sorted_by_key(r@, keys@, ascending),
{
    let mut r: Vec<usize> = Vec::new();
    let mut i: usize = 0;
    while i < keys.len()
        invariant
            i <= keys@.len(),
            is_index_permutation(r@, i as nat),
            sorted_by_key(r@, keys@, ascending),
        decreases keys@.len() - i,
    {
        let mut k: usize = 0;
        while k < r.len() && !key_strictly_before(keys, ascending, i, r[k])
            invariant
                i < keys@.len(),
                k <= r@.len(),
                is_index_permutation(r@, i as nat),
                forall|a: int| 0 <= a < k ==> key_before(keys@, ascending, r@[a] as int, i as int),
            decreases r@.len() - k,
        {
            k = k + 1;
        }
        let ghost old_r = r@;
        r.insert(k, i);
        proof {
            assert(r@ == old_r.insert(k as int, i));
            assert forall|a: int, b: int| 0 <= a < b < r@.len() implies key_before(
                keys@,
                ascending,
                r@[a] as int,
                r@[b] as int,
            ) by {
                if b < k {
                } else if a < k && b == k {
                } else if a < k {
                    assert(r@[b] == old_r[b - 1]);
                } else if a == k {
                    assert(r@[b] == old_r[b - 1]);
                    if b - 1 > k {
                        assert(key_before(keys@, ascending, old_r[k as int] as int, old_r[b - 1] as int));
                    }
                } else {
                    assert(r@[a] == old_r[a - 1]);
                    assert(r@[b] == old_r[b - 1]);
                }
            }
            assert forall|j: int| 0 <= j < i + 1 implies #[trigger] has_index(r@, j) by {
                if j == i {
                    assert(r@[k as int] == i);
                } else {
                    assert(has_index(old_r, j));
                    let p = choose|p: int| 0 <= p < old_r.len() && old_r[p] as int == j;
                    if p < k {
                        assert(r@[p] as int == j);
                    } else {
                        assert(r@[p + 1] as int == j);
                    }
                }
            }
        }
        i = i + 1;
    }
    r
}

/// The rows in the order of a stable sort by process id, as positions in the input.
pub fn sort_by_pid(pids: &Vec<u32>, ascending: bool) -> (r: Vec<usize>)
    ensures
        is_index_permutation(r@, pids@.len()),
        sorted_by_pid(r@, pids@, ascending),
{
    let mut keys: Vec<u64> = Vec::new();
    let mut j: usize = 0;
    while j < pids.len()
        invariant
            j <= pids@.len(),
            keys@.len() == j,
            forall|m: int| 0 <= m < j ==> keys@[m] == pids@[m] as u64,
        decreases pids@.len() - j,
    {
        keys.push(pids[j] as u64);
        j = j + 1;
    }
    let r = sort_by_key(&keys, ascending);
    assert forall|a: int, b: int| 0 <= a < b < r@.len() implies pid_before(
        pids@,
        ascending,
        r@[a] as int,
        r@[b] as int,
    ) by {
        assert(key_before(keys@, ascending, r@[a] as int, r@[b] as int));
    }
    r
}

/// `a` sorts strictly before `b` in the order of `str`'s `Ord`.
pub open spec fn str_lt(a: Seq<char>, b: Seq<char>) -> bool {
    crate::sorting::str_le(a, b) && a != b
}

/// Row `x` comes before row `y` when sorting by name: by lower-cased name (ascending or
/// descending), equal names keeping their input order.
pub open spec fn name_before(keys: Seq<Seq<char>>, ascending: bool, x: int, y: int) -> bool {
    if ascending {
        str_lt(keys[x], keys[y]) || (keys[x] == keys[y] && x < y)
    } else {
        str_lt(keys[y], keys[x]) || (keys[x] == keys[y] && x < y)
    }
}

/// The order of rows `r` after a stable sort by name.
pub open spec fn sorted_by_name(r: Seq<usize>, keys: Seq<Seq<char>>, ascending: bool) -> bool {
    forall|a: int, b: int| 0 <= a < b < r.len() ==> name_before(keys, ascending, r[a] as int, r[b] as int)
}

proof fn lemma_name_before_transitive(keys: Seq<Seq<char>>, ascending: bool, x: int, y: int, z: int)
    requires
        name_before(keys, ascending, x, y),
        name_before(keys, ascending, y, z),
    ensures
        name_before(keys, ascending, x, z),
{
    crate::sorting::lemma_str_le_total_ordering();
    let le = crate::sorting::str_leq();
    assert(le(keys[x], keys[y]) == crate::sorting::str_le(keys[x], keys[y]));
    assert(le(keys[y], keys[z]) == crate::sorting::str_le(keys[y], keys[z]));
    assert(le(keys[x], keys[z]) == crate::sorting::str_le(keys[x], keys[z]));
    assert(le(keys[y], keys[x]) == crate::sorting::str_le(keys[y], keys[x]));
    assert(le(keys[z], keys[y]) == crate::sorting::str_le(keys[z], keys[y]));
    assert(le(keys[z], keys[x]) == crate::sorting::str_le(keys[z], keys[x]));
}

proof fn lemma_name_not_before(keys: Seq<Seq<char>>, ascending: bool, x: int, y: int)
    requires
        x < y,
        !(if ascending { str_lt(keys[y], keys[x]) } else { str_lt(keys[x], keys[y]) }),
    ensures
        name_before(keys, ascending, x, y),
{
    crate::sorting::lemma_str_le_total_ordering();
    let le = crate::sorting::str_leq();
    assert(le(keys[x], keys[y]) == crate::sorting::str_le(keys[x], keys[y]));
    assert(le(keys[y], keys[x]) == crate::sorting::str_le(keys[y], keys[x]));
}

fn name_key_before(keys: &Vec<String>, ascending: bool, x: usize, y: usize) -> (b: bool)
    requires
        x < keys@.len(),
        y < keys@.len(),
    ensures
        b == (if ascending { str_lt(keys@[x as int]@, keys@[y as int]@) } else { str_lt(
            keys@[y as int]@,
            keys@[x as int]@,
        ) }),
{
    let a = keys[x].as_str();
    let c = keys[y].as_str();
    if crate::text::str_eq(a, c) {
        false
    } else if ascending {
        crate::sorting::str_le_exec(a, c)
    } else {
        crate::sorting::str_le_exec(c, a)
    }
}

/// The lower-cased names.
pub open spec fn lowercase_keys(names: Seq<String>) -> Seq<Seq<char>> {
    names.map_values(|n: String| crate::text::lowercase(n@))
}

/// The rows in the order of a stable sort by lower-cased name, as positions in the input.
pub fn sort_by_name(names: &Vec<String>, ascending: bool) -> (r: Vec<usize>)
    ensures
        is_index_permutation(r@, names@.len()),
        sorted_by_name(r@, lowercase_keys(names@), ascending),
{
    let mut keys: Vec<String> = Vec::new();
    let mut j: usize = 0;
    while j < names.len()
        invariant
            j <= names@.len(),
            keys@.len() == j,
            forall|m: int| 0 <= m < j ==> keys@[m]@ == crate::text::lowercase(names@[m]@),
        decreases names@.len() - j,
    {
        keys.push(crate::text::to_lowercase(names[j].as_str()));
        j = j + 1;
    }
    let ghost kv = lowercase_keys(names@);
    assert forall|m: int| 0 <= m < keys@.len() implies keys@[m]@ == kv[m] by {}
    let mut r: Vec<usize> = Vec::new();
    let mut i: usize = 0;
    while i < keys.len()
        invariant
            keys@.len() == names@.len(),
            kv == lowercase_keys(names@),
            forall|m: int| 0 <= m < keys@.len() ==> keys@[m]@ == kv[m],
            i <= keys@.len(),
            is_index_permutation(r@, i as nat),
            sorted_by_name(r@, kv, ascending),
        decreases keys@.len() - i,
    {
        let mut k: usize = 0;
        while k < r.len() && !name_key_before(&keys, ascending, i, r[k])
            invariant
                keys@.len() == names@.len(),
                forall|m: int| 0 <= m < keys@.len() ==> keys@[m]@ == kv[m],
                i < keys@.len(),
                k <= r@.len(),
                is_index_permutation(r@, i as nat),
                forall|a: int| 0 <= a < k ==> name_before(kv, ascending, r@[a] as int, i as int),
            decreases r@.len() - k,
        {
            proof {
                lemma_name_not_before(kv, ascending, r@[k as int] as int, i as int);
            }
            k = k + 1;
        }
        let ghost old_r = r@;
        r.insert(k, i);
        proof {
            assert(r@ == old_r.insert(k as int, i));
            if k < old_r.len() {
                assert(name_before(kv, ascending, i as int, old_r[k as int] as int));
            }
            assert forall|a: int, b: int| 0 <= a < b < r@.len() implies name_before(
                kv,
                ascending,
                r@[a] as int,
                r@[b] as int,
            ) by {
                if b < k {
                } else if a < k && b == k {
                } else if a < k {
                    assert(r@[b] == old_r[b - 1]);
                } else if a == k {
                    assert(r@[b] == old_r[b - 1]);
                    if b - 1 > k {
                        lemma_name_before_transitive(
                            kv,
                            ascending,
                            i as int,
                            old_r[k as int] as int,
                            old_r[b - 1] as int,
                        );
                    }
                } else {
                    assert(r@[a] == old_r[a - 1]);
                    assert(r@[b] == old_r[b - 1]);
                }
            }
            assert forall|j: int| 0 <= j < i + 1 implies #[trigger] has_index(r@, j) by {
                if j == i {
                    assert(r@[k as int] == i);
                } else {
                    assert(has_index(old_r, j));
                    let p = choose|p: int| 0 <= p < old_r.len() && old_r[p] as int == j;
                    if p < k {
                        assert(r@[p] as int == j);
                    } else {
                        assert(r@[p + 1] as int == j);
                    }
                }
            }
        }
        i = i + 1;
    }
    r
}

/// A row of the process table: a process (a position in the list), or one of its
/// children when its group is expanded.
#[derive(Debug, Clone, Copy, PartialEq, Eq, Structural)]
pub struct VisibleRow {
    /// Position of the process in the list.
    pub process: usize,
    /// Position of the child within the process's children, for a child row.
    pub child: Option<usize>,
    /// 0 for a process, 1 for a child.
    pub depth: u8,
}

/// The rows one process contributes: itself, then its children when expanded.
pub open spec fn group_rows(p: usize, pids: Seq<u32>, child_counts: Seq<usize>, expanded: Seq<u32>) -> Seq<VisibleRow> {
    seq![VisibleRow { process: p, child: None, depth: 0 }] + if expanded.contains(pids[p as int]) {
        Seq::new(
            child_counts[p as int] as nat,
            |c: int| VisibleRow { process: p, child: Some(c as usize), depth: 1 },
        )
    } else {
        Seq::empty()
    }
}

/// The rows of the table for processes in the order `order`.
pub open spec fn visible_rows_spec(
    order: Seq<usize>,
    pids: Seq<u32>,
    child_counts: Seq<usize>,
    expanded: Seq<u32>,
) -> Seq<VisibleRow>
    decreases order.len(),
{
    if order.len() == 0 {
        Seq::empty()
    } else {
        visible_rows_spec(order.drop_last(), pids, child_counts, expanded) + group_rows(
            order.last(),
            pids,
            child_counts,
            expanded,
        )
    }
}

fn contains_pid(v: &Vec<u32>, pid: u32) -> (b: bool)
    ensures
        b == v@.contains(pid),
{
    let mut i: usize = 0;
    while i < v.len()
        invariant
            i <= v@.len(),
            forall|j: int| 0 <= j < i ==> v@[j] != pid,
        decreases v@.len() - i,
    {
        if v[i] == pid {
            return true;
        }
        i = i + 1;
    }
    false
}

/// The table rows: each process in `order`, followed by its children when its id is
/// among the expanded groups.
pub fn visible_rows(
    order: &Vec<usize>,
    pids: &Vec<u32>,
    child_counts: &Vec<usize>,
    expanded: &Vec<u32>,
) -> (rows: Vec<VisibleRow>)
    requires
        pids@.len() == child_counts@.len(),
        forall|a: int| 0 <= a < order@.len() ==> order@[a] < pids@.len(),
    ensures
        rows@ == visible_rows_spec(order@, pids@, child_counts@, expanded@),
{
    let mut rows: Vec<VisibleRow> = Vec::new();
    let mut i: usize = 0;
    while i < order.len()
        invariant
            pids@.len() == child_counts@.len(),
            forall|a: int| 0 <= a < order@.len() ==> order@[a] < pids@.len(),
            i <= order@.len(),
            rows@ == visible_rows_spec(order@.take(i as int), pids@, child_counts@, expanded@),
        decreases order@.len() - i,
    {
        let p = order[i];
        let ghost before = rows@;
        rows.push(VisibleRow { process: p, child: None, depth: 0 });
        let open = contains_pid(expanded, pids[p]);
        if open {
            let n = child_counts[p];
            let mut c: usize = 0;
            while c < n
                invariant
                    c <= n,
                    rows@ == before + seq![VisibleRow { process: p, child: None, depth: 0 }] + Seq::new(
                        c as nat,
                        |x: int| VisibleRow { process: p, child: Some(x as usize), depth: 1 },
                    ),
                decreases n - c,
            {
                rows.push(VisibleRow { process: p, child: Some(c), depth: 1 });
                assert(Seq::new(
                    (c + 1) as nat,
                    |x: int| VisibleRow { process: p, child: Some(x as usize), depth: 1 },
                ) =~= Seq::new(
                    c as nat,
                    |x: int| VisibleRow { process: p, child: Some(x as usize), depth: 1 },
                ).push(VisibleRow { process: p, child: Some(c), depth: 1 }));
                assert(rows@ =~= before + seq![VisibleRow { process: p, child: None, depth: 0 }] + Seq::new(
                    (c + 1) as nat,
                    |x: int| VisibleRow { process: p, child: Some(x as usize), depth: 1 },
                ));
                c = c + 1;
            }
        }
        proof {
            assert(order@.take(i + 1).drop_last() =~= order@.take(i as int));
            assert(order@.take(i + 1).last() == p);
            assert(rows@ =~= before + group_rows(p, pids@, child_counts@, expanded@));
        }
        i = i + 1;
    }
    assert(order@.take(order@.len() as int) =~= order@);
    rows
}

/// Toggles a process group in the list of expanded groups: it is removed when present and
/// added otherwise. The list holds no group twice.
pub fn toggle_expanded(groups: &mut Vec<u32>, pid: u32)
    requires
        old(groups)@.no_duplicates(),
    ensures
        final(groups)@.no_duplicates(),
        forall|x: u32|
            #![trigger final(groups)@.contains(x)]
            final(groups)@.contains(x) == (if x == pid {
                !old(groups)@.contains(pid)
            } else {
                old(groups)@.contains(x)
            }),
{
    let ghost g = groups@;
    let mut i: usize = 0;
    while i < groups.len() && groups[i] != pid
        invariant
            i <= groups@.len(),
            groups@ == g,
            g.no_duplicates(),
            forall|j: int| 0 <= j < i ==> g[j] != pid,
        decreases groups@.len() - i,
    {
        i = i + 1;
    }
    if i < groups.len() {
        groups.remove(i);
        proof {
            let r = g.remove(i as int);
            assert(groups@ == r);
            assert forall|a: int, b: int| 0 <= a < b < r.len() implies r[a] != r[b] by {
                let a2 = if a < i { a } else { a + 1 };
                let b2 = if b < i { b } else { b + 1 };
                assert(r[a] == g[a2] && r[b] == g[b2]);
            }
            assert forall|x: u32| #![trigger r.contains(x)] r.contains(x) == (if x == pid {
                !g.contains(pid)
            } else {
                g.contains(x)
            }) by {
                if x == pid {
                    assert(g[i as int] == pid);
                    if r.contains(x) {
                        let k = choose|k: int| 0 <= k < r.len() && r[k] == x;
                        let k2 = if k < i { k } else { k + 1 };
                        assert(g[k2] == pid && k2 != i);
                    }
                } else {
                    if g.contains(x) {
                        let k = choose|k: int| 0 <= k < g.len() && g[k] == x;
                        assert(k != i);
                        let k2 = if k < i { k } else { k - 1 };
                        assert(r[k2] == x);
                    }
                    if r.contains(x) {
                        let k = choose|k: int| 0 <= k < r.len() && r[k] == x;
                        let k2 = if k < i { k } else { k + 1 };
                        assert(g[k2] == x);
                    }
                }
            }
        }
    } else {
        groups.push(pid);
        proof {
            let r = g.push(pid);
            assert(groups@ == r);
            assert(!g.contains(pid));
            assert forall|a: int, b: int| 0 <= a < b < r.len() implies r[a] != r[b] by {
                if b == g.len() {
                    assert(r[a] == g[a]);
                }
            }
            assert forall|x: u32| #![trigger r.contains(x)] r.contains(x) == (if x == pid {
                !g.contains(pid)
            } else {
                g.contains(x)
            }) by {
                if x == pid {
                    assert(r[g.len() as int] == pid);
                } else {
                    if g.contains(x) {
                        let k = choose|k: int| 0 <= k < g.len() && g[k] == x;
                        assert(r[k] == x);
                    }
                    if r.contains(x) {
                        let k = choose|k: int| 0 <= k < r.len() && r[k] == x;
                        assert(g[k] == x);
                    }
                }
            }
        }
    }
}

/// Whether a process name is on the exclusion list (compared exactly).
pub fn is_excluded(name: &str, excluded: &Vec<String>) -> (b: bool)
    ensures
        b == crate::sorting::views(excluded@).contains(name@),
{
    let ghost ex = crate::sorting::views(excluded@);
    let mut i: usize = 0;
    while i < excluded.len()
        invariant
            i <= excluded@.len(),
            ex == crate::sorting::views(excluded@),
            forall|j: int| 0 <= j < i ==> ex[j] != name@,
        decreases excluded@.len() - i,
    {
        if crate::text::str_eq(excluded[i].as_str(), name) {
            assert(ex[i as int] == name@);
            return true;
        }
        i = i + 1;
    }
    proof {
        if ex.contains(name@) {
            let k = choose|k: int| 0 <= k < ex.len() && ex[k] == name@;
            assert(false);
        }
    }
    false
}

/// The positions of the processes whose parent is `pid`, in input order.
pub open spec fn child_positions_spec(parents: Seq<Option<u32>>, pid: u32) -> Seq<int> {
    Seq::new(parents.len(), |i: int| i).filter(|i: int| parents[i] == Some(pid))
}

/// The positions of the processes whose parent is `pid`, in input order: the members of
/// that process's group.
pub fn child_positions(parents: &Vec<Option<u32>>, pid: u32) -> (r: Vec<usize>)
    ensures
        r@.map_values(|i: usize| i as int) == child_positions_spec(parents@, pid),
{
    let ghost pred = |i: int| parents@[i] == Some(pid);
    let mut r: Vec<usize> = Vec::new();
    let mut i: usize = 0;
    while i < parents.len()
        invariant
            i <= parents@.len(),
            pred == (|i: int| parents@[i] == Some(pid)),
            r@.map_values(|k: usize| k as int) == Seq::new(i as nat, |k: int| k).filter(pred),
        decreases parents@.len() - i,
    {
        proof {
            assert(Seq::new((i + 1) as nat, |k: int| k) =~= Seq::new(i as nat, |k: int| k).push(
                i as int,
            ));
            Seq::new(i as nat, |k: int| k).lemma_filter_push(i as int, pred);
        }
        if parents[i] == Some(pid) {
            r.push(i);
            assert(r@.map_values(|k: usize| k as int) =~= Seq::new((i + 1) as nat, |k: int| k).filter(
                pred,
            ));
        }
        i = i + 1;
    }
    assert(Seq::new(parents@.len(), |k: int| k) =~= Seq::new(i as nat, |k: int| k));
    r
}

/// A name ending in `x` does not end in `p` when the two differ `k` characters from
/// their ends.
proof fn lemma_not_ends_with(n: Seq<char>, x: Seq<char>, p: Seq<char>, k: int)
    requires
        0 <= k < x.len(),
        k < p.len(),
        x[x.len() - 1 - k] != p[p.len() - 1 - k],
    ensures
        !ends_with_chars(n + x, p),
{
    let s = n + x;
    if ends_with_chars(s, p) {
        let t = s.subrange(s.len() - p.len(), s.len() as int);
        assert(t[p.len() - 1 - k] == s[s.len() - 1 - k]);
        assert(s[s.len() - 1 - k] == x[x.len() - 1 - k]);
    }
}

/// Removing trailing copies of `x` from `n + x` leaves `n` when `n` does not end in `x`.
proof fn lemma_trim_appended(n: Seq<char>, x: Seq<char>)
    requires
        x.len() > 0,
        !ends_with_chars(n, x),
    ensures
        trim_end_all(n + x, x) == n,
{
    let s = n + x;
    assert(s.subrange(s.len() - x.len(), s.len() as int) =~= x);
    assert(s.subrange(0, s.len() - x.len()) =~= n);
    assert(ends_with_chars(s, x));
    assert(trim_end_all(n, x) == n);
    assert(trim_end_all(s, x) == trim_end_all(s.subrange(0, s.len() - x.len()), x));
}

/// A name with none of the helper suffixes and no parenthesized remark of its own is its
/// own base name.
pub open spec fn plain_process_name(n: Seq<char>) -> bool {
    &&& !ends_with_chars(n, " Helper"@)
    &&& !ends_with_chars(n, " Helper (Renderer)"@)
    &&& !ends_with_chars(n, " Helper (GPU)"@)
    &&& !ends_with_chars(n, " Helper (Plugin)"@)
    &&& !ends_with_chars(n, " Renderer"@)
    &&& !ends_with_chars(n, " (GPU Process)"@)
    &&& !ends_with_chars(n, " Web Content"@)
    &&& !has_remark(n)
}

/// Helper processes group under their application: for an application name `n` with no
/// helper suffix or remark of its own, `n`, `n + " Helper"`, `n + " Helper (Renderer)"`,
/// `n + " Helper (GPU)"` and `n + " Helper (Plugin)"` all have the base name `n`.
pub proof fn lemma_helpers_group_under_application(n: Seq<char>)
    requires
        plain_process_name(n),
    ensures
        base_process_name(n) == n,
        base_process_name(n + " Helper"@) == n,
        base_process_name(n + " Helper (Renderer)"@) == n,
        base_process_name(n + " Helper (GPU)"@) == n,
        base_process_name(n + " Helper (Plugin)"@) == n,
{
    reveal_strlit(" Helper");
    reveal_strlit(" Helper (Renderer)");
    reveal_strlit(" Helper (GPU)");
    reveal_strlit(" Helper (Plugin)");
    reveal_strlit(" Renderer");
    reveal_strlit(" (GPU Process)");
    reveal_strlit(" Web Content");
    let h = " Helper"@;
    let hr = " Helper (Renderer)"@;
    let hg = " Helper (GPU)"@;
    let hp = " Helper (Plugin)"@;
    assert(trim_helper_suffixes(n) == n);
    // n + " Helper"
    lemma_trim_appended(n, h);
    assert(trim_helper_suffixes(n + h) == n);
    // n + " Helper (Renderer)"
    lemma_not_ends_with(n, hr, h, 0);
    lemma_trim_appended(n, hr);
    assert(trim_helper_suffixes(n + hr) == n);
    // n + " Helper (GPU)"
    lemma_not_ends_with(n, hg, h, 0);
    lemma_not_ends_with(n, hg, hr, 1);
    lemma_trim_appended(n, hg);
    assert(trim_helper_suffixes(n + hg) == n);
    // n + " Helper (Plugin)"
    lemma_not_ends_with(n, hp, h, 0);
    lemma_not_ends_with(n, hp, hr, 1);
    lemma_not_ends_with(n, hp, hg, 1);
    lemma_trim_appended(n, hp);
    assert(trim_helper_suffixes(n + hp) == n);
}

/// Renderer, GPU and web-content processes group under their application too: for an
/// application name `n` with no helper suffix or remark of its own,
/// `n + " Renderer"`, `n + " (GPU Process)"` and `n + " Web Content"` have the base name `n`.
pub proof fn lemma_subprocesses_group_under_application(n: Seq<char>)
    requires
        plain_process_name(n),
    ensures
        base_process_name(n + " Renderer"@) == n,
        base_process_name(n + " (GPU Process)"@) == n,
        base_process_name(n + " Web Content"@) == n,
{
    reveal_strlit(" Helper");
    reveal_strlit(" Helper (Renderer)");
    reveal_strlit(" Helper (GPU)");
    reveal_strlit(" Helper (Plugin)");
    reveal_strlit(" Renderer");
    reveal_strlit(" (GPU Process)");
    reveal_strlit(" Web Content");
    let h = " Helper"@;
    let hr = " Helper (Renderer)"@;
    let hg = " Helper (GPU)"@;
    let hp = " Helper (Plugin)"@;
    let r = " Renderer"@;
    let g = " (GPU Process)"@;
    let w = " Web Content"@;
    lemma_not_ends_with(n, r, h, 2);
    lemma_not_ends_with(n, r, hr, 0);
    lemma_not_ends_with(n, r, hg, 0);
    lemma_not_ends_with(n, r, hp, 0);
    lemma_trim_appended(n, r);
    assert(trim_helper_suffixes(n + r) == n);
    lemma_not_ends_with(n, g, h, 0);
    lemma_not_ends_with(n, g, hr, 1);
    lemma_not_ends_with(n, g, hg, 1);
    lemma_not_ends_with(n, g, hp, 1);
    lemma_not_ends_with(n, g, r, 0);
    lemma_trim_appended(n, g);
    assert(trim_helper_suffixes(n + g) == n);
    lemma_not_ends_with(n, w, h, 0);
    lemma_not_ends_with(n, w, hr, 0);
    lemma_not_ends_with(n, w, hg, 0);
    lemma_not_ends_with(n, w, hp, 0);
    lemma_not_ends_with(n, w, r, 0);
    lemma_not_ends_with(n, w, g, 0);
    lemma_trim_appended(n, w);
    assert(trim_helper_suffixes(n + w) == n);
}

} // verus!
